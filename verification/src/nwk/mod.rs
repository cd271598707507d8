//! The network layer.
pub mod commands;
pub mod constants;
pub mod frame;
pub mod nib;
pub mod nlde;
pub mod router;
pub mod routing;
pub mod nlme;
pub mod forwarding;
pub mod emission;

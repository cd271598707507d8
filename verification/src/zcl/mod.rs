//! The Zigbee cluster library.
pub mod cluster;
pub mod command;
pub mod frame;
pub mod service;
pub mod types;
pub mod roundtrip;
pub mod wire;
pub mod records;
pub mod global;

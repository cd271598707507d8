//! A Zigbee stack: network and cluster-library frame formats, neighbor and
//! routing tables, and the decisions the network layer takes on each frame.
pub mod bytes;
pub mod common;
pub mod mac;
pub mod collections;
pub mod nwk;
pub mod stack_profile;
pub mod transitions;
pub mod zcl;
pub mod clusters;

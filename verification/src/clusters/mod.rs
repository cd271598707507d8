//! Clusters that a device serves: on/off, identify, basic and temperature
//! measurement.
pub mod onoff;
pub mod identify;
pub mod temperature;
pub mod basic;

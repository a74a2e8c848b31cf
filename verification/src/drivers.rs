//! Sensor drivers: the instructions that a sensor takes and the values that
//! its answers hold. The bus and the pin are the caller's.

pub mod bh1750;
pub mod dht22;

//! Colour temperature.
pub mod temperature_cache;

pub use crate::temperature::temperature_cache::TemperatureCache;

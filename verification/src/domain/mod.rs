//! Books as this program thinks of them, apart from any device.

pub mod mapping;
pub mod models;

//! The services behind the endpoints.

pub mod health;
pub mod library;
pub mod metadata;
pub mod proxy;
pub mod reading;
pub mod sync;

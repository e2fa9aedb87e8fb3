//! The device-facing side: the sync token, the shapes a device is answered
//! with, and the services that decide the answers.

pub mod models;
pub mod routes;
pub mod services;

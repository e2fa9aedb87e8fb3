//! Sync engine that presents a self-hosted book library to an e-reader
//! through the reader's own library-sync protocol.

pub mod abs_client;
pub mod config;
pub mod domain;
pub mod encoding;
pub mod ident;
pub mod json;
pub mod kobo_api;
pub mod storage;
pub mod text;
pub mod time;

//! Handle-based bridge between a scripting host and an HTTP engine: request
//! validation, the permission decision, and registration of clients and
//! response bodies in a handle table.

pub mod error;
pub mod registry;
pub mod request;
pub mod ops;
pub mod laws;

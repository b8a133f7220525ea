//! The decisions of an HTTP/1 connection dispatcher, kept apart from its I/O.

pub mod buffer;
pub mod dispatcher;
pub mod laws;
pub mod model;
pub mod reader;
pub mod service;
pub mod turns;
pub mod types;
pub mod writer;

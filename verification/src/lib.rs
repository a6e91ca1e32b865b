//! A single-endpoint query service: a request names one of a closed set of
//! operations and carries its arguments; the service answers with a value or
//! with one of four kinds of error.
//!
//! The service itself performs no I/O. Where an operation needs the external
//! data source, the service says so and the caller hands back what the source
//! answered.

pub mod error;
pub mod request;
pub mod operation;
pub mod service;
pub mod config;
pub mod laws;

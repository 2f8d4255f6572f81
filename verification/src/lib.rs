//! Session core of a debug and programming tool for embedded targets.
//!
//! A [`session::Session`] joins a resolved [`config::Target`] with the open
//! architecture interface of one debug link. It hands out memory and core
//! handles, drains the trace capture buffer, walks the component directory
//! of the chip and routes trace data to the capture buffer.

pub mod config;
pub mod error;
pub mod link;
pub mod romtable;
pub mod session;
pub mod tracing;

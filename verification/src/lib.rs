//! Core of a periodic screen-capture agent and its collector server.
//!
//! The two load-bearing subsystems live here, fully verified: the frame
//! retention engine (a fixed-capacity ring buffer, an append-only disk log
//! model, and the storage manager that combines them) and the capture-upload
//! control loop (a cancellable state machine with a server-driven cadence).
//! The surrounding I/O — HTTP transport, screen capture, the async runtime —
//! stays outside and feeds plain values in.

pub mod agent;
pub mod auth;
pub mod capture;
pub mod config;
pub mod disk;
pub mod errors;
pub mod frame;
pub mod manager;
pub mod ring;
pub mod server;
pub mod text;
pub mod transport;

//! A single-session control endpoint.
//!
//! At most one session is open at a time. Every successful open advances a
//! counter and fixes, for the life of the session, a greeting that embeds the
//! new count. The holder of a session reads the greeting back with one control
//! request.

pub mod command;
pub mod decimal;
pub mod error;
pub mod generator;
pub mod guard;
pub mod lifecycle;
pub mod message;
pub mod service;
pub mod session;
pub mod transfer;

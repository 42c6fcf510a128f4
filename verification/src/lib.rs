//! Decision logic of a command-line weather client.
//!
//! The client asks a remote weather service for forecasts. This crate holds
//! everything the client decides: how a free-text location query becomes
//! exactly one location, how a typed selection is read, what the configuration
//! must hold before a forecast may be requested, and in which order the remote
//! calls are made. It performs no input or output itself: every function takes
//! what was read or received as an argument and says what has to happen next.

pub mod config;
pub mod dispatcher;
pub mod error;
pub mod input;
pub mod location;
pub mod report;
pub mod resolver;
pub mod text;

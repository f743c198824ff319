//! Command-execution gateway for an external hardware-toolchain binary.
//!
//! The library validates loosely-typed request payloads into canonical
//! commands, normalizes raw process outcomes, and builds the uniform
//! response contract shared by every transport.

pub mod executor;
pub mod guarantees;
pub mod models;
pub mod response;
pub mod validator;

pub use models::ArduinoCommand;
pub use models::CommandResponse;

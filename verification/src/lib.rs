//! Verified core of a few Fuchsia support libraries: handle readiness
//! signalling, service routing and request dispatch for a directory server,
//! and the error and command types of two command-line and protocol crates.
pub mod signals;
pub mod rwhandle;
pub mod services;
pub mod at_commands;
pub mod sdk_args;

//! Environment-backed options: a fixed registry of named settings, each either
//! required or carrying a default, with an aggregate validator and a resolver
//! that reads the value of one option from a snapshot of the process environment.
pub mod environment;
pub mod laws;
pub mod registry;

//! Validation of configuration specifications and location of the
//! specification files named by a package manifest.

pub mod config;
pub mod manifest;

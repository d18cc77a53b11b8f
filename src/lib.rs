//! Reads a package's manifest and lock file contents and reports the declared
//! license together with the resolved dependencies and where each came from.

pub mod model;
pub mod manifest;
pub mod lock;
pub mod scan;
pub mod laws;

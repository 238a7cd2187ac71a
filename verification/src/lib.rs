//! Resolution of the server's configuration from the values read out of its
//! configuration file and out of the process environment.

pub mod laws;
pub mod resolve;
pub mod settings;

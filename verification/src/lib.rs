//! Verified core of a language server for InterSystems ObjectScript.

pub mod compile;
pub mod connection;
pub mod feature;
pub mod protocol;
pub mod server;
pub mod text;
pub mod uri;
pub mod workspace;

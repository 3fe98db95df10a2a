//! The tool server: errors, access policy, configuration, audit and
//! resource rules.

pub mod audit;
pub mod config;
pub mod error;
pub mod validation;
pub mod workspace;
pub mod policy;
pub mod protocol;
pub mod registry;
pub mod resource;
pub mod server;

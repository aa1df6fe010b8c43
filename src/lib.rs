//! Adds dependencies to a project as version-control submodules and registers
//! each one as a partition in the downstream build tool's configuration.

pub mod config;
pub mod error;
pub mod json;
pub mod layout;
pub mod partition;
pub mod paths;
pub mod report;
pub mod resolve;
pub mod workflow;

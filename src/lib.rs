//! Command resolution and package-manager orchestration for an interactive shell.
pub mod platform;
pub mod text;
pub mod registry;
pub mod router;
pub mod invocation;
pub mod orchestrator;
pub mod paths;
pub mod commands;

pub mod config;
pub mod errors;
pub mod install;
pub mod library;
pub mod paths;
pub mod plan;
pub mod registry;
pub mod uninstall;

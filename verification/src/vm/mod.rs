//! Machine configuration and launch.
pub mod backend;
pub mod config;

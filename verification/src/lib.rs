//! Configuration, naming, lifecycle and launch rules for OCI-native microVMs.
use vstd::prelude::*;

pub mod agent;
pub mod cli;
pub mod config;
pub mod data;
pub mod db;
pub mod disk_utils;
pub mod duration;
pub mod embedded;
pub mod error;
pub mod lists;
pub mod log_rotation;
pub mod network;
pub mod pack;
pub mod path;
pub mod process;
pub mod registry;
pub mod scan;
pub mod smolfile;
pub mod storage;
pub mod table;
pub mod text;
pub mod util;
pub mod vm;

verus! {

/// Version of the library.
pub const VERSION: &'static str = "0.5.1";

/// Default shell command when no command is specified.
pub const DEFAULT_SHELL_CMD: &'static str = "/bin/sh";

} // verus!

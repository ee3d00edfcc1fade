//! Machines embedded in a host program.
pub mod control;
pub mod handle;
pub mod runtime;

//! Network backends and policies.
pub mod backend;
pub mod policy;

//! Plugins: what an extension offers to osquery.

pub mod column;
pub mod config;
pub mod constraint;
pub mod mutation;
pub mod table;

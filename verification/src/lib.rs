//! Virtual-memory management core of a bare-metal kernel.
//!
//! The crate keeps the kernel's translation tables, the record of the
//! mappings made so far and the state of the translation hardware in one
//! explicitly owned value, and states the behaviour of every operation on it
//! as a contract over mathematical models of those three parts.

pub mod descriptors;
pub mod fixed_table;
pub mod laws;
pub mod mapping_record;
pub mod mmu;
pub mod render;
pub mod translation_table;
pub mod types;

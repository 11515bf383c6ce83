//! A deterministic social-affect simulation core.
pub mod binary32;
pub mod values;
pub mod pad;
pub mod relationship;
pub mod simulation;
pub mod time;
pub mod evaluation;
pub mod deed;
pub mod memory;
pub mod abi;
pub mod laws;

//! Block data and the block behaviours the server customises.

pub mod rotation;
pub mod data;
pub mod behaviour;
pub mod properties;

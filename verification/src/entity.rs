//! Entity behaviour the server customises.

pub mod tnt;

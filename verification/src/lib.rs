//! Technical-survival rules and command logic of the VerdantGolem server, with
//! machine-checked contracts.

pub mod text;
pub mod float_bits;
pub mod carpet;
pub mod ranking;
pub mod keyed;
pub mod status_effect;
pub mod geometry;
pub mod command;
pub mod block;
pub mod entity;
pub mod item;
pub mod event;
pub mod protocol;
pub mod net;

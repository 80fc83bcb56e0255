//! Packets of the game protocols and the encodings of their fields.

pub mod codec;
pub mod packets;

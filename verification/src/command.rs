//! The decisions behind the server's technical commands.

pub mod forceload;
pub mod perimeter;
pub mod fill;
pub mod draw;
pub mod counter;
pub mod carpet;
pub mod spawn;
pub mod player;
pub mod tree;
pub mod distance;
pub mod info;
pub mod log;

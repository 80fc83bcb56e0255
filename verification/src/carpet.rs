//! Carpet-style technical-survival features: the rule registry, the hopper
//! counters, spawn tracking, logger subscriptions and fake players.

pub mod registry;
pub mod counters;
pub mod spawn_tracking;
pub mod loggers;
pub mod fake_player;

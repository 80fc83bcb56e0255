//! `/log`: subscribes to repeating action-bar readouts.

use vstd::prelude::*;
use crate::carpet::loggers::Logger;
use crate::command::tree::{CommandTree, Executor, NodeKind, is_node, literal};

verus! {

pub const NAMES: [&'static str; 1] = ["log"];

pub const DESCRIPTION: &'static str = "Subscribes to repeating action-bar readouts.";

/// `/log tps`, `/log mobcaps` and `/log stop`.
pub fn init_command_tree() -> (t: CommandTree)
    ensures
        t.names@ == NAMES@,
        t.description == DESCRIPTION,
        t.executor is None,
        t.children@.len() == 3,
        is_node(t.children@[0], "tps"@, NodeKind::Literal, Some(Executor::LogToggle(Logger::Tps)), 0),
        is_node(
            t.children@[1],
            "mobcaps"@,
            NodeKind::Literal,
            Some(Executor::LogToggle(Logger::MobCaps)),
            0,
        ),
        is_node(t.children@[2], "stop"@, NodeKind::Literal, Some(Executor::LogStop), 0),
{
    CommandTree::new(&NAMES, DESCRIPTION).followed_by(
        literal("tps").execute(Executor::LogToggle(Logger::Tps)),
    ).followed_by(literal("mobcaps").execute(Executor::LogToggle(Logger::MobCaps))).followed_by(
        literal("stop").execute(Executor::LogStop),
    )
}

/// `/log`'s command result: `1` when the logger was turned on.
pub fn toggle_result(enabled: bool) -> (r: i32)
    ensures
        r == (if enabled { 1i32 } else { 0i32 }),
{
    if enabled {
        1
    } else {
        0
    }
}

} // verus!

//! `/distance`: measures between two positions. The measuring itself works
//! on fractional coordinates and stays with the caller.

use vstd::prelude::*;
use crate::command::tree::{ArgumentType, CommandTree, Executor, NodeKind, argument, child, is_node};

verus! {

pub const NAMES: [&'static str; 1] = ["distance"];

pub const DESCRIPTION: &'static str = "Measures the distance between two positions.";

/// `/distance <from> <to>`.
pub fn init_command_tree() -> (t: CommandTree)
    ensures
        t.names@ == NAMES@,
        t.description == DESCRIPTION,
        t.executor is None,
        t.children@.len() == 1,
        is_node(t.children@[0], "from"@, NodeKind::Argument(ArgumentType::Position3D), None, 1),
        is_node(
            child(t.children@[0], 0),
            "to"@,
            NodeKind::Argument(ArgumentType::Position3D),
            Some(Executor::Distance),
            0,
        ),
{
    CommandTree::new(&NAMES, DESCRIPTION).followed_by(
        argument("from", ArgumentType::Position3D).followed_by(
            argument("to", ArgumentType::Position3D).execute(Executor::Distance),
        ),
    )
}

} // verus!

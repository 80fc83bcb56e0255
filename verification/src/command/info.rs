//! `/info`: shows the block, state and block-entity data at a position.

use vstd::prelude::*;
use crate::command::tree::{ArgumentType, CommandTree, Executor, NodeKind, argument, is_node};
use crate::text::{decimal, u64_to_text};

verus! {

pub const NAMES: [&'static str; 1] = ["info"];

pub const DESCRIPTION: &'static str = "Shows the block, state and block-entity data at a position.";

/// `/info <pos>`.
pub fn init_command_tree() -> (t: CommandTree)
    ensures
        t.names@ == NAMES@,
        t.description == DESCRIPTION,
        t.executor is None,
        t.children@.len() == 1,
        is_node(t.children@[0], "pos"@, NodeKind::Argument(ArgumentType::BlockPos), Some(Executor::Info), 0),
{
    CommandTree::new(&NAMES, DESCRIPTION).followed_by(
        argument("pos", ArgumentType::BlockPos).execute(Executor::Info),
    )
}

/// The answer of `/info`: the position, the block's registry key and its
/// state id, then the block entity's data when there is one.
pub open spec fn info_text(pos: Seq<char>, block_key: Seq<char>, state_id: u16, block_entity: Option<Seq<char>>) -> Seq<char> {
    "Block at "@ + pos + ": "@ + block_key + " (state "@ + decimal(state_id as nat) + ")"@ + match block_entity {
        Some(data) => "Block entity: "@ + data + "\n"@,
        None => Seq::empty(),
    }
}

pub fn info_message(pos: &str, block_key: &str, state_id: u16, block_entity: Option<&str>) -> (s: String)
    ensures
        s@ == info_text(pos@, block_key@, state_id, match block_entity {
            Some(d) => Some(d@),
            None => None,
        }),
{
    let mut s = String::from_str("Block at ");
    s.append(pos);
    s.append(": ");
    s.append(block_key);
    s.append(" (state ");
    s.append(u64_to_text(state_id as u64).as_str());
    s.append(")");
    match block_entity {
        Some(data) => {
            s.append("Block entity: ");
            s.append(data);
            s.append("\n");
        },
        None => {},
    }
    s
}

} // verus!

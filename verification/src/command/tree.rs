//! Command trees: the literals and arguments a command accepts, and which
//! executor runs at each point.

use vstd::prelude::*;
use crate::carpet::loggers::Logger;
use crate::carpet::registry::Rule;
use crate::command::fill::Mode;

verus! {

/// How an argument is read from the command line.
#[derive(Clone, Copy, PartialEq, Eq, Debug, Structural)]
pub enum ArgumentType {
    /// One word.
    Simple,
    /// `true` or `false`.
    Bool,
    /// A block position.
    BlockPos,
    /// A block.
    Block,
    /// A block or block tag.
    BlockPredicate,
    /// A position with fractional coordinates.
    Position3D,
    /// A block column: x and z.
    ColumnPos,
}

/// A node below the command name: a fixed word or an argument.
#[derive(Clone, Copy, PartialEq, Eq, Debug, Structural)]
pub enum NodeKind {
    Literal,
    Argument(ArgumentType),
}

/// What runs when a command ends at a node.
#[derive(Clone, Copy, PartialEq, Eq, Debug, Structural)]
pub enum Executor {
    CarpetRoot,
    CarpetList,
    CarpetDefault,
    CarpetQuery(Rule),
    CarpetSet(Rule),
    CounterAll,
    CounterChannel(usize),
    CounterReset(Option<usize>),
    Distance,
    Draw { filled: bool },
    Fill(Mode),
    ForceloadAdd,
    ForceloadRemove,
    ForceloadRemoveAll,
    ForceloadQuery,
    Info,
    LogToggle(Logger),
    LogStop,
    PerimeterInfo { needs_arg: bool },
    PlayerList,
    PlayerSpawn,
    PlayerKill,
    PlayerAttack,
    PlayerSneak,
    PlayerJump,
    PlayerDrop,
    PlayerMount,
    PlayerDismount,
    PlayerStop,
    PlayerLook,
    SpawnMobCaps,
    SpawnTracking,
}

/// A node of a command tree.
pub struct Node {
    pub name: &'static str,
    pub kind: NodeKind,
    pub executor: Option<Executor>,
    pub children: Vec<Node>,
}

/// A command: its names, its description, what runs on the bare command, and
/// the nodes that may follow it.
pub struct CommandTree {
    pub names: Vec<&'static str>,
    pub description: &'static str,
    pub executor: Option<Executor>,
    pub children: Vec<Node>,
}

/// `n` is named `name`, of kind `kind`, runs `executor` and has `children`
/// children.
pub open spec fn is_node(n: Node, name: Seq<char>, kind: NodeKind, executor: Option<Executor>, children: nat) -> bool {
    n.name@ == name && n.kind == kind && n.executor == executor && n.children@.len() == children
}

/// The child at position `i`.
pub open spec fn child(n: Node, i: int) -> Node {
    n.children@[i]
}

/// A fixed word.
pub fn literal(name: &'static str) -> (n: Node)
    ensures
        is_node(n, name@, NodeKind::Literal, None, 0),
{
    Node { name, kind: NodeKind::Literal, executor: None, children: Vec::new() }
}

/// An argument of type `t`.
pub fn argument(name: &'static str, t: ArgumentType) -> (n: Node)
    ensures
        is_node(n, name@, NodeKind::Argument(t), None, 0),
{
    Node { name, kind: NodeKind::Argument(t), executor: None, children: Vec::new() }
}

impl Node {
    /// The node, running `e` when the command ends here.
    pub fn execute(self, e: Executor) -> (n: Node)
        ensures
            n.name == self.name,
            n.kind == self.kind,
            n.executor == Some(e),
            n.children@ == self.children@,
    {
        Node { name: self.name, kind: self.kind, executor: Some(e), children: self.children }
    }

    /// The node with `child` added after its other children.
    pub fn followed_by(self, child: Node) -> (n: Node)
        ensures
            n.name == self.name,
            n.kind == self.kind,
            n.executor == self.executor,
            n.children@ == self.children@.push(child),
    {
        let mut children = self.children;
        children.push(child);
        Node { name: self.name, kind: self.kind, executor: self.executor, children }
    }
}

impl CommandTree {
    /// A command with `names` (the first is the main one) and `description`,
    /// nothing more.
    pub fn new(names: &[&'static str], description: &'static str) -> (t: CommandTree)
        ensures
            t.names@ == names@,
            t.description == description,
            t.executor is None,
            t.children@.len() == 0,
    {
        let mut v: Vec<&'static str> = Vec::new();
        let mut i: usize = 0;
        while i < names.len()
            invariant
                i <= names@.len(),
                v@ == names@.take(i as int),
            decreases names@.len() - i,
        {
            v.push(names[i]);
            i = i + 1;
            assert(v@ =~= names@.take(i as int));
        }
        assert(v@ =~= names@);
        CommandTree { names: v, description, executor: None, children: Vec::new() }
    }

    /// The command, running `e` when it is given without further words.
    pub fn execute(self, e: Executor) -> (t: CommandTree)
        ensures
            t.names == self.names,
            t.description == self.description,
            t.executor == Some(e),
            t.children@ == self.children@,
    {
        CommandTree { names: self.names, description: self.description, executor: Some(e), children: self.children }
    }

    /// The command with `child` added after its other children.
    pub fn followed_by(self, child: Node) -> (t: CommandTree)
        ensures
            t.names == self.names,
            t.description == self.description,
            t.executor == self.executor,
            t.children@ == self.children@.push(child),
    {
        let mut children = self.children;
        children.push(child);
        CommandTree { names: self.names, description: self.description, executor: self.executor, children }
    }
}

} // verus!

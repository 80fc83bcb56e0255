use verdantgolem::carpet::registry::Rule;
use verdantgolem::command::tree::{ArgumentType, CommandTree, Executor, NodeKind};
use verdantgolem::command::{carpet, counter, distance, draw, fill, forceload, info, log, perimeter, player, spawn};

fn names(tree: &CommandTree) -> Vec<&'static str> {
    tree.children.iter().map(|node| node.name).collect()
}

#[test]
fn command_trees_name_their_commands() {
    assert_eq!(carpet::init_command_tree().names, vec!["carpet", "vgcarpet"]);
    assert_eq!(counter::init_command_tree().names, vec!["counter"]);
    assert_eq!(distance::init_command_tree().names, vec!["distance"]);
    assert_eq!(draw::init_command_tree().names, vec!["draw"]);
    assert_eq!(fill::init_command_tree().names, vec!["fill"]);
    assert_eq!(info::init_command_tree().names, vec!["info"]);
    assert_eq!(log::init_command_tree().names, vec!["log"]);
    assert_eq!(perimeter::init_command_tree().names, vec!["perimeterinfo"]);
    assert_eq!(player::init_command_tree().names, vec!["player"]);
    assert_eq!(spawn::init_command_tree().names, vec!["spawn"]);
}

#[test]
fn carpet_tree_lists_every_rule() {
    let tree = carpet::init_command_tree();
    assert_eq!(tree.executor, Some(Executor::CarpetRoot));
    assert_eq!(tree.children.len(), 28);
    let node = &tree.children[2 + Rule::MergeTnt.index()];
    assert_eq!(node.name, "mergeTNT");
    assert_eq!(node.executor, Some(Executor::CarpetQuery(Rule::MergeTnt)));
    assert_eq!(node.children[0].kind, NodeKind::Argument(ArgumentType::Bool));
    let fill_limit = &tree.children[2 + Rule::FillLimit.index()];
    assert_eq!(fill_limit.children[0].kind, NodeKind::Argument(ArgumentType::Simple));
}

#[test]
fn counter_and_log_trees() {
    let tree = counter::init_command_tree();
    assert_eq!(names(&tree)[0], "reset");
    assert_eq!(names(&tree)[6], "lime");
    assert_eq!(tree.children[6].executor, Some(Executor::CounterChannel(5)));
    assert_eq!(names(&log::init_command_tree()), vec!["tps", "mobcaps", "stop"]);
    assert_eq!(names(&spawn::init_command_tree()), vec!["mobcaps", "tracking"]);
    assert_eq!(names(&draw::init_command_tree()), vec!["sphere", "ball"]);
}

#[test]
fn fill_tree_offers_every_mode() {
    let tree = fill::init_command_tree();
    let block = &tree.children[0].children[0].children[0];
    assert_eq!(block.name, "block");
    let modes: Vec<&str> = block.children.iter().map(|node| node.name).collect();
    assert_eq!(modes, vec!["destroy", "hollow", "keep", "outline", "replace", "strict"]);
    let filter = &block.children[4].children[0];
    assert_eq!(filter.kind, NodeKind::Argument(ArgumentType::BlockPredicate));
    assert_eq!(filter.children.len(), 5);
}

#[test]
fn forceload_tree_has_add_remove_and_query() {
    let tree = forceload::register();
    assert_eq!(tree.names, vec!["forceload"]);
    assert_eq!(tree.executor, None);
    assert_eq!(names(&tree), vec!["add", "remove", "query"]);
    let add_from = &tree.children[0].children[0];
    assert_eq!(add_from.kind, NodeKind::Argument(ArgumentType::ColumnPos));
    assert_eq!(add_from.executor, Some(Executor::ForceloadAdd));
    assert_eq!(add_from.children[0].name, "to");
    let remove = &tree.children[1];
    assert_eq!(remove.children[0].name, "all");
    assert_eq!(remove.children[0].executor, Some(Executor::ForceloadRemoveAll));
    assert_eq!(remove.children[1].children[0].executor, Some(Executor::ForceloadRemove));
    let query = &tree.children[2];
    assert_eq!(query.executor, Some(Executor::ForceloadQuery));
    assert_eq!(query.children[0].name, "pos");
}

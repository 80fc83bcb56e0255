//! `/player`: the answers of the fake-player command.

use vstd::prelude::*;
use crate::carpet::fake_player::{FakePlayer, FakePlayers, is_attacking, no_such_fake, set_attacking};
use crate::text::{decimal, u64_to_text};

use crate::command::tree::{ArgumentType, CommandTree, Executor, NodeKind, argument, child, is_node, literal};

verus! {

/// `names` joined by `", "`.
pub open spec fn joined(names: Seq<Seq<char>>) -> Seq<char>
    decreases names.len(),
{
    if names.len() == 0 {
        Seq::empty()
    } else if names.len() == 1 {
        names[0]
    } else {
        joined(names.drop_last()) + ", "@ + names.last()
    }
}

/// What `/player list` answers for the listed names.
pub open spec fn list_text(names: Seq<Seq<char>>) -> Seq<char> {
    if names.len() == 0 {
        "No fake players are online."@
    } else {
        "Fake players ("@ + decimal(names.len()) + "): "@ + joined(names)
    }
}

pub fn list_message(names: &Vec<String>) -> (s: String)
    ensures
        s@ == list_text(names@.map_values(|n: String| n@)),
{
    let ghost view = names@.map_values(|n: String| n@);
    if names.len() == 0 {
        return String::from_str("No fake players are online.");
    }
    let mut s = String::from_str("Fake players (");
    s.append(u64_to_text(names.len() as u64).as_str());
    s.append("): ");
    let ghost head = s@;
    let mut i: usize = 0;
    assert(view.take(0) =~= Seq::<Seq<char>>::empty());
    while i < names.len()
        invariant
            view == names@.map_values(|n: String| n@),
            i <= names@.len(),
            s@ == head + joined(view.take(i as int)),
        decreases names@.len() - i,
    {
        let ghost prev = view.take(i as int);
        if i > 0 {
            s.append(", ");
        }
        s.append(names[i].as_str());
        i = i + 1;
        proof {
            let next = view.take(i as int);
            assert(next.drop_last() =~= prev);
            assert(next.last() == names@[i - 1]@);
            if i == 1 {
                assert(s@ =~= head + joined(next));
            } else {
                assert(s@ =~= head + (joined(prev) + ", "@ + next.last()));
            }
        }
    }
    assert(view.take(names@.len() as int) =~= view);
    s
}

/// What `/player <name> attack` answers.
pub open spec fn attack_text(name: Seq<char>, now_attacking: bool) -> Seq<char> {
    (if now_attacking { "Started"@ } else { "Stopped"@ }) + " attacking for "@ + name
}

/// `/player <name> attack`: flips the fake's attack action and answers, or
/// answers that no fake has that name.
pub fn toggle_attack(fakes: &mut FakePlayers, name: &str) -> (r: Result<String, String>)
    requires
        old(fakes).wf(),
    ensures
        final(fakes).wf(),
        r is Ok <==> old(fakes)@.contains_key(name@),
        r matches Ok(m) ==> {
            let now = !old(fakes)@[name@].attacking;
            &&& final(fakes)@ == old(fakes)@.insert(
                name@,
                FakePlayer { attacking: now, attack_cooldown: 0, ..old(fakes)@[name@] },
            )
            &&& m@ == attack_text(name@, now)
        },
        r matches Err(m) ==> final(fakes)@ == old(fakes)@ && m@ == no_such_fake(name@),
{
    let now_attacking = !is_attacking(fakes, name);
    match set_attacking(fakes, name, now_attacking) {
        Ok(()) => {
            let mut m = String::from_str(if now_attacking { "Started" } else { "Stopped" });
            m.append(" attacking for ");
            m.append(name);
            Ok(m)
        },
        Err(e) => Err(e),
    }
}


/// A `/player` action that went through.
#[derive(Clone, Copy, PartialEq, Eq, Debug, Structural)]
pub enum PlayerAction {
    Spawned,
    Removed,
    /// Sneaking was toggled; `sneaking` is the new state.
    Sneak { sneaking: bool },
    Jumped,
    Dropped,
    Dismounted,
    Stopped,
}

/// What `/player` answers after `action` on the fake named `name`.
pub open spec fn action_text(action: PlayerAction, name: Seq<char>) -> Seq<char> {
    match action {
        PlayerAction::Spawned => "Spawned fake player "@ + name,
        PlayerAction::Removed => "Removed fake player "@ + name,
        PlayerAction::Sneak { sneaking } => if sneaking {
            name + " is sneaking"@
        } else {
            name + " is no longer sneaking"@
        },
        PlayerAction::Jumped => name + " jumped"@,
        PlayerAction::Dropped => name + " dropped an item"@,
        PlayerAction::Dismounted => name + " dismounted"@,
        PlayerAction::Stopped => "Stopped actions of "@ + name,
    }
}

pub fn action_message(action: PlayerAction, name: &str) -> (s: String)
    ensures
        s@ == action_text(action, name@),
{
    match action {
        PlayerAction::Spawned => String::from_str("Spawned fake player ").concat(name),
        PlayerAction::Removed => String::from_str("Removed fake player ").concat(name),
        PlayerAction::Sneak { sneaking } => if sneaking {
            String::from_str(name).concat(" is sneaking")
        } else {
            String::from_str(name).concat(" is no longer sneaking")
        },
        PlayerAction::Jumped => String::from_str(name).concat(" jumped"),
        PlayerAction::Dropped => String::from_str(name).concat(" dropped an item"),
        PlayerAction::Dismounted => String::from_str(name).concat(" dismounted"),
        PlayerAction::Stopped => String::from_str("Stopped actions of ").concat(name),
    }
}

/// What `/player <name> mount` answers when the fake got on `vehicle`.
pub open spec fn mounted_text(name: Seq<char>, vehicle: Seq<char>) -> Seq<char> {
    name + " mounted "@ + vehicle
}

pub fn mounted_message(name: &str, vehicle: &str) -> (s: String)
    ensures
        s@ == mounted_text(name@, vehicle@),
{
    String::from_str(name).concat(" mounted ").concat(vehicle)
}

/// Why a `/player` action was refused.
#[derive(Clone, Copy, PartialEq, Eq, Debug, Structural)]
pub enum PlayerRefusal {
    /// No online fake has the name.
    UnknownFake,
    /// The command does not come from a world.
    NoWorld,
    /// The fake is not on the ground, so it cannot jump.
    Airborne,
    /// Nothing to ride is near the fake.
    NoVehicle,
    /// The fake rides nothing, so it cannot dismount.
    NotRiding,
}

/// The error text of `refusal` for the fake named `name`.
pub open spec fn refusal_text(refusal: PlayerRefusal, name: Seq<char>) -> Seq<char> {
    match refusal {
        PlayerRefusal::UnknownFake => "No fake player named "@ + name,
        PlayerRefusal::NoWorld => "Fake players must be spawned by an in-game player."@,
        PlayerRefusal::Airborne => "Fake player "@ + name + " cannot jump while airborne"@,
        PlayerRefusal::NoVehicle => "no mountable entity near "@ + name,
        PlayerRefusal::NotRiding => name + " is not riding anything"@,
    }
}

pub fn refusal_message(refusal: PlayerRefusal, name: &str) -> (s: String)
    ensures
        s@ == refusal_text(refusal, name@),
{
    match refusal {
        PlayerRefusal::UnknownFake => String::from_str("No fake player named ").concat(name),
        PlayerRefusal::NoWorld => String::from_str("Fake players must be spawned by an in-game player."),
        PlayerRefusal::Airborne => String::from_str("Fake player ").concat(name).concat(
            " cannot jump while airborne",
        ),
        PlayerRefusal::NoVehicle => String::from_str("no mountable entity near ").concat(name),
        PlayerRefusal::NotRiding => String::from_str(name).concat(" is not riding anything"),
    }
}

/// The error text for an argument `arg` whose value does not parse.
pub open spec fn invalid_value_text(arg: Seq<char>) -> Seq<char> {
    "Invalid value for "@ + arg
}

pub fn invalid_value(arg: &str) -> (s: String)
    ensures
        s@ == invalid_value_text(arg@),
{
    String::from_str("Invalid value for ").concat(arg)
}

pub const NAMES: [&'static str; 1] = ["player"];

pub const DESCRIPTION: &'static str = "Manages carpet-style fake players.";

/// `/player list` and `/player <name> <action>`.
pub fn init_command_tree() -> (t: CommandTree)
    ensures
        t.names@ == NAMES@,
        t.description == DESCRIPTION,
        t.executor is None,
        t.children@.len() == 2,
        is_node(t.children@[0], "list"@, NodeKind::Literal, Some(Executor::PlayerList), 0),
        ({
            let n = t.children@[1];
            &&& is_node(n, "name"@, NodeKind::Argument(ArgumentType::Simple), None, 10)
            &&& is_node(child(n, 0), "spawn"@, NodeKind::Literal, Some(Executor::PlayerSpawn), 0)
            &&& is_node(child(n, 1), "kill"@, NodeKind::Literal, Some(Executor::PlayerKill), 0)
            &&& is_node(child(n, 2), "attack"@, NodeKind::Literal, Some(Executor::PlayerAttack), 0)
            &&& is_node(child(n, 3), "sneak"@, NodeKind::Literal, Some(Executor::PlayerSneak), 0)
            &&& is_node(child(n, 4), "jump"@, NodeKind::Literal, Some(Executor::PlayerJump), 0)
            &&& is_node(child(n, 5), "drop"@, NodeKind::Literal, Some(Executor::PlayerDrop), 0)
            &&& is_node(child(n, 6), "mount"@, NodeKind::Literal, Some(Executor::PlayerMount), 0)
            &&& is_node(child(n, 7), "dismount"@, NodeKind::Literal, Some(Executor::PlayerDismount), 0)
            &&& is_node(child(n, 8), "stop"@, NodeKind::Literal, Some(Executor::PlayerStop), 0)
            &&& is_node(child(n, 9), "look"@, NodeKind::Literal, None, 1)
            &&& is_node(child(child(n, 9), 0), "yaw"@, NodeKind::Argument(ArgumentType::Simple), None, 1)
            &&& is_node(
                child(child(child(n, 9), 0), 0),
                "pitch"@,
                NodeKind::Argument(ArgumentType::Simple),
                Some(Executor::PlayerLook),
                0,
            )
        }),
{
    let look = literal("look").followed_by(
        argument("yaw", ArgumentType::Simple).followed_by(
            argument("pitch", ArgumentType::Simple).execute(Executor::PlayerLook),
        ),
    );
    let name = argument("name", ArgumentType::Simple).followed_by(
        literal("spawn").execute(Executor::PlayerSpawn),
    ).followed_by(literal("kill").execute(Executor::PlayerKill)).followed_by(
        literal("attack").execute(Executor::PlayerAttack),
    ).followed_by(literal("sneak").execute(Executor::PlayerSneak)).followed_by(
        literal("jump").execute(Executor::PlayerJump),
    ).followed_by(literal("drop").execute(Executor::PlayerDrop)).followed_by(
        literal("mount").execute(Executor::PlayerMount),
    ).followed_by(literal("dismount").execute(Executor::PlayerDismount)).followed_by(
        literal("stop").execute(Executor::PlayerStop),
    ).followed_by(look);
    CommandTree::new(&NAMES, DESCRIPTION).followed_by(literal("list").execute(Executor::PlayerList)).followed_by(
        name,
    )
}

} // verus!

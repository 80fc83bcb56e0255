//! Carpet-style fake players (`/player`): the registry of online fakes by name
//! and their repeating attack action.

use vstd::prelude::*;
use crate::keyed::{find_key, keyed_map, keyed_view, keys_distinct, lemma_keyed_lookup, lemma_keyed_push, lemma_keyed_remove, lemma_keyed_update};
use crate::ranking::{rank_tallies, ranked, tally_view};
use crate::text::{eq_ignore_ascii_case, seq_lt, str_eq_ignore_ascii_case};
use vstd::utf8::encode_utf8;

verus! {

/// Ticks between fake-player attacks (about the vanilla sword cooldown).
pub const ATTACK_INTERVAL: u32 = 12;

/// A fake player: the UUID of its player entity, the world it is in, and its
/// repeating-action state.
#[derive(Clone, Copy, PartialEq, Eq, Debug, Structural)]
pub struct FakePlayer {
    pub player: u128,
    pub world: u64,
    /// Continuous attack toggle (`/player <name> attack`).
    pub attacking: bool,
    pub attack_cooldown: u32,
}

/// A character allowed in a player name: ASCII letter or digit, or `_`.
pub open spec fn is_name_char(c: char) -> bool {
    ('a' <= c && c <= 'z') || ('A' <= c && c <= 'Z') || ('0' <= c && c <= '9') || c == '_'
}

/// A legal Minecraft player name: 3 to 16 characters, each a letter, digit or
/// underscore.
pub open spec fn is_valid_name(name: Seq<char>) -> bool {
    3 <= name.len() <= 16 && forall|i: int| 0 <= i < name.len() ==> is_name_char(#[trigger] name[i])
}

/// Whether `name` is a legal Minecraft player name.
pub fn valid_name(name: &str) -> (r: bool)
    ensures
        r == is_valid_name(name@),
{
    let n = name.unicode_len();
    if n < 3 || n > 16 {
        return false;
    }
    let mut i: usize = 0;
    while i < n
        invariant
            n == name@.len(),
            i <= n,
            forall|j: int| 0 <= j < i ==> is_name_char(#[trigger] name@[j]),
        decreases n - i,
    {
        let c = name.get_char(i);
        if !(('a' <= c && c <= 'z') || ('A' <= c && c <= 'Z') || ('0' <= c && c <= '9') || c == '_') {
            return false;
        }
        i = i + 1;
    }
    true
}

/// The name-based UUID (version 3, nil namespace) of the given bytes.
pub uninterp spec fn uuid_v3_nil(bytes: Seq<u8>) -> u128;

/// Calls `uuid::Uuid::new_v3` with the nil namespace on `bytes`. The contract
/// names the result (an MD5 digest of the bytes, which this crate does not
/// restate) and states the version and variant bits that `Builder::from_md5_bytes`
/// sets: version 3 in bits 76..80 and the RFC 4122 variant `0b10` in bits 62..64.
#[verifier::external_body]
fn name_uuid_v3(bytes: &[u8]) -> (r: u128)
    ensures
        r == uuid_v3_nil(bytes@),
        (r / 0x1_0000_0000_0000_0000_000u128) % 16 == 3,
        (r / 0x4000_0000_0000_0000u128) % 4 == 2,
{
    uuid::Uuid::new_v3(&uuid::Uuid::nil(), bytes).as_u128()
}

/// The vanilla offline-mode UUID of a player name: the version-3 UUID of
/// `OfflinePlayer:<name>` in the nil namespace.
pub fn offline_uuid(name: &str) -> (r: u128)
    ensures
        r == uuid_v3_nil(encode_utf8("OfflinePlayer:"@ + name@)),
{
    let text = String::from_str("OfflinePlayer:").concat(name);
    name_uuid_v3(text.as_str().as_bytes())
}

/// One tick of the repeating attack of a fake in `world`.
pub open spec fn tick_one(f: FakePlayer, world: u64) -> FakePlayer {
    if f.world == world && f.attacking {
        if f.attack_cooldown > 0 {
            FakePlayer { attack_cooldown: (f.attack_cooldown - 1) as u32, ..f }
        } else {
            FakePlayer { attack_cooldown: ATTACK_INTERVAL, ..f }
        }
    } else {
        f
    }
}

/// The fake attacks on this tick of `world`.
pub open spec fn attacks_now(f: FakePlayer, world: u64) -> bool {
    f.world == world && f.attacking && f.attack_cooldown == 0
}

/// Online fake players by name.
pub struct FakePlayers {
    entries: Vec<(String, FakePlayer)>,
}

impl View for FakePlayers {
    type V = Map<Seq<char>, FakePlayer>;

    closed spec fn view(&self) -> Map<Seq<char>, FakePlayer> {
        keyed_map(keyed_view(self.entries@))
    }
}

impl FakePlayers {
    pub closed spec fn wf(self) -> bool {
        keys_distinct(keyed_view(self.entries@))
    }

    /// No fake players.
    pub fn new() -> (f: Self)
        ensures
            f.wf(),
            f@ == Map::<Seq<char>, FakePlayer>::empty(),
    {
        let f = FakePlayers { entries: Vec::new() };
        assert(keyed_view(f.entries@) =~= Seq::<(Seq<char>, FakePlayer)>::empty());
        f
    }
}

/// The player UUID of the online fake player named `name`.
pub fn get(fakes: &FakePlayers, name: &str) -> (r: Option<u128>)
    requires
        fakes.wf(),
    ensures
        r == if fakes@.contains_key(name@) { Some(fakes@[name@].player) } else { None },
{
    proof {
        lemma_keyed_lookup(keyed_view(fakes.entries@));
    }
    match find_key(&fakes.entries, name) {
        Some(i) => {
            assert(keyed_view(fakes.entries@)[i as int].0 == name@);
            Some(fakes.entries[i].1.player)
        },
        None => None,
    }
}

/// Whether a fake player is continuously attacking; `false` for an unknown name.
pub fn is_attacking(fakes: &FakePlayers, name: &str) -> (r: bool)
    requires
        fakes.wf(),
    ensures
        r == (fakes@.contains_key(name@) && fakes@[name@].attacking),
{
    proof {
        lemma_keyed_lookup(keyed_view(fakes.entries@));
    }
    match find_key(&fakes.entries, name) {
        Some(i) => {
            assert(keyed_view(fakes.entries@)[i as int].0 == name@);
            fakes.entries[i].1.attacking
        },
        None => false,
    }
}

/// The message for a name that no fake player has.
pub open spec fn no_such_fake(name: Seq<char>) -> Seq<char> {
    "no fake player named "@ + name
}

/// The registry after spawning `name` as `player` in `world`: a new fake,
/// not attacking; a name already taken changes nothing.
pub open spec fn spawned(m: Map<Seq<char>, FakePlayer>, name: Seq<char>, player: u128, world: u64) -> Map<
    Seq<char>,
    FakePlayer,
> {
    if m.contains_key(name) {
        m
    } else {
        m.insert(name, FakePlayer { player, world, attacking: false, attack_cooldown: 0 })
    }
}

/// The registry after setting the attack action of `name` to `on`, with its
/// cooldown restarted; an unknown name changes nothing.
pub open spec fn attack_set(m: Map<Seq<char>, FakePlayer>, name: Seq<char>, on: bool) -> Map<
    Seq<char>,
    FakePlayer,
> {
    if m.contains_key(name) {
        m.insert(name, FakePlayer { attacking: on, attack_cooldown: 0, ..m[name] })
    } else {
        m
    }
}

/// The registry after a tick of `world`.
pub open spec fn ticked(m: Map<Seq<char>, FakePlayer>, world: u64) -> Map<Seq<char>, FakePlayer> {
    m.map_values(|f: FakePlayer| tick_one(f, world))
}

/// One operation on the fake-player registry.
pub enum FakeOp {
    /// `insert` after a spawn.
    Spawn { name: String, player: u128, world: u64 },
    /// `set_attacking`.
    SetAttacking { name: String, on: bool },
    /// `stop_actions`.
    Stop { name: String },
    /// `tick_fakes`.
    Tick { world: u64 },
    /// `kill`.
    Kill { name: String },
}

/// The registry after `op`, as the contract of the function that performs it
/// states.
pub open spec fn fake_step(m: Map<Seq<char>, FakePlayer>, op: FakeOp) -> Map<Seq<char>, FakePlayer> {
    match op {
        FakeOp::Spawn { name, player, world } => spawned(m, name@, player, world),
        FakeOp::SetAttacking { name, on } => attack_set(m, name@, on),
        FakeOp::Stop { name } => attack_set(m, name@, false),
        FakeOp::Tick { world } => ticked(m, world),
        FakeOp::Kill { name } => m.remove(name@),
    }
}

/// The registry after the operations `ops`, in order, starting from `m`.
pub open spec fn fake_run(m: Map<Seq<char>, FakePlayer>, ops: Seq<FakeOp>) -> Map<Seq<char>, FakePlayer>
    decreases ops.len(),
{
    if ops.len() == 0 {
        m
    } else {
        fake_step(fake_run(m, ops.drop_last()), ops.last())
    }
}

/// The attack setting of `name` after `ops`: the `on` of the last
/// `set_attacking` on it that went through (a `stop_actions` that went
/// through counts as off) since it was last spawned; `false` once it is
/// spawned or removed without such a setting after; with no such operation at
/// all, what `m` held.
pub open spec fn last_attack_setting(m: Map<Seq<char>, FakePlayer>, ops: Seq<FakeOp>, name: Seq<char>) -> bool
    decreases ops.len(),
{
    if ops.len() == 0 {
        m.contains_key(name) && m[name].attacking
    } else {
        let before = fake_run(m, ops.drop_last());
        let earlier = last_attack_setting(m, ops.drop_last(), name);
        match ops.last() {
            FakeOp::SetAttacking { name: n, on } => if n@ == name && before.contains_key(name) {
                on
            } else {
                earlier
            },
            FakeOp::Stop { name: n } => if n@ == name && before.contains_key(name) {
                false
            } else {
                earlier
            },
            FakeOp::Spawn { name: n, .. } => if n@ == name && !before.contains_key(name) {
                false
            } else {
                earlier
            },
            FakeOp::Kill { name: n } => if n@ == name {
                false
            } else {
                earlier
            },
            FakeOp::Tick { .. } => earlier,
        }
    }
}

/// Whatever operations ran, `is_attacking(name)` reads the last attack
/// setting of `name` that went through since it was spawned, and `false`
/// when it is not online or has had none.
pub proof fn lemma_attack_flag_history(m: Map<Seq<char>, FakePlayer>, ops: Seq<FakeOp>, name: Seq<char>)
    ensures
        (fake_run(m, ops).contains_key(name) && fake_run(m, ops)[name].attacking) == last_attack_setting(
            m,
            ops,
            name,
        ),
    decreases ops.len(),
{
    if ops.len() > 0 {
        lemma_attack_flag_history(m, ops.drop_last(), name);
        let before = fake_run(m, ops.drop_last());
        match ops.last() {
            FakeOp::Tick { world } => {
                if before.contains_key(name) {
                    assert(ticked(before, world)[name] == tick_one(before[name], world));
                }
            },
            _ => {},
        }
    }
}

/// Turns the continuous attack action of a fake player on or off and restarts
/// its cooldown.
pub fn set_attacking(fakes: &mut FakePlayers, name: &str, on: bool) -> (r: Result<(), String>)
    requires
        old(fakes).wf(),
    ensures
        final(fakes).wf(),
        r is Ok <==> old(fakes)@.contains_key(name@),
        r is Ok ==> final(fakes)@ == old(fakes)@.insert(
            name@,
            FakePlayer { attacking: on, attack_cooldown: 0, ..old(fakes)@[name@] },
        ),
        r matches Err(m) ==> final(fakes)@ == old(fakes)@ && m@ == no_such_fake(name@),
        final(fakes)@ == attack_set(old(fakes)@, name@, on),
{
    let ghost s = keyed_view(fakes.entries@);
    proof {
        lemma_keyed_lookup(s);
    }
    match find_key(&fakes.entries, name) {
        Some(i) => {
            let key = fakes.entries[i].0.clone();
            let f = fakes.entries[i].1;
            let updated = FakePlayer { attacking: on, attack_cooldown: 0, ..f };
            fakes.entries.set(i, (key, updated));
            proof {
                assert(s[i as int].0 == name@);
                lemma_keyed_update(s, i as int, updated);
                assert(keyed_view(fakes.entries@) =~= s.update(i as int, (s[i as int].0, updated)));
            }
            Ok(())
        },
        None => Err(String::from_str("no fake player named ").concat(name)),
    }
}

/// Clears all repeating actions of a fake player.
pub fn stop_actions(fakes: &mut FakePlayers, name: &str) -> (r: Result<(), String>)
    requires
        old(fakes).wf(),
    ensures
        final(fakes).wf(),
        r is Ok <==> old(fakes)@.contains_key(name@),
        r is Ok ==> final(fakes)@ == old(fakes)@.insert(
            name@,
            FakePlayer { attacking: false, attack_cooldown: 0, ..old(fakes)@[name@] },
        ),
        r matches Err(m) ==> final(fakes)@ == old(fakes)@ && m@ == no_such_fake(name@),
        final(fakes)@ == attack_set(old(fakes)@, name@, false),
{
    set_attacking(fakes, name, false)
}

/// Ticks every fake player in `world`: an attacking fake counts its cooldown
/// down, or, when it has run out, restarts it and attacks. Returns the player
/// UUIDs of the fakes that attack on this tick.
pub fn tick_fakes(fakes: &mut FakePlayers, world: u64) -> (attackers: Vec<u128>)
    requires
        old(fakes).wf(),
    ensures
        final(fakes).wf(),
        final(fakes)@ == old(fakes)@.map_values(|f: FakePlayer| tick_one(f, world)),
        final(fakes)@ == ticked(old(fakes)@, world),
        forall|p: u128| attackers@.contains(p) <==> exists|k: Seq<char>| #[trigger] old(fakes)@.contains_key(k)
            && attacks_now(old(fakes)@[k], world) && old(fakes)@[k].player == p,
        exists|names: Seq<Seq<char>>| {
            &&& names.no_duplicates()
            &&& forall|k: Seq<char>| #[trigger] names.contains(k) <==> old(fakes)@.contains_key(k)
                && attacks_now(old(fakes)@[k], world)
            &&& attackers@ == names.map_values(|k: Seq<char>| old(fakes)@[k].player)
        },
{
    let ghost s = keyed_view(fakes.entries@);
    let ghost mut idx: Seq<int> = Seq::empty();
    let mut attackers: Vec<u128> = Vec::new();
    let mut i: usize = 0;
    while i < fakes.entries.len()
        invariant
            keys_distinct(s),
            i <= fakes.entries@.len(),
            fakes.entries@.len() == s.len(),
            forall|j: int| 0 <= j < s.len() ==> (#[trigger] keyed_view(fakes.entries@)[j]).0 == s[j].0,
            forall|j: int| 0 <= j < i ==> (#[trigger] keyed_view(fakes.entries@)[j]).1 == tick_one(s[j].1, world),
            forall|j: int| i <= j < s.len() ==> (#[trigger] keyed_view(fakes.entries@)[j]).1 == s[j].1,
            attackers@.len() == idx.len(),
            forall|a: int| 0 <= a < idx.len() ==> 0 <= #[trigger] idx[a] < i && attacks_now(s[idx[a]].1, world)
                && attackers@[a] == s[idx[a]].1.player,
            forall|a: int, b: int| 0 <= a < b < idx.len() ==> #[trigger] idx[a] < #[trigger] idx[b],
            forall|j: int| 0 <= j < i && attacks_now(#[trigger] s[j].1, world) ==> idx.contains(j),
        decreases s.len() - i,
    {
        let ghost before = fakes.entries@;
        assert(keyed_view(before)[i as int] == (before[i as int].0@, before[i as int].1));
        let f = fakes.entries[i].1;
        if f.world == world && f.attacking {
            let key = fakes.entries[i].0.clone();
            let ghost prev_idx = idx;
            let next = if f.attack_cooldown > 0 {
                FakePlayer { attack_cooldown: f.attack_cooldown - 1, ..f }
            } else {
                attackers.push(f.player);
                proof {
                    idx = idx.push(i as int);
                }
                FakePlayer { attack_cooldown: ATTACK_INTERVAL, ..f }
            };
            fakes.entries.set(i, (key, next));
            proof {
                assert forall|j: int| 0 <= j < s.len() implies (#[trigger] keyed_view(fakes.entries@)[j]).0 == s[j].0 by {
                    if j != i {
                        assert(keyed_view(fakes.entries@)[j] == keyed_view(before)[j]);
                    }
                }
                assert forall|j: int| 0 <= j < i + 1 implies (#[trigger] keyed_view(fakes.entries@)[j]).1 == tick_one(s[j].1, world) by {
                    if j != i {
                        assert(keyed_view(fakes.entries@)[j] == keyed_view(before)[j]);
                    }
                }
                assert forall|j: int| i + 1 <= j < s.len() implies (#[trigger] keyed_view(fakes.entries@)[j]).1 == s[j].1 by {
                    assert(keyed_view(fakes.entries@)[j] == keyed_view(before)[j]);
                }
                assert forall|j: int| 0 <= j < i + 1 && attacks_now(#[trigger] s[j].1, world) implies idx.contains(j) by {
                    if j < i {
                        let a = choose|a: int| 0 <= a < prev_idx.len() && prev_idx[a] == j;
                        assert(idx[a] == j);
                    } else {
                        assert(idx[idx.len() - 1] == j);
                    }
                }
            }
        } else {
            proof {
                assert(tick_one(s[i as int].1, world) == s[i as int].1);
                assert(!attacks_now(s[i as int].1, world));
            }
        }
        i = i + 1;
    }
    proof {
        let n = keyed_view(fakes.entries@);
        let m = keyed_map(s).map_values(|f: FakePlayer| tick_one(f, world));
        assert(keys_distinct(n)) by {
            assert forall|a: int, b: int| 0 <= a < n.len() && 0 <= b < n.len() && a != b implies (#[trigger] n[a]).0 != (#[trigger] n[b]).0 by {
                assert(n[a].0 == s[a].0);
                assert(n[b].0 == s[b].0);
            }
        }
        lemma_keyed_lookup(s);
        lemma_keyed_lookup(n);
        assert forall|k: Seq<char>| #[trigger] keyed_map(n).dom().contains(k) <==> m.dom().contains(k) by {
            if keyed_map(n).contains_key(k) {
                let j = choose|j: int| 0 <= j < n.len() && (#[trigger] n[j]).0 == k;
                assert(keyed_map(s).contains_key(s[j].0));
            }
            if keyed_map(s).contains_key(k) {
                let j = choose|j: int| 0 <= j < s.len() && (#[trigger] s[j]).0 == k;
                assert(keyed_map(n).contains_key(n[j].0));
            }
        }
        assert forall|k: Seq<char>| #[trigger] keyed_map(n).dom().contains(k) implies keyed_map(n)[k] == m[k] by {
            let j = choose|j: int| 0 <= j < n.len() && (#[trigger] n[j]).0 == k;
            assert(keyed_map(s).contains_key(s[j].0));
            assert(keyed_map(s)[s[j].0] == s[j].1);
        }
        assert(keyed_map(n) =~= m);
        let om = keyed_map(s);
        let names = idx.map_values(|j: int| s[j].0);
        assert(names.no_duplicates()) by {
            assert forall|a: int, b: int| 0 <= a < names.len() && 0 <= b < names.len() && a != b implies names[a]
                != names[b] by {
                if a < b {
                    assert(idx[a] < idx[b]);
                } else {
                    assert(idx[b] < idx[a]);
                }
            }
        }
        assert forall|k: Seq<char>| #[trigger] names.contains(k) <==> om.contains_key(k) && attacks_now(om[k], world) by {
            if names.contains(k) {
                let a = choose|a: int| 0 <= a < names.len() && names[a] == k;
                assert(om.contains_key(s[idx[a]].0));
            }
            if om.contains_key(k) && attacks_now(om[k], world) {
                let j = choose|j: int| 0 <= j < s.len() && (#[trigger] s[j]).0 == k;
                assert(om[s[j].0] == s[j].1);
                assert(idx.contains(j));
                let a = choose|a: int| 0 <= a < idx.len() && idx[a] == j;
                assert(names[a] == k);
            }
        }
        assert forall|a: int| 0 <= a < attackers@.len() implies attackers@[a] == names.map_values(
            |k: Seq<char>| om[k].player,
        )[a] by {
            assert(0 <= idx[a] < s.len());
            assert(om.contains_key(s[idx[a]].0));
            assert(om[s[idx[a]].0] == s[idx[a]].1);
        }
        assert(attackers@ =~= names.map_values(|k: Seq<char>| om[k].player));
        assert forall|p: u128| attackers@.contains(p) <==> exists|k: Seq<char>| #[trigger] om.contains_key(k)
            && attacks_now(om[k], world) && om[k].player == p by {
            if attackers@.contains(p) {
                let a = choose|a: int| 0 <= a < attackers@.len() && attackers@[a] == p;
                assert(names.contains(names[a]));
            }
            if exists|k: Seq<char>| #[trigger] om.contains_key(k) && attacks_now(om[k], world) && om[k].player == p {
                let k = choose|k: Seq<char>| #[trigger] om.contains_key(k) && attacks_now(om[k], world)
                    && om[k].player == p;
                assert(names.contains(k));
                let a = choose|a: int| 0 <= a < names.len() && names[a] == k;
                assert(attackers@[a] == p);
            }
        }
    }
    attackers
}

/// Names of the online fake players, in ascending order.
pub fn list(fakes: &FakePlayers) -> (names: Vec<String>)
    requires
        fakes.wf(),
    ensures
        forall|i: int, j: int| 0 <= i < j < names@.len() ==> seq_lt(#[trigger] names@[i]@, #[trigger] names@[j]@),
        forall|k: Seq<char>| fakes@.contains_key(k) <==> exists|i: int| 0 <= i < names@.len() && (#[trigger] names@[i])@ == k,
{
    let ghost s = keyed_view(fakes.entries@);
    let mut tallies: Vec<(String, u64)> = Vec::new();
    let mut i: usize = 0;
    while i < fakes.entries.len()
        invariant
            s == keyed_view(fakes.entries@),
            keys_distinct(s),
            i <= s.len(),
            tallies@.len() == i,
            forall|j: int| 0 <= j < i ==> (#[trigger] tally_view(tallies@)[j]) == (s[j].0, 0u64),
        decreases s.len() - i,
    {
        let key = fakes.entries[i].0.clone();
        assert(s[i as int].0 == key@);
        let ghost prev = tallies@;
        tallies.push((key, 0));
        proof {
            assert forall|j: int| 0 <= j < i + 1 implies (#[trigger] tally_view(tallies@)[j]) == (s[j].0, 0u64) by {
                assert(tally_view(tallies@)[j] == (tallies@[j].0@, tallies@[j].1));
                if j < i {
                    assert(tallies@[j] == prev[j]);
                    assert(tally_view(prev)[j] == (prev[j].0@, prev[j].1));
                }
            }
        }
        i = i + 1;
    }
    let ghost t = tally_view(tallies@);
    assert(crate::ranking::names_distinct(t)) by {
        assert forall|a: int, b: int| 0 <= a < t.len() && 0 <= b < t.len() && a != b implies (#[trigger] t[a]).0 != (#[trigger] t[b]).0 by {
            assert(t[a].0 == s[a].0);
            assert(t[b].0 == s[b].0);
        }
    }
    let ranked_names = rank_tallies(tallies);
    let ghost r = tally_view(ranked_names@);
    let mut names: Vec<String> = Vec::new();
    let mut k: usize = 0;
    while k < ranked_names.len()
        invariant
            r == tally_view(ranked_names@),
            k <= r.len(),
            names@.len() == k,
            forall|j: int| 0 <= j < k ==> (#[trigger] names@[j])@ == r[j].0,
        decreases r.len() - k,
    {
        let n = ranked_names[k].0.clone();
        assert(r[k as int].0 == n@);
        names.push(n);
        k = k + 1;
    }
    proof {
        r.to_multiset_ensures();
        t.to_multiset_ensures();
        lemma_keyed_lookup(s);
        assert forall|a: int| 0 <= a < r.len() implies (#[trigger] r[a]).1 == 0 by {
            assert(r.contains(r[a]));
            assert(r.to_multiset().count(r[a]) > 0);
            assert(t.to_multiset().count(r[a]) > 0);
            assert(t.contains(r[a]));
            let b = choose|b: int| 0 <= b < t.len() && t[b] == r[a];
        }
        assert forall|i: int, j: int| 0 <= i < j < names@.len() implies seq_lt(#[trigger] names@[i]@, #[trigger] names@[j]@) by {
            assert(crate::ranking::ranks_before(r[i], r[j]));
            assert(r[i].1 == 0 && r[j].1 == 0);
        }
        assert forall|key: Seq<char>| fakes@.contains_key(key) <==> exists|i: int| 0 <= i < names@.len() && (#[trigger] names@[i])@ == key by {
            if fakes@.contains_key(key) {
                let j = choose|j: int| 0 <= j < s.len() && (#[trigger] s[j]).0 == key;
                assert(t[j] == (key, 0u64));
                assert(t.contains((key, 0u64)));
                assert(t.to_multiset().count((key, 0u64)) > 0);
                assert(r.to_multiset().count((key, 0u64)) > 0);
                assert(r.contains((key, 0u64)));
                let a = choose|a: int| 0 <= a < r.len() && r[a] == (key, 0u64);
                assert(names@[a]@ == key);
            }
            if exists|i: int| 0 <= i < names@.len() && (#[trigger] names@[i])@ == key {
                let a = choose|a: int| 0 <= a < names@.len() && (#[trigger] names@[a])@ == key;
                assert(r.contains(r[a]));
                assert(r.to_multiset().count(r[a]) > 0);
                assert(t.to_multiset().count(r[a]) > 0);
                assert(t.contains(r[a]));
                let b = choose|b: int| 0 <= b < t.len() && t[b] == r[a];
                assert(s[b].0 == key);
                assert(keyed_map(s).contains_key(s[b].0));
            }
        }
    }
    names
}

/// The message for each refused spawn: an illegal name, a name a fake already
/// has, or the name of a real online player (compared without case).
pub open spec fn spawn_refusal(fakes: Map<Seq<char>, FakePlayer>, name: Seq<char>, real_player_online: bool) -> Option<Seq<char>> {
    if !is_valid_name(name) {
        Some("invalid player name: "@ + name)
    } else if fakes.contains_key(name) {
        Some("fake player "@ + name + " already exists"@)
    } else if real_player_online {
        Some("a real player named "@ + name + " is online"@)
    } else {
        None
    }
}

/// Whether one of the online real players' names equals `name`, ignoring
/// ASCII case.
pub fn real_player_named(online: &Vec<String>, name: &str) -> (r: bool)
    ensures
        r == exists|i: int| 0 <= i < online@.len() && eq_ignore_ascii_case(#[trigger] online@[i]@, name@),
{
    let mut i: usize = 0;
    while i < online.len()
        invariant
            i <= online@.len(),
            forall|j: int| 0 <= j < i ==> !eq_ignore_ascii_case(#[trigger] online@[j]@, name@),
        decreases online@.len() - i,
    {
        if str_eq_ignore_ascii_case(online[i].as_str(), name) {
            return true;
        }
        i = i + 1;
    }
    false
}

/// Decides whether a fake player named `name` may be spawned;
/// `real_player_online` tells whether an online real player has that name.
pub fn check_spawn(fakes: &FakePlayers, name: &str, real_player_online: bool) -> (r: Result<(), String>)
    requires
        fakes.wf(),
    ensures
        r is Ok <==> spawn_refusal(fakes@, name@, real_player_online) is None,
        r matches Err(m) ==> Some(m@) == spawn_refusal(fakes@, name@, real_player_online),
{
    if !valid_name(name) {
        return Err(String::from_str("invalid player name: ").concat(name));
    }
    if find_key(&fakes.entries, name).is_some() {
        return Err(String::from_str("fake player ").concat(name).concat(" already exists"));
    }
    if real_player_online {
        return Err(String::from_str("a real player named ").concat(name).concat(" is online"));
    }
    Ok(())
}

/// Registers a freshly spawned fake player, not attacking.
pub fn insert(fakes: &mut FakePlayers, name: &str, player: u128, world: u64)
    requires
        old(fakes).wf(),
        !old(fakes)@.contains_key(name@),
    ensures
        final(fakes).wf(),
        final(fakes)@ == old(fakes)@.insert(
            name@,
            FakePlayer { player, world, attacking: false, attack_cooldown: 0 },
        ),
        final(fakes)@ == spawned(old(fakes)@, name@, player, world),
{
    let ghost s = keyed_view(fakes.entries@);
    let f = FakePlayer { player, world, attacking: false, attack_cooldown: 0 };
    fakes.entries.push((String::from_str(name), f));
    proof {
        lemma_keyed_push(s, name@, f);
        assert(keyed_view(fakes.entries@) =~= s.push((name@, f)));
    }
}

/// Removes a fake player by name, returning its player UUID.
pub fn kill(fakes: &mut FakePlayers, name: &str) -> (r: Result<u128, String>)
    requires
        old(fakes).wf(),
    ensures
        final(fakes).wf(),
        r is Ok <==> old(fakes)@.contains_key(name@),
        r matches Ok(p) ==> p == old(fakes)@[name@].player && final(fakes)@ == old(fakes)@.remove(name@),
        r matches Err(m) ==> final(fakes)@ == old(fakes)@ && m@ == no_such_fake(name@),
        final(fakes)@ == old(fakes)@.remove(name@),
{
    let ghost s = keyed_view(fakes.entries@);
    proof {
        lemma_keyed_lookup(s);
    }
    match find_key(&fakes.entries, name) {
        Some(i) => {
            let (_, f) = fakes.entries.remove(i);
            proof {
                assert(s[i as int].0 == name@);
                lemma_keyed_remove(s, i as int);
                assert(keyed_view(fakes.entries@) =~= s.remove(i as int));
            }
            Ok(f.player)
        },
        None => {
            assert(old(fakes)@.remove(name@) =~= old(fakes)@);
            Err(String::from_str("no fake player named ").concat(name))
        },
    }
}


/// Killing a fake player right after spawning it leaves the others as they
/// were.
pub proof fn lemma_spawn_then_kill(fakes: Map<Seq<char>, FakePlayer>, name: Seq<char>, f: FakePlayer)
    requires
        !fakes.contains_key(name),
    ensures
        fakes.insert(name, f).remove(name) == fakes,
{
    assert(fakes.insert(name, f).remove(name) =~= fakes);
}

} // verus!

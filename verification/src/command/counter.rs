//! `/counter`: reads or resets the wool hopper counters.

use vstd::prelude::*;
use crate::carpet::counters::{CHANNEL_NAMES, HopperCounters, channel_name, snapshot, tally_map, tally_sum};
use crate::geometry::{command_count, saturated_count};
use crate::ranking::{names_distinct, ranked, tally_view};
use crate::text::{decimal, u64_to_text};

use crate::command::tree::{CommandTree, Executor, NodeKind, child, is_node, literal};

verus! {

/// How many items a channel report lists before summarising the rest.
pub const MAX_ITEMS_SHOWN: usize = 10;

/// The sum of the counts, stopping at `u64::MAX`.
pub open spec fn saturating_total(s: Seq<(Seq<char>, u64)>) -> int {
    if tally_sum(s) > u64::MAX {
        u64::MAX as int
    } else {
        tally_sum(s)
    }
}

proof fn lemma_tally_sum_nonneg(s: Seq<(Seq<char>, u64)>)
    ensures
        tally_sum(s) >= 0,
    decreases s.len(),
{
    if s.len() > 0 {
        lemma_tally_sum_nonneg(s.drop_last());
    }
}

/// The total of a channel snapshot, saturating instead of overflowing.
pub fn item_total(items: &Vec<(String, u64)>) -> (t: u64)
    ensures
        t == saturating_total(tally_view(items@)),
{
    let ghost s = tally_view(items@);
    let mut sum: u64 = 0;
    let mut i: usize = 0;
    assert(s.take(0) =~= Seq::<(Seq<char>, u64)>::empty());
    while i < items.len()
        invariant
            s == tally_view(items@),
            i <= items@.len(),
            sum == saturating_total(s.take(i as int)),
        decreases items@.len() - i,
    {
        proof {
            assert(s.take(i + 1).drop_last() =~= s.take(i as int));
            assert(s[i as int].1 == items@[i as int].1);
            lemma_tally_sum_nonneg(s.take(i as int));
        }
        sum = sum.saturating_add(items[i].1);
        i = i + 1;
    }
    assert(s.take(items@.len() as int) =~= s);
    sum
}

/// The summary lines of the first `n` channels: `\n<channel>: <total> items`
/// for each channel whose total is not zero.
pub open spec fn summary_lines(snaps: Seq<Seq<(Seq<char>, u64)>>, n: int) -> Seq<char>
    decreases n,
{
    if n <= 0 {
        Seq::empty()
    } else {
        let t = saturating_total(snaps[n - 1]);
        summary_lines(snaps, n - 1) + if t > 0 {
            "\n"@ + channel_name(n - 1) + ": "@ + decimal(t as nat) + " items"@
        } else {
            Seq::empty()
        }
    }
}

/// A possible snapshot of every channel: ranked, with the channel's contents.
pub open spec fn snapshots_of(counters: HopperCounters, snaps: Seq<Seq<(Seq<char>, u64)>>) -> bool {
    &&& snaps.len() == 16
    &&& forall|c: int| 0 <= c < 16 ==> ranked(#[trigger] snaps[c]) && names_distinct(snaps[c])
        && tally_map(snaps[c]) == counters@[c]
}

/// `/counter` without arguments: the totals of every non-empty channel.
pub fn all_channels_summary(counters: &HopperCounters) -> (text: String)
    requires
        counters.wf(),
    ensures
        exists|snaps: Seq<Seq<(Seq<char>, u64)>>| snapshots_of(*counters, snaps) && text@
            == "Hopper counters:"@ + summary_lines(snaps, 16),
{
    let mut text = String::from_str("Hopper counters:");
    let ghost mut snaps: Seq<Seq<(Seq<char>, u64)>> = Seq::empty();
    let mut i: usize = 0;
    while i < 16
        invariant
            counters.wf(),
            i <= 16,
            snaps.len() == i,
            forall|c: int| 0 <= c < i ==> ranked(#[trigger] snaps[c]) && names_distinct(snaps[c])
                && tally_map(snaps[c]) == counters@[c],
            text@ == "Hopper counters:"@ + summary_lines(snaps, i as int),
        decreases 16 - i,
    {
        let items = snapshot(counters, i);
        let total = item_total(&items);
        let ghost prev = snaps;
        proof {
            snaps = snaps.push(tally_view(items@));
            assert(summary_lines(snaps, i as int) == summary_lines(prev, i as int)) by {
                lemma_summary_prefix(prev, snaps, i as int);
            }
        }
        if total > 0 {
            text.append("\n");
            text.append(CHANNEL_NAMES[i]);
            text.append(": ");
            let t = u64_to_text(total);
            text.append(t.as_str());
            text.append(" items");
        }
        i = i + 1;
    }
    assert(snapshots_of(*counters, snaps));
    text
}

proof fn lemma_summary_prefix(a: Seq<Seq<(Seq<char>, u64)>>, b: Seq<Seq<(Seq<char>, u64)>>, n: int)
    requires
        0 <= n <= a.len(),
        n <= b.len(),
        forall|c: int| 0 <= c < n ==> a[c] == b[c],
    ensures
        summary_lines(a, n) == summary_lines(b, n),
    decreases n,
{
    if n > 0 {
        lemma_summary_prefix(a, b, n - 1);
    }
}

/// The item lines of a channel report: `\n<item>: <count>` per listed item.
pub open spec fn item_lines(items: Seq<(Seq<char>, u64)>) -> Seq<char>
    decreases items.len(),
{
    if items.len() == 0 {
        Seq::empty()
    } else {
        item_lines(items.drop_last()) + "\n"@ + items.last().0 + ": "@ + decimal(items.last().1 as nat)
    }
}

/// The report of one channel whose ranked snapshot is `items`.
pub open spec fn channel_text(name: Seq<char>, items: Seq<(Seq<char>, u64)>) -> Seq<char> {
    name + ": "@ + decimal(saturating_total(items) as nat) + " items total"@ + item_lines(
        items.take(if items.len() < MAX_ITEMS_SHOWN { items.len() as int } else { MAX_ITEMS_SHOWN as int }),
    ) + if items.len() > MAX_ITEMS_SHOWN {
        "\n... and "@ + decimal((items.len() - MAX_ITEMS_SHOWN) as nat) + " more item types"@
    } else {
        Seq::empty()
    }
}

/// `/counter <channel>`: the channel's report and the command result, its
/// total saturated at `i32::MAX`.
pub fn channel_report(counters: &HopperCounters, channel: usize) -> (r: (String, i32))
    requires
        counters.wf(),
        channel < 16,
    ensures
        exists|items: Seq<(Seq<char>, u64)>| {
            &&& ranked(items)
            &&& names_distinct(items)
            &&& tally_map(items) == counters@[channel as int]
            &&& r.0@ == channel_text(channel_name(channel as int), items)
            &&& r.1 == saturated_count(saturating_total(items))
        },
{
    let items = snapshot(counters, channel);
    let total = item_total(&items);
    let ghost s = tally_view(items@);
    let mut text = String::from_str(CHANNEL_NAMES[channel]);
    text.append(": ");
    let t = u64_to_text(total);
    text.append(t.as_str());
    text.append(" items total");
    let ghost head = text@;
    let shown: usize = if items.len() < MAX_ITEMS_SHOWN { items.len() } else { MAX_ITEMS_SHOWN };
    let mut i: usize = 0;
    assert(s.take(0) =~= Seq::<(Seq<char>, u64)>::empty());
    while i < shown
        invariant
            s == tally_view(items@),
            shown <= items@.len(),
            i <= shown,
            text@ == head + item_lines(s.take(i as int)),
        decreases shown - i,
    {
        let ghost prev = s.take(i as int);
        assert(s[i as int] == (items@[i as int].0@, items@[i as int].1));
        text.append("\n");
        text.append(items[i].0.as_str());
        text.append(": ");
        let c = u64_to_text(items[i].1);
        text.append(c.as_str());
        i = i + 1;
        assert(s.take(i as int).drop_last() =~= prev);
    }
    if items.len() > MAX_ITEMS_SHOWN {
        text.append("\n... and ");
        let more = u64_to_text((items.len() - MAX_ITEMS_SHOWN) as u64);
        text.append(more.as_str());
        text.append(" more item types");
    }
    (text, command_count(total))
}

/// What `/counter reset` answers: the channel's name, or all channels.
pub open spec fn reset_text(channel: Option<usize>) -> Seq<char> {
    "Reset hopper counter for "@ + match channel {
        Some(c) => channel_name(c as int),
        None => "all channels"@,
    }
}

pub fn reset_message(channel: Option<usize>) -> (s: String)
    requires
        channel matches Some(c) ==> c < 16,
    ensures
        s@ == reset_text(channel),
{
    let mut s = String::from_str("Reset hopper counter for ");
    match channel {
        Some(c) => s.append(CHANNEL_NAMES[c]),
        None => s.append("all channels"),
    }
    s
}


pub const NAMES: [&'static str; 1] = ["counter"];

pub const DESCRIPTION: &'static str = "Reads or resets the wool hopper counters.";

/// `/counter`, `/counter reset`, and `/counter <channel> [reset]` for each
/// of the sixteen channels.
pub fn init_command_tree() -> (t: CommandTree)
    ensures
        t.names@ == NAMES@,
        t.description == DESCRIPTION,
        t.executor == Some(Executor::CounterAll),
        t.children@.len() == 17,
        is_node(t.children@[0], "reset"@, NodeKind::Literal, Some(Executor::CounterReset(None)), 0),
        forall|i: int|
            0 <= i < 16 ==> is_node(
                #[trigger] t.children@[i + 1],
                channel_name(i),
                NodeKind::Literal,
                Some(Executor::CounterChannel(i as usize)),
                1,
            ) && is_node(
                child(t.children@[i + 1], 0),
                "reset"@,
                NodeKind::Literal,
                Some(Executor::CounterReset(Some(i as usize))),
                0,
            ),
{
    let mut tree = CommandTree::new(&NAMES, DESCRIPTION).execute(Executor::CounterAll).followed_by(
        literal("reset").execute(Executor::CounterReset(None)),
    );
    let mut i: usize = 0;
    while i < 16
        invariant
            i <= 16,
            tree.names@ == NAMES@,
            tree.description == DESCRIPTION,
            tree.executor == Some(Executor::CounterAll),
            tree.children@.len() == i + 1,
            is_node(tree.children@[0], "reset"@, NodeKind::Literal, Some(Executor::CounterReset(None)), 0),
            forall|j: int|
                0 <= j < i ==> is_node(
                    #[trigger] tree.children@[j + 1],
                    channel_name(j),
                    NodeKind::Literal,
                    Some(Executor::CounterChannel(j as usize)),
                    1,
                ) && is_node(
                    child(tree.children@[j + 1], 0),
                    "reset"@,
                    NodeKind::Literal,
                    Some(Executor::CounterReset(Some(j as usize))),
                    0,
                ),
        decreases 16 - i,
    {
        let node = literal(CHANNEL_NAMES[i]).execute(Executor::CounterChannel(i)).followed_by(
            literal("reset").execute(Executor::CounterReset(Some(i))),
        );
        let ghost before = tree.children@;
        tree = tree.followed_by(node);
        assert forall|j: int| 0 <= j < i + 1 implies is_node(
            #[trigger] tree.children@[j + 1],
            channel_name(j),
            NodeKind::Literal,
            Some(Executor::CounterChannel(j as usize)),
            1,
        ) && is_node(
            child(tree.children@[j + 1], 0),
            "reset"@,
            NodeKind::Literal,
            Some(Executor::CounterReset(Some(j as usize))),
            0,
        ) by {
            if j < i {
                assert(tree.children@[j + 1] == before[j + 1]);
            }
        }
        i = i + 1;
    }
    tree
}

} // verus!

# verdantgolem

The rules and decisions of the VerdantGolem carpet features, block logic and
protocol fields, written in Verus and proved against their contracts.

- `src/` is the verified library:
  - `carpet/`: the rule registry and its saved entries, hopper counters,
    spawn tracking, `/log` subscriptions and fake players;
  - `command/`: what each command decides and answers (`/carpet`,
    `/counter`, `/draw`, `/fill`, `/forceload`, `/perimeterinfo`, `/player`,
    `/spawn`, `/log`, `/info`, `/distance`) and its command tree;
  - `block/`: rotation of block states, waterlogging, block ids and the
    placement and use decisions of a few blocks;
  - `protocol/`: VarInt and big-endian fields and the packets built on them;
  - `entity/`, `item.rs`, `event.rs`, `status_effect.rs`, `net.rs`: TNT
    merging, item rules, plugin events, status effect conversion and the
    debug sample subscription;
  - `text.rs`, `geometry.rs`, `ranking.rs`, `keyed.rs`, `float_bits.rs`:
    shared helpers (decimal text and parsing, chunk and region arithmetic,
    ranked tallies, keyed lists, `f64` comparison on bit patterns).
- `tests/` runs the library on concrete values.
- `app/` is the server glue: process-wide state, the JSON rule file,
  floating-point values and world access.

Laws that relate several operations stand as public proof functions named
`lemma_*` beside the functions they speak of.

# Rusty D20

The rules, campaign state machine and protocol model of the Rusty D20
reference game, written in Verus and proved against their contracts.

## Layout

- `src/identity.rs` — authored identities (`D20Id`).
- `src/component.rs`, `src/definitions.rs` — the d20 components and the
  compiled definitions the rules read.
- `src/session/` — the d20 session rules: roll tapes, attack arithmetic,
  activation budgets, reactions, scheduled effects and how a new effect
  lands, the requirements an action or reaction must meet
  (`requirements.rs`), character and participation seeds, and the checks a
  restored session passes (`restored.rs`).
- `src/game/` — the product around a session:
  - `exploration.rs`, `tactical.rs`, `routes.rs` — the dungeon, the
    tactical board, movement routes and forced movement;
  - `encounter.rs`, `entry.rs`, `opposition.rs`, `activation.rs` —
    initiative, encounter entry, the opposition's activation, and the
    party's commands;
  - `campaign.rs`, `catalog.rs`, `content.rs` — campaign phases, the
    adventure catalog and authored content;
  - `loadout.rs`, `equipment.rs`, `product.rs`, `restore.rs` — loadout
    moves and readouts, and the checks a restored save passes;
  - `legacy.rs` — the save schemas earlier releases wrote, their
    fingerprints, and how their campaigns migrate to the current one;
  - `projection.rs`, `receipt.rs`, `text.rs`, `support.rs` — protocol
    readouts, log text, and shared counters and limits;
  - `dto.rs`, `error.rs` — the protocol values and every refusal.
- `tests/` — tests of the library on concrete values.
- `app/` — what stands around the library: the serde and TypeScript forms
  of the protocol, the JSON save format, save files on disk, and the text
  of each refusal.

## What is not here

The game runtime that owns a live session, the Engine session itself, the
HTTP host and its router are not part of this crate. The library holds the
decisions they make (which command is admitted, what a save must satisfy,
what each readout shows) as functions on plain values; the code that
drives a session, reads requests and writes responses is left to the
program that embeds it.


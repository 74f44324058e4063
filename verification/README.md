# aether

A Verus library for a distributed training run: what the cluster's state is, what the training
server decides and shows, and how a volunteer's launcher behaves. Every function in `src/` carries a
contract that Verus proves, but for the wrappers of outside functions, whose contracts are relied on.

- `src/projection/` folds the events that nodes report into a picture of the cluster.
- `src/server/` holds the server's decisions: who is admitted, what is recorded and broadcast, and
  what its monitors on the web and over a remote shell show.
- `src/volunteer/` holds the launcher: its screens as a state machine, what each of them shows, the
  sandbox it works in, and the build that it follows.
- `src/data_provider.rs` gives tokenized sequences, `src/tui.rs` tabs in a terminal.
- `src/text.rs`, `src/parse.rs`, `src/keyed.rs`, `src/sets.rs` and `src/batch_map.rs` are what the
  others are built on.

Properties that span several functions are stated as proof functions whose names begin with `law_`.
Fractions are carried as the bits of IEEE numbers; arithmetic on them stays outside the library.

The library relies on a few outside functions that are not proved: `IndexMap` for insertion-ordered
maps, chrono for the clock and for dates, ratatui's `Layout` for splitting a window, and of the
standard library the printing of a `Duration` and `String::push`. What is relied on is written down
where each of them is called.

`tests/` runs the library on concrete values. `app/` is ordinary Rust around it: terminals, files,
processes, sockets and floating point.

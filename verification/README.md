# maplet

The logic of a terminal client for Maple AI, written in Verus: its rules are
executable functions with proved contracts.

- `src/` is the library. `src/app/` holds the reducer of the full-screen interface,
  `src/ui/` what each frame shows, `src/cli/` the line-oriented runner,
  `src/chat/` the reading of streamed replies, `src/agent/` the mapping of agent
  protocol messages, `src/driver.rs` the plain front ends. Each reducer is stated
  as a function on mathematical models; the files named `laws.rs` prove what holds
  of them as a whole.
- `tests/` runs the library on concrete values, with the real outside crates.
- `app/` is the program: arguments, files, the network, the terminal and the
  agent's process.

Calls into other crates stand behind small functions marked
`#[verifier::external_body]`, whose doc comments say what is taken on trust.

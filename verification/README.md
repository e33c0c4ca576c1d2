# crosslab_runtime

Verified decision logic of the Cross-Lab runtime and of its networking evaluation harness,
written in Verus.

- `src/` is the library. Every function there is verified against its `requires`/`ensures`
  contract, except three thin wrappers of std (`String::push`, `Duration::from_secs`,
  `Duration::from_millis`) whose contracts are trusted; the laws that span several calls stand as public proof functions
  (`pairing_laws.rs`, `exchange_laws.rs`, and a few in `node.rs`, `actor.rs`,
  `rendezvous.rs` and `record.rs`).
  - `pairing`, `pairing_laws`: the product pairing coordinators (inviter and joiner) as a state
    machine; the cryptographic work of each step is handed in as a closure.
  - `exchange`, `exchange_laws`: the network exchange that carries a pairing between devices.
  - `actor`, `node`, `status`, `stream`, `bridge`, `bootstrap`: decisions of the runtime actor
    and node (with the actor loop as a step function), the bounded stream registry, and the
    non-blocking connection surface, which stays closed once terminal.
  - `command`, `config`, `error`, `metrics`, `candidate`, `rendezvous`, `record`, `lines`,
    `text`, `time`, `bytes`: the evaluation harness's command line, limits, report,
    rendezvous file, bootstrap record framing and text helpers.
  - `netns`: the network-namespace script that runs the remote-path probe.
- `tests/` exercises the library on concrete values.
- `app/` is the `m9-networking` program: argument handling, the Quinn loopback measurements
  and printing the report.

# wlcontrol

The verified core of `d2b-wlcontrol`, a Waybar indicator and control centre for
d2b VMs, written in [Verus](https://github.com/verus-lang/verus).

- `src/` is the library. Every function states what it returns; the proof
  functions named `law_…` state what holds across functions: that only the public
  socket is used, that an unreachable daemon is shown as down and one that fails
  half way through a refresh as the last state marked stale, that a change is
  reported as done only when the daemon applied it, that guest commands are passed
  on argument by argument, that frames and records survive a round trip.
- `tests/` runs the library on concrete values.
- `app/` is the `d2b-wlcontrol` program around the library: command line, files,
  sockets, signals and processes.

Text becomes JSON documents through `serde_json`, and bytes become text through
`String::from_utf8`; what the library takes on trust from them stands in
`src/json.rs` and `src/process.rs`.

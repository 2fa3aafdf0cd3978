# boincrs

A keyboard-first terminal UI for a local BOINC client, speaking the BOINC
GUI RPC protocol. The library under `src/` is verified with Verus; the
program under `app/` wires it to the terminal, the network and the file
system.

## Layout

- `src/text.rs` — character-sequence helpers shared by the parsers
  (trimming, searching, integer parsing, decimal formatting).
- `src/error.rs` — the error type and its messages.
- `src/boinc/protocol.rs` — request framing and tolerant reply parsing
  (projects, tasks, transfers, client modes, the authentication replies,
  the nonce hash).
- `src/boinc/rpc_client.rs` — the RPC session as a state machine: the
  `auth1`/`auth2` handshake and the single retry after an unauthorized reply.
- `src/boinc/api/` — read requests and reply mapping; write/control requests.
- `src/boinc/templates.rs`, `profiles.rs`, `bootstrap.rs` — the project
  template registry, preset profiles and the start-up attach plan.
- `src/app/` — user actions, reconnect backoff, the view state machine and
  the diagnostics text.
- `src/ui/` — key bindings, pane texts and the colour theme.
- `app/` — `main`, the TCP transport, the event loop and the ratatui
  rendering; floating-point readings (progress, durations, speeds) live here.

## Checking

`tests/` exercises the library on concrete values; the contracts and the
laws (profile text round trip, de-duplication keeping the first entry,
backoff bounds and growth, selection moves, the session's authentication
properties, among others) are proved in `src/`.

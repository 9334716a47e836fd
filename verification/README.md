# reldex_ffi

The boundary between the Reldex desktop adapter and its database core, with its
behaviour stated in contracts and proved by Verus.

A caller opens sessions on a hub, submits work and drains events; it opens a
workspace, asks for settings, profiles, passwords, history and worksheets, and
drains replies. Every call checks its arguments, decides, and says what comes
back. All of that is in `src/`, as functions from plain values to plain values.

## Layout

| Where | What |
| --- | --- |
| `src/status.rs`, `src/error.rs`, `src/counters.rs`, `src/strings.rs` | what every call shares: the refusal of re-entrant calls, the last error, the live counts, strings and the `struct_size` rule |
| `src/batch.rs`, `src/slots.rs`, `src/format.rs`, `src/decimal.rs`, `src/text.rs` | fetched rows, and their rendering |
| `src/hub.rs`, `src/session.rs`, `src/control.rs`, `src/event.rs`, `src/translate.rs`, `src/idmap.rs`, `src/mock.rs` | sessions: requests, the events that answer them, and their end |
| `src/workspace.rs`, `src/service.rs`, `src/reply.rs`, `src/settings.rs`, `src/profile.rs`, `src/connect.rs`, `src/history.rs`, `src/worksheet.rs` | the workspace: requests, the calls a service makes to answer them, and the replies |
| `src/metadata.rs`, `src/splitter.rs` | catalog statements, and statement splitting |
| `tests/` | the same, on concrete values |
| `app/` | the C interface: pointers, threads, wakers, the session core, the driver and the store |

Laws that relate several functions stand next to them as public proof functions;
their doc comments say in words what they state.

A call that has to reach the core takes two steps. The first decides and says
what is to be done; `app/` does it; the second, whose name starts with `finish_`,
takes what came back. A workspace command is a chain of such steps, which
`service::begin_command` begins and `service::resume` carries on.

# Sentinel

Sentinel guards a Mac's DNS against ad domains: it runs a local resolver that answers
blocked names with "no such domain", points the network services at it, and keeps a
snapshot of their DNS servers so that the network can always be put back.

The decisions are a Verus library, each function with its contract:

- `src/blocking`: the blocklist file format and what the resolver does with a query.
- `src/control`: safety checks, snapshots, recovery, and the steps of enabling and
  disabling the protection.
- `src/storage`: the state, the event log and its activity summary, the blocked-domain
  catalog, the allow rules and the installation record.
- `src/cli`: the interactive session (menus, navigation, screens as text, terminal input).
- `src/policy`, `src/tui`: the rule engine and the full-screen session model.
- `src/text.rs`, `src/sorted.rs`: string and ordering facts the rest is proved with.

`app/` is the program around it: files, processes, `networksetup`, sockets, the terminal,
and the serde forms of the stored records. `tests/` runs the library on concrete values.

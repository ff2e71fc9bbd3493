# servercore

Verified core logic for managing Minecraft servers: core-key taxonomy, flavor profiles,
startup candidate scans, configuration discovery and `.properties` editing, launch planning,
process lifecycle decisions, and parsing of console logs and RCON replies.

## Layout

- `src/` — the library, written in Verus. Every function carries a contract over
  mathematical models (`Seq`, `Set`, spec functions), and the public proof functions state
  the laws that tie operations together (for example that reading a value back after
  setting it gives that value, or that writing a parsed `.properties` text and reading it
  again gives the same lines).
  - `text`, `paths`: character-sequence and path helpers shared by the parsers.
  - `taxonomy`, `flavor`: canonical core keys, core families, and capability profiles.
  - `startup_scan`: start targets, jar preference, folder and archive scan results.
  - `document`, `discovery`, `state`: configuration documents and discovery decisions.
  - `flow`, `process_tree`, `launch_plan`: launch commands, status, stop and kill order.
  - `server_info`, `metrics`, `probe`: log lines, RCON replies, the readers of the
    performance metric replies, and the steps of the RCON probes.
- `tests/` — tests of the library on concrete values.
- `app/` — plain Rust around the library: walking directories, unpacking archives, reading
  and writing files, spawning and signalling processes, and talking RCON. It holds no
  decision of its own; it only turns the metric texts that the library reads into `f32`
  values.

# nmts — network maintenance toolkit, verified core

A Windows network maintenance tool set (diagnosis and one-click fixes, quick
network settings, a serial console for switches and routers, topology design
with configuration synthesis, configuration backup) whose decisions are
written in Verus and proved against their contracts.

## Layout

- `src/` — the verified library:
  - `topology`, `graph`, `design_check`, `topo_cli` — the topology model, its
    loop check, the design pre-checks and the per-device CLI synthesis;
  - `net_diag`, `report`, `probe`, `adapter` — the diagnosis checks, their
    summary and Markdown report, the environment probe and adapter choice;
  - `quick`, `net_set`, `dns`, `netsh`, `powershell`, `command`, `backup` —
    the commands each setting issues, DNS ranking, output decoding, backups;
  - `serial`, `vendor_cli`, `device_ops`, `ws` — console prompts and baud
    search, vendor templates, deploying and archiving device configuration,
    and the WebSocket framing of the topology editor;
  - `keys`, `state`, `views`, `panel`, `widgets`, `cli`, `config`, `logs` —
    the key handling and screen state of the text interface, what each
    screen shows, settings and log retention;
  - `addr`, `text`, `seqs` — addresses, character sequences and general lemmas.
- `tests/` — tests that run the library with the outside crates linked.
- `app/` — the program around the library: terminal drawing (ratatui), the
  event loop (tokio), processes, files, serial ports, the editor's HTTP
  server, and the serde copies of the library's data types.

Calls into outside crates (`petgraph`, `regex`, `encoding_rs`, `sha1`,
`base64`, `chrono`) that the library's logic makes go through small trusted
wrappers whose contracts name or state what the call returns.

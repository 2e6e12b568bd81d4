# capptivo

The core of the Capptivo desktop recorder, written and verified in Verus.

- `src/command_line.rs`: `--action <name>` and `--action=<name>`, the channel that automation
  drives the recorder through.
- `src/hotkeys.rs`: the global hotkeys and the actions they dispatch.
- `src/automation.rs`: the status document that automation polls; `src/json.rs` and
  `src/clock.rs` hold its text and its timestamp.
- `src/publish.rs`: the order of the file operations that replace the status file, so that a
  reader never sees half a document.
- `src/lifecycle.rs`, `src/area_picker.rs`, `src/text.rs`: main-loop and window events, the area picker of
  builds without area capture, and string helpers.
- `app/`: the application around it (windows, plugins, files).

What is taken on trust: four functions that call `serde_json` and `chrono`, in `src/json.rs` and
`src/clock.rs`.

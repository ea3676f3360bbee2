# herdr-last-tab

Toggle between the current and the previously focused tab of a
[Herdr](https://herdr.dev) workspace, as `last-window` does in tmux. Tab history is
kept per workspace.

The logic is a [Verus](https://github.com/verus-lang/verus) library: each function
states what it does, and Verus proves it.

- `src/` is the library. `session` is the heart of it: a run of the plugin as a
  sequence of actions, each of which is told how it went. `laws` states what holds of
  whole runs: a toggle goes back to the tab that was left, workspaces do not
  disturb each other, the state is only touched while it is locked, and a state file
  is only replaced by a complete one, which is then read back. `concurrent` states what
  holds of runs at once: none loses what another remembered.
- `app/` runs Herdr's program, reads the environment and works on the files.
- `tests/` runs the library on concrete inputs.

What the proofs rest on without proving it are the contracts of the few functions
marked `external_body` in `json`, `text` and `clock`, which call `serde_json` and the
standard library.

## Use

Add `bertverbessem/herdr-last-tab` to `plugins.txt` and bind the action in
`config.toml`:

```toml
[[keys.command]]
key = "ctrl+comma"
type = "plugin_action"
command = "bertverbessem.last-tab.toggle"
description = "last tab"
```

The plugin subscribes to `tab.focused` and `tab.closed` events. Each time you switch
tabs it remembers the previous one, and the toggle action switches back to it.

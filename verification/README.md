# Advanced Show Control — verified core

`src/` is a Verus library. Its functions carry contracts that Verus proves,
except a handful of small trusted wrappers around std and `uuid` calls (marked
`#[verifier::external_body]`), whose contracts are assumed from those crates'
documentation. The public proof functions named `law_*` state the properties
that hold across calls (the generation fence, the session guard's authorization rule,
latency-probe ownership, fade-target bookkeeping, editor state pruning).

- `fade`, `fade_engine`: fade vocabulary and the engine's active-target
  bookkeeping with the events that recalls, ticks, overrides and aborts publish.
- `lifecycle`: the runtime generation fence, the connection transaction,
  shutdown invalidation and discovery refresh outcomes.
- `session_guard`, `show_session`: destructive-session preflight, guarded quit,
  session files and show-file commands.
- `connection`, `keyed`: the console chooser and its latency bookkeeping.
- `keyboard`, `settings`: shortcut matching, capture, conflicts, numeric settings.
- `cues`, `cue_manager`, `scenes`, `scene_editor`, `view_state`, `ui_event`:
  presentation rules of the cue-list and scene views.
- `text`, `ids`, `lookup`, `ordering_text`, `errors`: shared helpers.

`app/` is the unverified process around it: configuration paths, the persisted
cue-list format, floating-point duration text, logging and the Tokio runtime.
`tests/` exercises the library on concrete values.

# wrac_gain_plugin

Verified core of the WRAC gain plugin and of its build tooling, written in Verus.

- `src/ports.rs` — the plugin's main audio ports and the negotiation of their
  channel count with the host (only symmetric mono or stereo layouts).
- `src/parameters.rs` — parameter IDs and the number part of gain text typed in the host.
- `src/editor.rs` — editor page and project state stored in the DAW project.
- `src/gui.rs` — GUI window sizes and native resize-drag bookkeeping.
- `src/logging.rs`, `src/text.rs` — debug log file naming; character classes and trimming.
- `src/context.rs`, `src/paths.rs` — stable artifact paths of the build tooling.

`app/` holds what Verus does not take: floating-point gain handling, atomics and
locks, serde/JSON, and reading the environment.

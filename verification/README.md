# stock_forum_tui

The state and decision logic of the stock-forum terminal cockpit, written in Verus
and verified: every public function states its result in `ensures`, and the
properties that span several calls are proved as `law_*` proof functions.

## Layout

- `src/` — the verified library.
  - `text`, `editor` — the bounded, control-free command line with its history.
  - `screen`, `layout` — views, tabs, focus regions and the cockpit layout
    (splits computed by ratatui; where the solver draws boundaries is not stated).
  - `domain`, `error` — the values the application hands the cockpit.
  - `workspace`, `memory` — the agents, skills and memory workspaces.
  - `model` — the cockpit model: tabs and their saved state, geometry, audit list,
    commands in flight.
  - `event`, `controller` — what keys, pastes, resizes and command answers do.
  - `host` — what the host does for an effect, and what the answers or failures of
    the commands it runs do to the model.
  - `terminal` — acquiring and restoring terminal modes.
  - `theme` — colours and emphasis.
- `app/` — crossterm and ratatui plumbing: the real terminal, the event source, the
  error messages and style conversion.
- `tests/` — tests of the library, run with the outside crates linked.

# jikura

A terminal UI for local Docker and Podman containers and images, with its
logic written in Verus and proved against its contracts.

## Layout

- `src/` -- the verified library.
  - `domain/` -- containers, images, their IDs, states and the actions on them.
  - `engine/` -- the engine's vocabulary: errors and how failures are
    classified, the `/version` report, list entries and how they become
    domain values (`map`), and which engine call performs an action.
  - `app/` -- the application state and its pure `update`: cursors, the
    action menu, confirmations, actions in flight, toasts. `laws.rs` states
    what every update keeps.
  - `ui/` -- the key bindings and the text of every part of the screen.
  - `config.rs`, `enter.rs`, `cli.rs`, `text.rs` -- shell settings per
    container, the `docker exec` argument list, command-line settings and
    the string operations the rest is built on.
- `app/` -- the program around the library: argument parsing, reading the
  configuration file, talking to the engine through bollard, the tokio event
  loop, and drawing with ratatui.
- `tests/` -- tests of the library.

## Behaviour worth knowing

- Keys: `j`/`k` or the arrows move, `g`/`G` jump, tab or `h`/`l` switch
  panes, `x` or enter opens the action menu, `a` shows stopped containers,
  `r` refreshes, `?` shows help, `q` or ctrl-c quits. There is no search
  mode: the user actions (`app::Action`) have no search actions, so `/` is
  not bound.
- The configuration file is `--config FILE` when given, otherwise
  `$XDG_CONFIG_HOME/jikura/config.toml` (when that variable is an absolute
  path), otherwise `$HOME/.config/jikura/config.toml`. A missing default file
  means the defaults; a missing named file, an unreadable file or an invalid
  one is an error before the interface opens (`config::config_path`,
  `config::load_step`).

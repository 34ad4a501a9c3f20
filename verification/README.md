# omega_tools

Verified tooling for the Omega roguelike's parity work: the parsers, ledgers,
matrices, dashboards, gates and report writers of the command-line tools, and
the key handling and panel text of the terminal frontend.

- `src/` is the library, written in Verus. Every function states its result
  in a `requires`/`ensures` contract over spec functions and views; the
  properties that relate several operations are public proof functions
  (`src/laws.rs`, and `law_*` items beside the operations they concern).
- `tests/` exercises the library on concrete values.
- `app/` is the command-line front end: it reads the artifacts, calls the
  library, and writes the JSON and Markdown reports under `target/`.

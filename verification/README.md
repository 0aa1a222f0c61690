# devcheck

A command-line tool that runs a Rust project's quality checks (formatting,
lints, tests, build) in parallel and prints a summary report as terminal
text, JSON, HTML or Markdown.

## Layout

- `src/` is the verified library:
  - `config.rs` resolves the effective configuration from the command-line
    options (`cli.rs`) and the `.devcheck.toml` file;
  - `checker/` says which command each check runs and turns a command's exit
    status and output into a check result;
  - `runner/` plans the checks of a run (the enabled built-in checks, then
    the enabled custom checks of the configuration file) and gathers their
    results in name order;
  - `report/` summarizes the results, gives the exit code and renders the
    terminal, HTML and Markdown reports as styled pieces;
  - `watch.rs` holds the decisions of watch mode (which events call for a
    new run, and the one-second debounce);
  - `text.rs` holds the character-level helpers (lines, trimming, search,
    decimal numbers).
- `app/` is the program around it: option parsing, reading the configuration
  file, running the commands in parallel, printing with colors, JSON output
  and watching the file system.

Each check's command carries the run's time limit; a command that outlives
it is stopped and the run ends with a time-out error. The program exits with
0 when every check passed, 1 when one failed, and 2 when the checks could
not be run at all.

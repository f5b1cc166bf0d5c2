# devrs

A developer-environment tool: project blueprints, application containers, a core
development container, host setup, and a small static file server.

- `src/` is the library, written in Verus. Each command's decisions (argument parsing,
  reports, orderings, plans and the steps of multi-step commands) are functions with
  contracts over mathematical models, proved by Verus. Calls into `clap`, `chrono` and
  `pathdiff` stand behind trusted wrappers whose contracts say what those crates do.
- `app/` is the `devrs` program: it reads the command line, talks to the file system,
  external programs and the Docker engine (through `bollard` and the `docker` command),
  runs the HTTP server (`axum`, `tower-http`), and prints what the library reports.
- `tests/` exercises the library on concrete values.

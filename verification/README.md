# ezer_cli

The logic of `ezer`, the command-line tool for EzerDesk plugins, as a library
verified with Verus, and the command itself around it.

- `src/` — the verified library: project templates (`template`), example lookup
  (`examples`), server addresses (`server`), JSON and TOML reading (`json`,
  `manifest`), Base64 (`b64`), request bodies and reply handling for publishing
  and review (`publish`, `review`), the log stream (`logs`), byte sizes (`size`),
  build checks and the development server's decisions (`compile`), and string
  helpers (`text`).
- `app/` — the `ezer` binary: argument parsing, files, processes, HTTP,
  WebSocket and the local server, calling the library for every decision.
- `tests/` — tests of the library on concrete values.

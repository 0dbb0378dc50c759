# jsonl-peek command line

`src/` is the verified command-line layer of `jsonl-peek`, a tool for quick
health checks of JSONL datasets:

- `decimal` – unsigned decimal numerals (`-n`, `--seed`, `--top`, ...).
- `text` – text comparison, concatenation and placeholder substitution.
- `fail` – failures, their messages, exit statuses and diagnostics.
- `options` – the options each command takes and the helpers that read them.
- `scan` – reading a whole option list, left to right, with the first
  problem reported.
- `command` – choosing the command and building its request.
- `session` – input source, the `head` line budget, the sampler seed, and the
  `--help` / `--version` texts.
- `laws` – properties of the command line as a whole.

`app/main.rs` is the program: it reads the arguments, the input and the
clock, runs the line reader, sampler, statistics and schema inference of the
`jsonl_peek` library, parses `--field` paths and `--min-rate` values, and
writes the results.

# emqxctl

A command-line client for the EMQX v5 management REST API, with its logic verified by Verus.

- `src/` is the verified library: the command plans of every command group (`commands/`),
  the HTTP client's decisions (URLs, credentials, retries, answers, paging) in `client.rs`,
  connection profiles and context resolution in `config.rs`, JSON values and cell texts in
  `json.rs`, output decisions in `output.rs`, and properties that span operations in `laws.rs`.
- `app/` is the program around it: argument parsing, files, the network, printing.
- `tests/` runs the library on concrete values.

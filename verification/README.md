# feroxbuster (verified core)

`src/` is the verified library:

- `time_spec.rs`: validation of `--time-limit` values (a whole number followed
  by `s`, `m`, `h` or `d`), through the `regex` crate.
- `parser.rs`: the help-flag decision taken on the raw arguments, and the help
  text of `--user-agent`.
- `scanner/ferox_scanner.rs`: the scan of one url as a state machine, with the
  laws that every run of it keeps; the outcome of one request task; the
  decision after the interactive menu; the directory listing message.

`app/` holds the command line definition (clap) and the asynchronous driver
that performs the actions the scan machine asks for.

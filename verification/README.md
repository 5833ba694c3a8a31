# pulse

The logic of Pulse, a tray application that watches API services and LLM
account balances, as a library verified with Verus.

- `src/monitor/`: the health monitor. Service settings and their validation
  (`safety`), what a check sends and how its answer becomes a result
  (`check`), the state of results and history (`store`), what a batch of
  results changes and which alerts it raises (`process`), and when each
  service is due (`schedule`).
- `src/balance/`: the balance tracker. Provider configuration and its edits
  (`config`), the provider adapters and their endpoints (`providers`), how a
  balance or usage query is reported (`commands`), the key-store answers
  (`keychain`) and the notification texts (`notification`).
- `src/error.rs`, `src/http.rs`: the error type with its messages and tagged
  wire form; response-status handling and bearer headers.
- `src/desktop.rs`: the tray menu and window decisions.
- `src/keyed.rs`, `src/text.rs`: a string-keyed map and string utilities.
- `tests/`: tests of the library.
- `app/`: the unverified shell: files, HTTP requests, the OS key store, the
  monitor loop and the commands, with the serde forms of the library's types.

# grite

Verified core of the grite issue tracker's tools, written in Verus.

`src/` holds the logic of the command-line client, the daemon and the
benchmark, each function with a contract that Verus proves:

- `state` — the daemon supervisor's and workers' lifecycle state machines.
- `router`, `resolve`, `sync`, `locks` — which commands go through the
  daemon, how the execution mode and the actor are chosen, how the sync
  flags are read, and what lock checks report.
- `daemon` — the supervisor's and workers' decisions on requests.
- `doctor` — health checks, the legacy-store merge plan and the outcome.
- `setup`, `export`, `indexing`, `output` — `AGENTS.md` maintenance, export
  filters, choosing files for the context index, terminal rendering.
- `metrics`, `bench`, `ui` — benchmark counters, the event log, throughput
  history, simulated agents' retry policy and the dashboard's key handling.
- `codec`, `numparse`, `text`, `ipc`, `cli`, `error` — shared formats and types.

Calls into `hex`, `regex`, `glob`, `sha2`, `chrono`, `rand` and `comfy-table`
stand behind small trusted wrappers whose contracts say what those crates'
sources and documentation show. For `comfy-table`, the contracts say what a
table holds (its header and the cells of each row, with their colour and
boldness); the drawn text depends on the terminal and is not stated.

`app/` is the benchmark program around the library: argument parsing, agent
threads, the latency histogram and the terminal dashboard. It is the only
program here. The command-line client and the daemon read and write the
issue store, the git refs and the IPC socket through the project's core
crates (`libgrite_core`, `libgrite_git`, `libgrite_ipc`), which this
repository does not contain; their decisions are in `src/`, and the
plumbing that would run them is not included.
`tests/` exercises the library on concrete values.

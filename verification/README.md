# cssh

cssh wraps `ssh`: it starts an agent on the host, opens the SSH session with a
reverse tunnel to it, and lets the remote side run host commands with `cexec`.
Requests and responses travel as JSON in frames of
`[4 bytes: payload length, big-endian][payload]`.

## Layout

- `src/` is the library, verified with Verus:
  - `protocol` — the request and response types, and the framing
    (`encode_frame`, `decode_frame`, the 16 MiB limit) with its round-trip law;
  - `executor` — what the agent runs for a request (`execute`,
    `build_command`, `escape_cmd_arg`, `is_cmd_or_bat`) and how a finished
    process becomes a response;
  - `server` — token checking in constant time, the brute-force guard, and
    the answers to refused or failed requests, and what a connection does
    after each read (`connection_step`);
  - `args` — the `cssh` command-line parser;
  - `connection` — the parser of the agent port file read by `cexec`;
  - `deployment` — the steps that put `cexec` on the remote host;
  - `session` — the `ssh` command line of a session and the agent's port line;
  - `platform`, `remote_setup`, `command`, `text`, `error` — helpers.
- `app/` holds the programs: sockets, processes, files and JSON
  serialisation, driving the library.
- `tests/` exercises the library on concrete values.

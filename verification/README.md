# terax_ssh

Verified logic for running workspace operations on a remote host over SSH.

- `src/` is the library, checked by Verus:
  - `workspace.rs`: the workspace type and its accessors.
  - `text.rs`: Unicode whitespace and control characters, trimming, UTF-8
    length, path joining, decimal notation.
  - `validate.rs`: checks of host, user and root path, and the `ssh`
    destination of a workspace.
  - `shell.rs`: POSIX single-quote quoting (with a proof that the shell reads
    a quoted word back exactly), shell command lines, and the login bootstrap
    script.
  - `auth.rs`: connection-sharing and authentication options of `ssh`, and the
    askpass helper script.
  - `json.rs`: JSON text for strings (through `serde_json`), objects, arrays,
    booleans, counts and `null`, with a proof that a JSON reader takes a
    quoted string back exactly.
  - `ops.rs`: the remote operations and their JSON payloads.
  - `remote.rs`: the request and `ssh` command line for an operation, reading
    output within a byte limit (with a proof that exactly the first bytes are
    kept), the timeout, and the interpretation of the helper's reply.
- `app/` is the unverified side: files and directories on this machine, the
  `ssh` child process, threads, the JSON parsing of replies, the Python helper
  program sent to the remote host, and the Tauri command.
- `tests/` exercise the library on concrete values.

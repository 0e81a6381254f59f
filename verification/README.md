# aegis_application

The host side of Windows guest sessions.

- `src/` is the verified library (Verus):
  - `runtime/text.rs`, `runtime/paths.rs`: identifiers, SHA-256 digests, and the
    rule for safe relative paths, with proved facts about every accepted path
    string: it is not empty, neither starts nor ends with `/`, holds no `//`,
    no `.` or `..` part, and no `\` or `:`.
  - `runtime/digest.rs`: SHA-256 of file contents in lower-case hexadecimal.
    The digest comes from the `sha2` crate; the writing in lower-case hex is an
    assumption about the digest format the runtime configuration carries.
  - `runtime/file_set.rs`: an ordered set of file names (byte order, no
    duplicates) with the order's laws.
  - `runtime/windows_host.rs`: sessions, receipts, entrypoints, transfers,
    prepared sessions and the PowerShell command line.
  - `runtime/policy.rs`: the output protocol and its preset policies.
  - `runtime/output.rs`: weighing the guest's output against a policy, decoding
    captured output, and reporting a run.
  - `runtime/windows_runtime.rs`: a runtime configuration: its whole document,
    passed to the guest unchanged, and the parts of it the host checks.
  - `process.rs`: bounded capture of a child's output and the batch-file rule.
- `app/` is the I/O shell: file copies, JSON, hashing, the job object and the
  async process loop, asking the library for every decision.
- `tests/` runs the library on concrete values.

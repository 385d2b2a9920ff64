# evalbox

Policy compilation for a process sandbox, verified with Verus.

- `src/plan.rs` — the execution plan (command, mounts, limits, syscall overrides).
- `src/sys/linux/policy.rs` — plan to Landlock rules, seccomp whitelist and rlimits.
- `src/sys/windows/` — plan to Job Object limits, AppContainer and token
  restrictions; the (not yet available) executor, its events and errors;
  system detection decisions.
- `src/output.rs` — the output handed to callers and its success test.
- `src/fuzz_input.rs` — decoding of raw bytes into syscall numbers.
- `src/text.rs` — decimal rendering and path joining.
- `app/` — environment and filesystem probing, the process identifier, and
  the error types with `Display`.

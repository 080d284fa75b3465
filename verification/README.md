# sundbox

Runs a Move or Sui bytecode verifier on a module inside a re-executed copy of
the program, marked through the `SUNDBOX` environment variable and bounded in
time and memory.

- `src/` is the verified library: the decisions of `fork` (`sandbox`), the
  command line (`invocation`), the text printed of a child's output (`text`),
  and the error message that a raw `fork(2)` child sends over a pipe together
  with the check of a system-call result (`attempts`).
- `app/` is the program around it: reading the environment and standard
  input, spawning and waiting on the child, printing, and the calls into the
  Move and Sui verifiers.
- `tests/` exercises the library on concrete values.

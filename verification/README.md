# cpython_api_core

Decision logic for writing CPython extension modules in Rust, verified with
Verus.

The interpreter is never called from `src/`. Python objects are addresses. What
has to be asked of the interpreter is returned as a value (`SysQuery`), calls
without a reply are queued on the thread state (`SysCall`), and replies are
arguments of the functions that go on from there.

- `entry`, `threadstate`, `err`, `instance`: entries from C, of which only the
  outermost may detach, the thread-state token, pending exceptions, owned and
  borrowed references.
- `args`: binding of call arguments to parameters, with the laws of binding.
- `conversion`, `buffer`, `types`: values in and out of Python objects.
- `module`: slots, ABI declaration, method tables, typed module state and the
  glue of its lifecycle. The state block has explicit phases that only advance:
  exec runs once, the state is lent while it is ready, it is cleared once and
  dropped once.
- `macros`: expansion of the `pyfunction` and `pymethods` attributes, from
  source text to source text.
- `base64`: the `_base64` module.
- `class`, `build_helper`, `version`: instance layout, what build scripts print,
  and the order of library versions.

`app/` is the shell: the C declarations, handles that give their reference back
when dropped, trampolines, the helper that keeps panics out of C, and everything
that reads the environment.

# vut_wasm

The WebAssembly backend of the Vut compiler, as a library verified with Verus.

Given a lowered program (functions in MIR form, externs, callables, type
layouts and async frames), it plans a `wasm32-wasip1` module, lowers every
reachable function to wasm instructions, generates the runtime and standard
library helper bodies, and assembles the module's sections with
`wasm-encoder`.

## Layout

- `src/text.rs`: small string helpers with specifications.
- `src/compiler.rs`, `src/compiler/`: compiler configuration and errors.
- `src/wasm/`: the backend.
  - `program.rs`, `mir.rs`, `model.rs`: the program and instruction models.
  - `reach.rs`, `backend.rs`: reachability, target checks and the module plan.
  - `select.rs`, `casts.rs`, `lower.rs`: instruction selection and the
    lowering of function bodies.
  - `rt_index.rs`, `runtime.rs`, `strings.rs`, `str_ops.rs`, `bytes_ext.rs`,
    `listx.rs`, `mapx.rs`, `rc.rs`, `fmt.rs`, `asyncrt.rs`, `stdlib.rs`: the
    helper bodies, each stated as the exact code it emits.
  - `data.rs`, `imports.rs`, `metadata.rs`, `module.rs`: the module's
    contents; `encode.rs`, `assemble.rs`: encoding with `wasm-encoder`.
- `tests/`: tests run against the compiled library.
- `app/`: what stays outside the verified library: the math helper bodies,
  which compute coefficients in floating point, file permissions and paths.

Contracts speak of spec functions over `Seq`, `int` and views; the public
proof functions (`lemma_*`) state the laws that hold across functions.

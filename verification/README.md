# composer

A verified library that turns workflow descriptions into the Rust source of a
workflow package: the macro definitions, one input and one main struct per task,
the common input struct, and the main function that builds the tasks, links them
in the order of a flow and runs them.

Layout:

- `src/model.rs` — tasks, workflows and the composer; adding configuration files
  and workflows; the steps of a build.
- `src/codegen.rs` — the code generators and the specification of every text
  they produce.
- `src/text.rs` — text helpers (joining, decimal notation, the first `:`-separated
  piece) and the calls into the standard library whose results are named.
- `src/laws.rs` — properties that relate several calls or hold of every workflow.
- `app/` — running the build commands and reporting progress, and the driver of a
  packaging run (`generate_wasm`).

Not here: evaluating the starlark configuration files (the interpreter and the
project's starlark modules), laying out the boilerplate package (its template
files and the helpers that write its library and manifest), and computing the
order in which a workflow's tasks run. The driver takes the first two as
`PackagingSteps`; the code generators take the task order as an argument.

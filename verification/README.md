# ruda

The code-block parser of the Rusty Danda compiler, with the import bookkeeping
of its linker and the plain-value logic of its core and window libraries,
written in Verus and verified.

- `src/` is the verified library. `codeblock_parser::generate_tree` and
  `node_from_node` turn the generic syntax tree of a code block into
  statements; their contracts state the result exactly, through the spec
  functions of `codeblock_spec`, over the mathematical values of the trees
  (`tree::NodeV`, `statements::NodesV`). `imports::new_imports` merges import
  lists into a sorted list without duplicates, and `imports::Linker` is the
  state of building a program's files, one import at a time, until the set of
  built files is closed under imports (the contract of `Linker::to_build`). `lib_calls` decodes the calls of
  the core and window libraries; `window_events` holds what the window
  library reads from events and how its window builder changes; `core_ops`
  holds what the core library's string and array functions compute, with the
  string pool and the heap taken as plain values; `core_lib` holds the
  declarations each library registers.
- `tests/` runs the library on concrete trees and lists.
- `app/` is the command-line program: loading of native libraries (through
  `libloading`) and reading of source files.

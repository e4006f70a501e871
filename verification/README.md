# tea_compiler

Verified parts of the Tea compiler's ahead-of-time back end and of its
semantic analysis, written in Verus.

- `src/` is the library. Every function in it is verified against its
  contract, and `pub proof fn` items state properties of the library
  (laws) that Verus proves.
  - `ast`, `typechecker`: the syntax tree and the checked types, with their
    mathematical models.
  - `analysis`: what editor tooling reads about a checked module (module
    aliases and their exports, described types).
  - `aot`: the back end's decisions: lowering of types to value types, type
    printing and symbol mangling, reading type annotations, struct, error
    and generic metadata, global slots, constructor and member plans,
    indexing and assignment, loops and their phi nodes, calls and closures,
    arithmetic and comparison typing, list and dict methods, builtin
    argument rules, printing, returns, equality and conversion plans,
    function attributes, loop hints, object-file settings.
    `aot::llvm` and `aot::emission` build LLVM values, types, globals and
    function declarations through inkwell, each call behind a small
    wrapper. `aot::ir` holds the library's account of what it builds: a
    model of the LLVM types it obtains and a log of the operations it has
    LLVM perform; the emitters (runtime struct types, globals, function and
    lambda declarations, attributes, loop metadata, `TeaValue` boxing and
    reading back, conversion to an expected type, arithmetic, comparisons
    and equality) are stated over
    that log, builder errors included: an emitter that fails gives the
    builder's text and leaves in the log what came before the failing
    call.
  - `names`, `text`: name-keyed tables and character-sequence helpers.
- `app/` runs the `opt` tool on a module and writes object files: the parts
  that touch processes and the file system.
- `tests/` exercises the library.

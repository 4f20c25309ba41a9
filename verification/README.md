# ether_codegen

An LLVM IR generator for a small imperative language, built on `inkwell`
(LLVM 14, typed pointers) and verified with Verus.

- `src/ast.rs`: the declarations and types of a source program.
- `src/llvm_type.rs`: LLVM basic types as plain values, and their model.
- `src/types.rs`: conversion of source types to LLVM types, with its
  specification (`type_desc`, `convert_all`).
- `src/llvm.rs`: the calls into `inkwell`, and the handles they give back,
  each kept beside a plain model of what it stands for. A module is modelled
  by the log of every step that built it (functions, globals, blocks, stack
  slots, stores, returns); its IR text is named as a function of that log.
- `src/codegen.rs`: `CodeGen`, its symbol tables, and the three passes of
  `compile_program`, specified by `struct_pass`, `function_pass` and
  `body_pass`.
- `src/laws.rs`: properties of conversion and of the passes, among them
  that only the order within struct declarations and within the other
  declarations matters, and that compiling only appends to a module.
- `app/`: printing the generated IR.

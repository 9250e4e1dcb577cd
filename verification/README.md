# foolang

The IR back end of the foolang compiler: it lowers a code unit of foolang IR (global
constants and functions made of assignments, instructions and labels) to x86-64 machine
code in a model of a relocatable Linux ELF object (text, data and read-only data
sections, a symbol table and relocations).

Layout:

- `src/ir/ast`: the IR (types, operands, instructions, statements).
- `src/ir/compile/linux_amd64`: the compiler. Each instruction has a specification
  (`spec_compile_*`) of the bytes, symbols and relocations it produces and of its errors;
  `compile` is specified as the fold of these over a code unit. `properties.rs` holds
  the properties of whole functions and code units.
- `src/platforms`: x86-64 encodings and the ELF object model.
- `src/error`, `src/ast`, `src/lexer`, `src/builder`: the compiler's error types,
  operators and driver state.
- `app/`: the error types with the `Display` and `std::error::Error` impls that
  `thiserror` derives.

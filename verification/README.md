# solisp_tools

The standard tool library of the Solisp interpreter: the runtime value model
(`Value`, with its mathematical model `Val`), the tool interface and registry,
and several hundred tools (lists, strings, hash tables, arrays, characters,
bit operations, numbers, formatting, conditions, streams, pathnames, parsing
and encodings), each with a contract that states its result, or its error, for
every argument list. The pathname tools, whose results depend on the
platform's path syntax, state their argument checks and errors and what holds
of std's answer on every platform (a part of the path; the exact component
for a single plain name).

Layout:

- `src/value.rs`, `src/access.rs`, `src/error.rs`: values, their models and
  accessors, and errors.
- `src/text.rs`: strings as character sequences, numerals, character order.
- `src/float_bits.rs`: floats held by their IEEE 754 bits; comparisons and the
  conversions that Rust's `as`, `floor`, `ceil`, `round` and `trunc` make.
- `src/sorting.rs`: the value order of the sorting tools and a stable sort.
- `src/tools/mod.rs`: the `Tool` trait, argument bundles and the registry.
- `src/tools/stdlib/`: the tools, one module per group.
- `app/`: what stays unverified: float arithmetic the library cannot do on
  bits, console and file I/O, printing of values (FORMAT and the printer
  tools, planned by the library), JSON through serde_json, HTTP requests and
  LLM queries through reqwest (the library checks the arguments, builds the
  request bodies and reads the replies), and the tools that each module's
  registration in the library takes from the application
  (`app/registration.rs`).
- `tests/`: tests of the library, including checks of the float conversions
  against the hardware.

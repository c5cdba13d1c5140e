# rn_bindgen

The verified core of a React Native binding generator for uniffi component
interfaces.

- `src/interface.rs`: the model of an interface that the filters read (its types and,
  for each enum, whether it is flat).
- `src/oracle.rs`: the type labels of uniffi's Kotlin and Swift code oracles.
- `src/text.rs`: text helpers (lower camel case, backtick trimming, `String` order) and
  their laws.
- `src/gen_kotlin/`: the Kotlin mapper generator (its sorted, deduplicated sequence
  types) and the filters of its template.
- `src/gen_swift/`: the Swift wrapper generator and the filters of its template.
- `src/generator.rs`: the configuration, its defaults and the output path.
- `app/`: the command line, the uniffi `BindingGenerator` glue, the askama templates'
  structs and the file writing.

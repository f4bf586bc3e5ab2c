# derive_builder

A derive for the builder pattern. Given a struct with named fields, it
writes a `<Name>Builder` struct whose fields start unset, a `builder()`
constructor, one setter per field (two for a `Vec` field with a
`#[builder(each = "item")]` attribute), and `build`, which returns the
struct or an error naming the first required field that is unset.

Layout:

- `src/syntax.rs`: a plain model of the struct definition that the derive
  reads, with a mathematical view of each type.
- `src/bridge.rs`: the calls into `syn`, `quote` and `proc_macro2` that read
  the input tokens; these are trusted, not proved.
- `src/parse.rs`: reading the input into the model, and refusing structs
  without named fields.
- `src/analyze.rs`: the model that generation works from.
- `src/generate.rs`: the builder's source text, specified exactly, with the
  errors that the derive reports.
- `src/expand.rs`: the whole derive on its input: the builder's text, or
  the error and where in the input it is reported, or the panic.
- `src/text.rs`: small text operations.
- `src/command.rs`: the example `Command` struct with the builder the derive
  writes for it, and the laws of that builder.
- `app/main.rs`: the derive's entry point on token streams, which turns
  the library's locations into spans, and the example program.

# qubit-reflect-derive

The analysis core of the `#[derive(Reflect)]`, `#[reflect]` and
`#[reflect_impl]` macros, written in Verus and verified.

A declaration is read once into a plain intermediate representation
(`src/ir.rs`): types, paths, generics, methods and helper attributes held as
strings, vectors and token trees. Everything the macros decide about that
declaration is a verified function of it:

- `helper`, `attributes`, `validate`, `diagnostics`, `pipeline`: the helper
  attribute grammar, where each helper may appear, and the exact set of
  diagnostics a declaration produces (it is accepted iff there are none).
- `invocation`, `assertions`, `default_method`, `method_metadata`: whether a
  method can be invoked dynamically, the reasons it cannot, how each argument
  is passed, and which marker assertions a thread-safe mode needs.
- `dyn_compatibility`, `dyn_bindings`, `associated`, `shape`: trait-object
  compatibility and the associated-type bindings of a `dyn` hook.
- `generics`, `environment`, `generic_definition`, `type_expression`,
  `lifetime`, `reflected`, `substitution`, `token_rewrite`, `specialization`,
  `trait_payload`: the runtime model of types and generic definitions, and the
  rewrites applied to declared types.
- `constant`, `representation`, `member_plan`, `context`, `record`: const
  defaults and arguments, enum `repr` hints, per-field access plans, the facade
  path and stable fingerprints.
- `codegen`, `const_codegen`, `construction`, `variant_access`: token emission. Each emitter
  returns token trees whose value equals a spec function of the declaration
  and the facade path: the facade path itself, unavailable-reason slices,
  argument expectations, numeric discriminants, hook bounds, const default
  values and lifetimes as runtime expressions, the construction
  and update adapters of a struct, and the active check and field-access
  adapters of an enum variant.
- `invocation_adapter`: the executable invocation adapter of a concrete impl
  method (`definition_for_call`): its bound assertions, argument and receiver
  bindings, the call and what it returns, the panic-catching twin, the pinned
  form and the descriptor. It exists exactly when the invocation analysis
  finds the method executable, and its tokens equal `invocation_adapter_view`.
- `external_trait`: the `id = "..."` tail of an `external_trait` helper.
- `laws`: properties that span several of the functions above.

Calls into `syn` and `proc-macro2` that the analysis needs (reading a literal
or an identifier, checking that tokens form a derive input, re-rendering
rewritten tokens) stand behind small trusted wrappers. What `syn` reads from a
literal's or an identifier's spelling is named (`literal_reading_of`,
`plain_identifier_of`, `string_literal_content`), and a reading that comes back
is the named one; whether a spelling lexes at all is left open, so the callers
state the result for the named reading and, where nothing could be read, for
no reading.

`app/` is the front end of the macros: it converts `syn` syntax into the
representation, resolves the facade crate with `proc-macro-crate`, and
reports the library's diagnostics as compiler errors at their spans. The
enclosing registration modules and descriptors (the impl module that holds
the invocation adapters, trait metadata, type descriptors) are not assembled
yet, so an accepted invocation returns its item without the helper
attributes; the emitters above are the verified parts of that expansion.

# aspect_codegen

Code generation for aspect weaving, written and verified in Verus.

Given an aspect and a function that `syn` has parsed, the library produces the tokens of a wrapper
that takes the function's place:

- A function that is not asynchronous is handed to the aspect's `around`.
- An asynchronous function is advised `before` and `after` the call, and `after_error` where it
  returns a `Result`.
- Under an asynchronous aspect the advice is awaited, and an `around` that the aspect has of its own
  takes the place of the other advice. Such an `around` cannot be woven around a function that
  returns `impl Trait`: there the wrapper holds an error for the compiler.

A method stays beside its wrapper, where `Self` finds it. Any other function moves into the body of
its wrapper, where its bare name finds it.

`weaving::weave_aspect` and `weaving::weave_async_aspect` take a `syn::ItemFn`;
`codegen::generate_aspect_wrapper` and `codegen::generate_async_aspect_wrapper` take the function as
the library's own `syntax::FnItem`, whose name must not be a raw identifier.

What is produced is stated token by token in `templates`, and every function of `codegen` is proved
to produce it. The public proof functions of `counting`, `laws`, `nesting` and `relaxing` state what
follows: advice is never duplicated, the function is called at one place, advice keeps its order,
binding modes reach neither the call nor the join point, made-up names do not collide, groups are
balanced, and asynchronous advice differs from other advice only in what lets it cross threads.

The contracts of the functions that call `proc_macro2`, `quote` and `syn` are taken on trust. They
stand in `tokens` and in the first half of `reading`.

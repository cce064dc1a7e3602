# dynosaur

Attribute macros that give a trait with `async fn` and `-> impl Trait`
methods a companion usable with dynamic dispatch.

- `#[make_dyn(dyn)]` keeps the trait and adds `Erased<Trait>`, in which each
  `async` method returns a pinned, boxed future.
- `#[dynosaur(DynTrait)]` (or `#[dynosaur(DynTrait = dyn Trait)]`) keeps the
  trait and adds, in a module of its own, the erased trait, a blanket impl of
  it for every implementor, the `DynTrait` struct that stands in for
  `dyn Trait`, the struct's impl of the trait, and the constructors `new`,
  `boxed`, `from_ref` and `from_mut`.

Layout:

- `src/`: the library, verified with Verus. It parses the attributes'
  arguments, reads the item with `syn` into a model of the trait, and
  computes the expansion, as source text, from the model; `src/laws.rs`
  states properties of every expansion.
- `tests/`: tests of the library.
- `app/`: the token-stream edges: the argument tokens as the library's
  tokens, `syn`'s errors, and the computed text turned back into tokens.

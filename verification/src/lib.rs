//! Erased, dynamically dispatchable companions for traits with `async` and
//! `-> impl Trait` methods.
//!
//! The crate computes, from a model of a trait definition, the Rust source
//! text that the `make_dyn` and `dynosaur` attribute macros expand to:
//!
//! - `attrs`: the attributes' argument lists;
//! - `model`: the trait definition as the macros read it;
//! - `text`, `render`: the source text of the model;
//! - `erase`: the erased trait, whose `async` methods return boxed futures,
//!   and the expansion of `make_dyn`;
//! - `dyn_struct`: the `Dyn` struct standing in for `dyn Trait`, and the
//!   expansion of `dynosaur`;
//! - `syntax`, `source`: reading the macros' raw input with `syn` into the
//!   model, and the two expansions from that input;
//! - `laws`: properties that hold of every expansion;
//! - `util`: newtypes that give access to a value but never drop it.

pub mod attrs;
pub mod dyn_struct;
pub mod erase;
pub mod laws;
pub mod model;
pub mod render;
pub mod source;
pub mod syntax;
pub mod text;
pub mod util;

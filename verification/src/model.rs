//! A model of a trait definition, as the macros read it.
//!
//! Leaf syntax that the expansion never looks into (types, bounds, patterns,
//! attributes, where clauses, bodies) is held as its source text; everything
//! the expansion decides on is held as structure. Parameters and items are in
//! declaration order; where generic parameters are printed as a list, the
//! lifetimes come first and the others follow, each group in that order.
use vstd::prelude::*;

verus! {

/// A generic parameter. `attrs` holds its outer attributes; `bounds` is empty
/// when there are none.
pub enum ParamDef {
    Lifetime { attrs: String, lifetime: String, bounds: String },
    Type { attrs: String, ident: String, bounds: String, default: Option<String> },
    Const { attrs: String, ident: String, ty: String, default: Option<String> },
}

/// Generic parameters and the where clause (`where` and its predicates, or
/// empty when there are no predicates).
pub struct GenericsDef {
    pub params: Vec<ParamDef>,
    pub where_clause: String,
}

/// A method receiver: `self`, `mut self`, `&self`, `&'a mut self`, or
/// `self: Type` when `ty` is given.
pub struct ReceiverDef {
    pub attrs: String,
    /// `Some(lifetime)` for a reference receiver; the lifetime is `None` when
    /// it is elided.
    pub reference: Option<Option<String>>,
    pub mutability: bool,
    pub ty: Option<String>,
}

/// The pattern of a typed argument: a plain binding, written `binding` (`x`,
/// `mut x`) and naming the variable `name` (`x`), or any other pattern.
pub enum Pat {
    Ident { binding: String, name: String },
    Other(String),
}

/// One input of a method.
pub enum ArgDef {
    SelfArg(ReceiverDef),
    Typed { attrs: String, pat: Pat, ty: String },
}

/// The return type of a method: none, `-> T`, or `-> impl Bounds`.
pub enum OutputDef {
    Default,
    Type(String),
    ImplTrait(String),
}

/// A method signature.
pub struct SigDef {
    pub constness: bool,
    pub asyncness: bool,
    pub unsafety: bool,
    pub abi: String,
    pub ident: String,
    pub generics: GenericsDef,
    pub inputs: Vec<ArgDef>,
    pub variadic: Option<String>,
    pub output: OutputDef,
}

/// An item of a trait. `default` holds the default value, type or body (a
/// body with its braces); `Other` holds items of any other kind as text.
pub enum ItemDef {
    Const { attrs: String, ident: String, generics: GenericsDef, ty: String, default: Option<String> },
    Fn { attrs: String, sig: SigDef, default: Option<String> },
    Type {
        attrs: String,
        ident: String,
        generics: GenericsDef,
        bounds: String,
        default: Option<String>,
    },
    Other(String),
}

/// A trait definition. `supertraits` is empty when there are none;
/// `inner_attrs` holds the attributes written inside the braces.
pub struct TraitDef {
    pub attrs: String,
    pub vis: String,
    pub unsafety: bool,
    pub auto: bool,
    pub ident: String,
    pub generics: GenericsDef,
    pub supertraits: String,
    pub inner_attrs: String,
    pub items: Vec<ItemDef>,
}

} // verus!

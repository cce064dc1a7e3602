//! Reading a trait with `syn`: the parse itself, and one node of the syntax
//! tree at a time converted into plain values (leaf syntax as the text that
//! `syn` prints for it) and the node's children.
use quote::ToTokens;
use syn::spanned::Spanned;
use vstd::prelude::*;

verus! {

#[verifier::external_type_specification]
#[verifier::external_body]
pub struct ExTokenStream(proc_macro2::TokenStream);

#[verifier::external_type_specification]
#[verifier::external_body]
pub struct ExSpan(proc_macro2::Span);

#[verifier::external_type_specification]
#[verifier::external_body]
pub struct ExError(syn::Error);

#[verifier::external_type_specification]
#[verifier::external_body]
pub struct ExItemTrait(syn::ItemTrait);

#[verifier::external_type_specification]
#[verifier::external_body]
pub struct ExAttribute(syn::Attribute);

#[verifier::external_type_specification]
#[verifier::external_body]
pub struct ExGenerics(syn::Generics);

#[verifier::external_type_specification]
#[verifier::external_body]
pub struct ExGenericParam(syn::GenericParam);

#[verifier::external_type_specification]
#[verifier::external_body]
pub struct ExTraitItem(syn::TraitItem);

#[verifier::external_type_specification]
#[verifier::external_body]
pub struct ExTraitItemConst(syn::TraitItemConst);

#[verifier::external_type_specification]
#[verifier::external_body]
pub struct ExTraitItemFn(syn::TraitItemFn);

#[verifier::external_type_specification]
#[verifier::external_body]
pub struct ExTraitItemType(syn::TraitItemType);

#[verifier::external_type_specification]
#[verifier::external_body]
pub struct ExSignature(syn::Signature);

#[verifier::external_type_specification]
#[verifier::external_body]
pub struct ExFnArg(syn::FnArg);

#[verifier::external_type_specification]
#[verifier::external_body]
pub struct ExReceiver(syn::Receiver);

#[verifier::external_type_specification]
#[verifier::external_body]
pub struct ExPatType(syn::PatType);

#[verifier::external_type_specification]
#[verifier::external_body]
pub struct ExReturnType(syn::ReturnType);

/// An attribute: whether it is an inner one (`#![..]`), and its text.
pub struct Attr {
    pub inner: bool,
    pub text: String,
}

/// The fields of a trait definition.
pub struct TraitParts {
    pub attrs: Vec<syn::Attribute>,
    pub vis: String,
    pub unsafety: bool,
    pub auto: bool,
    pub ident: String,
    pub generics: syn::Generics,
    pub supertraits: String,
    pub items: Vec<syn::TraitItem>,
}

/// A generic parameter, by kind.
pub enum ParamParts {
    Lifetime { attrs: Vec<syn::Attribute>, lifetime: String, bounds: String },
    Type { attrs: Vec<syn::Attribute>, ident: String, bounds: String, default: Option<String> },
    Const { attrs: Vec<syn::Attribute>, ident: String, ty: String, default: Option<String> },
}

/// A trait item, by kind; any other kind as its text.
pub enum ItemNode {
    Const(syn::TraitItemConst),
    Fn(syn::TraitItemFn),
    Type(syn::TraitItemType),
    Other(String),
}

/// The fields of an associated constant.
pub struct ConstParts {
    pub attrs: Vec<syn::Attribute>,
    pub ident: String,
    pub generics: syn::Generics,
    pub ty: String,
    pub default: Option<String>,
}

/// The fields of a method: its default body as the text of its statements.
pub struct FnParts {
    pub attrs: Vec<syn::Attribute>,
    pub sig: syn::Signature,
    pub body: Option<Vec<String>>,
}

/// The fields of an associated type.
pub struct TypeParts {
    pub attrs: Vec<syn::Attribute>,
    pub ident: String,
    pub generics: syn::Generics,
    pub bounds: String,
    pub default: Option<String>,
}

/// The fields of a method signature.
pub struct SigParts {
    pub constness: bool,
    pub asyncness: bool,
    pub unsafety: bool,
    pub abi: String,
    pub ident: String,
    pub generics: syn::Generics,
    pub inputs: Vec<syn::FnArg>,
    pub variadic: Option<String>,
    pub output: syn::ReturnType,
}

/// A method input, by kind.
pub enum ArgNode {
    SelfArg(syn::Receiver),
    Typed(syn::PatType),
}

/// The fields of a receiver: the reference, when there is one, with its
/// lifetime when it is named; the type, when it is written `self: Type`.
pub struct ReceiverParts {
    pub attrs: Vec<syn::Attribute>,
    pub reference: Option<Option<String>>,
    pub mutability: bool,
    pub ty: Option<String>,
}

/// The fields of a typed input, its pattern converted.
pub struct TypedParts {
    pub attrs: Vec<syn::Attribute>,
    pub pat: crate::model::Pat,
    pub ty: String,
}

/// What `syn::parse2::<syn::ItemTrait>` returns for a token stream.
pub uninterp spec fn parse_result(ts: proc_macro2::TokenStream) -> Result<syn::ItemTrait, syn::Error>;

/// What `trait_parts` reads from a trait definition.
pub uninterp spec fn trait_parts_of(t: syn::ItemTrait) -> TraitParts;

/// What `attr_parts` reads from an attribute.
pub uninterp spec fn attr_parts_of(a: syn::Attribute) -> Attr;

/// What `generics_parts` reads from generics.
pub uninterp spec fn generics_parts_of(g: syn::Generics) -> (Vec<syn::GenericParam>, String);

/// What `param_parts` reads from a generic parameter.
pub uninterp spec fn param_parts_of(p: syn::GenericParam) -> ParamParts;

/// What `item_node` makes of a trait item.
pub uninterp spec fn item_node_of(i: syn::TraitItem) -> ItemNode;

/// What `const_parts` reads from an associated constant.
pub uninterp spec fn const_parts_of(c: syn::TraitItemConst) -> ConstParts;

/// What `fn_parts` reads from a method.
pub uninterp spec fn fn_parts_of(f: syn::TraitItemFn) -> FnParts;

/// What `type_parts` reads from an associated type.
pub uninterp spec fn type_parts_of(t: syn::TraitItemType) -> TypeParts;

/// What `sig_parts` reads from a method signature.
pub uninterp spec fn sig_parts_of(s: syn::Signature) -> SigParts;

/// What `output_model` reads from a return type.
pub uninterp spec fn output_of(o: syn::ReturnType) -> crate::model::OutputDef;

/// What `arg_node` makes of a method input.
pub uninterp spec fn arg_node_of(a: syn::FnArg) -> ArgNode;

/// What `receiver_parts` reads from a receiver.
pub uninterp spec fn receiver_parts_of(r: syn::Receiver) -> ReceiverParts;

/// What `typed_parts` reads from a typed input.
pub uninterp spec fn typed_parts_of(p: syn::PatType) -> TypedParts;

/// Calls `syn::parse2::<syn::ItemTrait>`: the trait that the tokens hold, or
/// `syn`'s error. The outcome is a function of the token stream (named
/// `parse_result`).
#[verifier::external_body]
pub(crate) fn parse_item_trait(ts: proc_macro2::TokenStream) -> (r: Result<syn::ItemTrait, syn::Error>)
    ensures
        r == parse_result(ts),
{
    syn::parse2::<syn::ItemTrait>(ts)
}

/// Reads the fields of a trait definition (`syn::ItemTrait`), printing its
/// visibility and supertraits with `ToTokens`.
#[verifier::external_body]
pub(crate) fn trait_parts(t: &syn::ItemTrait) -> (r: TraitParts)
    ensures
        r == trait_parts_of(*t),
{
    TraitParts {
        attrs: t.attrs.clone(),
        vis: t.vis.to_token_stream().to_string(),
        unsafety: t.unsafety.is_some(),
        auto: t.auto_token.is_some(),
        ident: t.ident.to_string(),
        generics: t.generics.clone(),
        supertraits: t.supertraits.to_token_stream().to_string(),
        items: t.items.clone(),
    }
}

/// Reads an attribute (`syn::Attribute`): its style and its printed text.
#[verifier::external_body]
pub(crate) fn attr_parts(a: &syn::Attribute) -> (r: Attr)
    ensures
        r == attr_parts_of(*a),
{
    Attr {
        inner: match a.style {
            syn::AttrStyle::Outer => false,
            syn::AttrStyle::Inner(_) => true,
        },
        text: a.to_token_stream().to_string(),
    }
}

/// Reads generics (`syn::Generics`): the parameters, and the printed where
/// clause (empty without one).
#[verifier::external_body]
pub(crate) fn generics_parts(g: &syn::Generics) -> (r: (Vec<syn::GenericParam>, String))
    ensures
        r == generics_parts_of(*g),
{
    let where_clause = g.where_clause.as_ref().map(|w| w.to_token_stream().to_string());
    (g.params.iter().cloned().collect(), where_clause.unwrap_or_default())
}

/// Reads a generic parameter (`syn::GenericParam`), by kind.
#[verifier::external_body]
pub(crate) fn param_parts(p: &syn::GenericParam) -> (r: ParamParts)
    ensures
        r == param_parts_of(*p),
{
    let text = |t: &dyn ToTokens| t.to_token_stream().to_string();
    match p {
        syn::GenericParam::Lifetime(l) => ParamParts::Lifetime {
            attrs: l.attrs.clone(), lifetime: text(&l.lifetime), bounds: text(&l.bounds) },
        syn::GenericParam::Type(t) => ParamParts::Type { attrs: t.attrs.clone(),
            ident: t.ident.to_string(), bounds: text(&t.bounds), default: t.default.as_ref().map(|d| text(d)) },
        syn::GenericParam::Const(c) => ParamParts::Const { attrs: c.attrs.clone(),
            ident: c.ident.to_string(), ty: text(&c.ty), default: c.default.as_ref().map(|d| text(d)) },
    }
}

/// Tells the kinds of trait item (`syn::TraitItem`) apart; any other kind is
/// printed.
#[verifier::external_body]
pub(crate) fn item_node(i: &syn::TraitItem) -> (r: ItemNode)
    ensures
        r == item_node_of(*i),
{
    match i {
        syn::TraitItem::Const(c) => ItemNode::Const(c.clone()),
        syn::TraitItem::Fn(f) => ItemNode::Fn(f.clone()),
        syn::TraitItem::Type(t) => ItemNode::Type(t.clone()),
        other => ItemNode::Other(other.to_token_stream().to_string()),
    }
}

/// Reads an associated constant (`syn::TraitItemConst`).
#[verifier::external_body]
pub(crate) fn const_parts(c: &syn::TraitItemConst) -> (r: ConstParts)
    ensures
        r == const_parts_of(*c),
{
    ConstParts {
        attrs: c.attrs.clone(),
        ident: c.ident.to_string(),
        generics: c.generics.clone(),
        ty: c.ty.to_token_stream().to_string(),
        default: c.default.as_ref().map(|(_, e)| e.to_token_stream().to_string()),
    }
}

/// Reads a method (`syn::TraitItemFn`): its default body as its printed
/// statements.
#[verifier::external_body]
pub(crate) fn fn_parts(f: &syn::TraitItemFn) -> (r: FnParts)
    ensures
        r == fn_parts_of(*f),
{
    FnParts {
        attrs: f.attrs.clone(),
        sig: f.sig.clone(),
        body: f.default.as_ref().map(|b| b.stmts.iter().map(|s| s.to_token_stream().to_string()).collect()),
    }
}

/// Reads an associated type (`syn::TraitItemType`).
#[verifier::external_body]
pub(crate) fn type_parts(t: &syn::TraitItemType) -> (r: TypeParts)
    ensures
        r == type_parts_of(*t),
{
    TypeParts {
        attrs: t.attrs.clone(),
        ident: t.ident.to_string(),
        generics: t.generics.clone(),
        bounds: t.bounds.to_token_stream().to_string(),
        default: t.default.as_ref().map(|(_, ty)| ty.to_token_stream().to_string()),
    }
}

/// Reads a method signature (`syn::Signature`).
#[verifier::external_body]
pub(crate) fn sig_parts(s: &syn::Signature) -> (r: SigParts)
    ensures
        r == sig_parts_of(*s),
{
    SigParts {
        constness: s.constness.is_some(),
        asyncness: s.asyncness.is_some(),
        unsafety: s.unsafety.is_some(),
        abi: s.abi.as_ref().map(|a| a.to_token_stream().to_string()).unwrap_or_default(),
        ident: s.ident.to_string(),
        generics: s.generics.clone(),
        inputs: s.inputs.iter().cloned().collect(),
        variadic: s.variadic.as_ref().map(|v| v.to_token_stream().to_string()),
        output: s.output.clone(),
    }
}

/// Reads a return type (`syn::ReturnType`): none, `-> impl Bounds` with the
/// bounds printed, or any other type printed.
#[verifier::external_body]
pub(crate) fn output_model(o: &syn::ReturnType) -> (r: crate::model::OutputDef)
    ensures
        r == output_of(*o),
{
    match o {
        syn::ReturnType::Default => crate::model::OutputDef::Default,
        syn::ReturnType::Type(_, ty) => match &**ty {
            syn::Type::ImplTrait(i) => crate::model::OutputDef::ImplTrait(
                i.bounds.to_token_stream().to_string(),
            ),
            other => crate::model::OutputDef::Type(other.to_token_stream().to_string()),
        },
    }
}

/// Tells the kinds of method input (`syn::FnArg`) apart.
#[verifier::external_body]
pub(crate) fn arg_node(a: &syn::FnArg) -> (r: ArgNode)
    ensures
        r == arg_node_of(*a),
{
    match a {
        syn::FnArg::Receiver(rcv) => ArgNode::SelfArg(rcv.clone()),
        syn::FnArg::Typed(t) => ArgNode::Typed(t.clone()),
    }
}

/// Reads a receiver (`syn::Receiver`).
#[verifier::external_body]
pub(crate) fn receiver_parts(r: &syn::Receiver) -> (p: ReceiverParts)
    ensures
        p == receiver_parts_of(*r),
{
    ReceiverParts {
        attrs: r.attrs.clone(),
        reference: r.reference.as_ref().map(|(_, lt)| lt.as_ref().map(|l| l.to_string())),
        mutability: r.mutability.is_some(),
        ty: r.colon_token.map(|_| r.ty.to_token_stream().to_string()),
    }
}

/// Reads a typed input (`syn::PatType`): a plain binding as its printed text
/// and its name, any other pattern printed.
#[verifier::external_body]
pub(crate) fn typed_parts(p: &syn::PatType) -> (r: TypedParts)
    ensures
        r == typed_parts_of(*p),
{
    TypedParts {
        attrs: p.attrs.clone(),
        pat: match &*p.pat {
            syn::Pat::Ident(i) => crate::model::Pat::Ident {
                binding: i.to_token_stream().to_string(), name: i.ident.to_string() },
            other => crate::model::Pat::Other(other.to_token_stream().to_string()),
        },
        ty: p.ty.to_token_stream().to_string(),
    }
}

/// Where a trait item stands in the source (`Spanned::span`).
#[verifier::external_body]
pub(crate) fn item_span(i: &syn::TraitItem) -> (r: proc_macro2::Span) {
    i.span()
}

/// Where a typed input's pattern stands in the source (`Spanned::span`).
#[verifier::external_body]
pub(crate) fn pat_span(p: &syn::PatType) -> (r: proc_macro2::Span) {
    p.pat.span()
}

/// The span of the macro's call site (`Span::call_site`).
#[verifier::external_body]
pub(crate) fn call_site() -> (r: proc_macro2::Span) {
    proc_macro2::Span::call_site()
}

} // verus!

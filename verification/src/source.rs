//! The two expansions from the macros' raw input: the attribute's argument
//! tokens and the tokens of the item. The argument list is checked first;
//! then the item is parsed with `syn` as a trait and read into the model, and
//! the expansion is computed from the model.
use crate::attrs::{
    answers_consistent, ident_answers, parse_dynosaur_attrs_with, parse_make_dyn_attrs,
    spec_dynosaur_attrs, spec_make_dyn_attrs, AttrError, AttrToken,
};
use crate::dyn_struct::{dynosaur_with, expansion_agrees, spec_dynosaur, Expansion, SyntaxError};
use crate::erase::{make_dyn, mk_erased_trait, spec_make_dyn};
use crate::render::text_trait;
use crate::model::{ArgDef, ParamDef, GenericsDef, ReceiverDef, SigDef, TraitDef, ItemDef};
use crate::syntax::{
    FnParts,
    parse_result, arg_node, arg_node_of, attr_parts, attr_parts_of, call_site, const_parts_of, fn_parts_of, generics_parts_of, item_node_of, output_of, param_parts_of, receiver_parts_of, sig_parts_of, trait_parts_of, type_parts_of, typed_parts_of, const_parts, fn_parts, generics_parts, item_node, item_span,
    output_model, param_parts, parse_item_trait, pat_span, receiver_parts, sig_parts, trait_parts,
    type_parts, typed_parts, ArgNode, Attr, ItemNode, ParamParts,
};
use crate::text::{join, join_strings, strs};
use vstd::prelude::*;
use vstd::string::StringExecFns;

verus! {

/// The texts of the attributes of one style (inner with `inner`, else outer),
/// in order.
pub open spec fn attr_texts(attrs: Seq<Attr>, inner: bool) -> Seq<Seq<char>>
    decreases attrs.len(),
{
    if attrs.len() == 0 {
        Seq::empty()
    } else {
        let rest = attr_texts(attrs.drop_last(), inner);
        if attrs.last().inner == inner {
            rest.push(attrs.last().text@)
        } else {
            rest
        }
    }
}

/// Prints the attributes of one style, separated by spaces.
pub fn render_attrs(attrs: &Vec<Attr>, inner: bool) -> (r: String)
    ensures
        r@ == join(attr_texts(attrs@, inner), " "@),
{
    let mut texts: Vec<String> = Vec::new();
    let n = attrs.len();
    for i in 0..n
        invariant
            n == attrs@.len(),
            strs(texts@) == attr_texts(attrs@.take(i as int), inner),
    {
        proof {
            assert(attrs@.take(i + 1).drop_last() =~= attrs@.take(i as int));
        }
        if attrs[i].inner == inner {
            let ghost before = texts@;
            texts.push(attrs[i].text.clone());
            proof {
                assert(strs(texts@) =~= strs(before).push(attrs@[i as int].text@));
            }
        }
    }
    proof {
        assert(attrs@.take(n as int) =~= attrs@);
    }
    join_strings(&texts, " ")
}

/// A default body: the method's inner attributes, then its statements.
pub open spec fn body_text(inner_attrs: Seq<char>, stmts: Seq<Seq<char>>) -> Seq<char> {
    "{ "@ + inner_attrs + " "@ + join(stmts, " "@) + " }"@
}

/// Prints a default body from the method's inner attributes and statements.
pub fn render_body(inner_attrs: &str, stmts: &Vec<String>) -> (r: String)
    ensures
        r@ == body_text(inner_attrs@, strs(stmts@)),
{
    let mut r = "{ ".to_owned();
    r.append(inner_attrs);
    r.append(" ");
    let s = join_strings(stmts, " ");
    r.append(s.as_str());
    r.append(" }");
    r
}

/// The attributes as read, in order.
pub open spec fn attrs_read(v: Seq<syn::Attribute>) -> Seq<Attr> {
    Seq::new(v.len(), |i: int| attr_parts_of(v[i]))
}

/// The text of the attributes of one style (inner with `inner`, else outer).
pub open spec fn attrs_text(v: Seq<syn::Attribute>, inner: bool) -> Seq<char> {
    join(attr_texts(attrs_read(v), inner), " "@)
}

/// Whether `m` is the model of the generic parameter `p`.
pub open spec fn param_model_of(p: syn::GenericParam, m: ParamDef) -> bool {
    match param_parts_of(p) {
        ParamParts::Lifetime { attrs, lifetime, bounds } => (m matches ParamDef::Lifetime {
            attrs: a,
            lifetime: l,
            bounds: b,
        } && a@ == attrs_text(attrs@, false) && l == lifetime && b == bounds),
        ParamParts::Type { attrs, ident, bounds, default } => (m matches ParamDef::Type {
            attrs: a,
            ident: i,
            bounds: b,
            default: d,
        } && a@ == attrs_text(attrs@, false) && i == ident && b == bounds && d == default),
        ParamParts::Const { attrs, ident, ty, default } => (m matches ParamDef::Const {
            attrs: a,
            ident: i,
            ty: t,
            default: d,
        } && a@ == attrs_text(attrs@, false) && i == ident && t == ty && d == default),
    }
}

/// Whether `m` is the model of the generics `g`.
pub open spec fn generics_model_of(g: syn::Generics, m: GenericsDef) -> bool {
    let (ps, where_clause) = generics_parts_of(g);
    &&& m.where_clause == where_clause
    &&& m.params@.len() == ps@.len()
    &&& forall|i: int| 0 <= i < ps@.len() ==> param_model_of(ps@[i], #[trigger] m.params@[i])
}

/// Whether `m` is the model of the method input `a`.
pub open spec fn arg_model_of(a: syn::FnArg, m: ArgDef) -> bool {
    match arg_node_of(a) {
        ArgNode::SelfArg(rcv) => {
            let p = receiver_parts_of(rcv);
            (m matches ArgDef::SelfArg(r) && r.attrs@ == attrs_text(p.attrs@, false) && r.reference
                == p.reference && r.mutability == p.mutability && r.ty == p.ty)
        },
        ArgNode::Typed(t) => {
            let p = typed_parts_of(t);
            (m matches ArgDef::Typed { attrs, pat, ty } && attrs@ == attrs_text(p.attrs@, false)
                && pat == p.pat && ty == p.ty)
        },
    }
}

/// Whether `m` is the model of the method signature `s`.
pub open spec fn sig_model_of(s: syn::Signature, m: SigDef) -> bool {
    let p = sig_parts_of(s);
    &&& m.constness == p.constness
    &&& m.asyncness == p.asyncness
    &&& m.unsafety == p.unsafety
    &&& m.abi == p.abi
    &&& m.ident == p.ident
    &&& generics_model_of(p.generics, m.generics)
    &&& m.inputs@.len() == p.inputs@.len()
    &&& forall|i: int|
        0 <= i < p.inputs@.len() ==> arg_model_of(p.inputs@[i], #[trigger] m.inputs@[i])
    &&& m.variadic == p.variadic
    &&& m.output == output_of(p.output)
}

/// Whether `default` is the model of the default body of the method read as
/// `p`: its inner attributes, then its statements.
pub open spec fn body_model_of(p: FnParts, default: Option<String>) -> bool {
    match p.body {
        Some(stmts) => (default matches Some(b) && b@ == body_text(
            attrs_text(p.attrs@, true),
            strs(stmts@),
        )),
        None => default is None,
    }
}

/// Whether `m` is the model of the trait item `i`.
pub open spec fn item_model_of(i: syn::TraitItem, m: ItemDef) -> bool {
    match item_node_of(i) {
        ItemNode::Const(c) => {
            let p = const_parts_of(c);
            (m matches ItemDef::Const { attrs, ident, generics, ty, default } && attrs@
                == attrs_text(p.attrs@, false) && ident == p.ident && generics_model_of(
                p.generics,
                generics,
            ) && ty == p.ty && default == p.default)
        },
        ItemNode::Fn(f) => {
            let p = fn_parts_of(f);
            (m matches ItemDef::Fn { attrs, sig, default } && attrs@ == attrs_text(p.attrs@, false)
                && sig_model_of(p.sig, sig) && body_model_of(p, default))
        },
        ItemNode::Type(t) => {
            let p = type_parts_of(t);
            (m matches ItemDef::Type { attrs, ident, generics, bounds, default } && attrs@
                == attrs_text(p.attrs@, false) && ident == p.ident && generics_model_of(
                p.generics,
                generics,
            ) && bounds == p.bounds && default == p.default)
        },
        ItemNode::Other(text) => m == ItemDef::Other(text),
    }
}

/// Whether `m` is the model of the trait definition `t`: each field is what
/// `syn` reads from `t`, attributes split by style and printed.
pub open spec fn trait_model_of(t: syn::ItemTrait, m: TraitDef) -> bool {
    let p = trait_parts_of(t);
    &&& m.attrs@ == attrs_text(p.attrs@, false)
    &&& m.vis == p.vis
    &&& m.unsafety == p.unsafety
    &&& m.auto == p.auto
    &&& m.ident == p.ident
    &&& generics_model_of(p.generics, m.generics)
    &&& m.supertraits == p.supertraits
    &&& m.inner_attrs@ == attrs_text(p.attrs@, true)
    &&& m.items@.len() == p.items@.len()
    &&& forall|i: int|
        0 <= i < p.items@.len() ==> item_model_of(p.items@[i], #[trigger] m.items@[i])
}

/// Reads attributes.
fn attrs_of(v: &Vec<syn::Attribute>) -> (r: Vec<Attr>)
    ensures
        r@ == attrs_read(v@),
{
    let mut r: Vec<Attr> = Vec::new();
    for i in 0..v.len()
        invariant
            r@.len() == i,
            forall|j: int| 0 <= j < i ==> #[trigger] r@[j] == attr_parts_of(v@[j]),
    {
        r.push(attr_parts(&v[i]));
    }
    proof {
        assert(r@ =~= attrs_read(v@));
    }
    r
}

/// Prints the outer attributes.
fn outer_text(v: &Vec<syn::Attribute>) -> (r: String)
    ensures
        r@ == attrs_text(v@, false),
{
    let a = attrs_of(v);
    render_attrs(&a, false)
}

/// Prints the inner attributes.
fn inner_text(v: &Vec<syn::Attribute>) -> (r: String)
    ensures
        r@ == attrs_text(v@, true),
{
    let a = attrs_of(v);
    render_attrs(&a, true)
}

/// Reads a generic parameter into the model.
fn param_model(p: &syn::GenericParam) -> (r: ParamDef)
    ensures
        param_model_of(*p, r),
{
    match param_parts(p) {
        ParamParts::Lifetime { attrs, lifetime, bounds } => ParamDef::Lifetime {
            attrs: outer_text(&attrs),
            lifetime,
            bounds,
        },
        ParamParts::Type { attrs, ident, bounds, default } => ParamDef::Type {
            attrs: outer_text(&attrs),
            ident,
            bounds,
            default,
        },
        ParamParts::Const { attrs, ident, ty, default } => ParamDef::Const {
            attrs: outer_text(&attrs),
            ident,
            ty,
            default,
        },
    }
}

/// Reads generics into the model.
fn generics_model(g: &syn::Generics) -> (r: GenericsDef)
    ensures
        generics_model_of(*g, r),
{
    let (ps, where_clause) = generics_parts(g);
    let mut params: Vec<ParamDef> = Vec::new();
    for i in 0..ps.len()
        invariant
            params@.len() == i,
            forall|j: int| 0 <= j < i ==> param_model_of(ps@[j], #[trigger] params@[j]),
    {
        params.push(param_model(&ps[i]));
    }
    GenericsDef { params, where_clause }
}

/// Reads a method input into the model.
fn arg_model(a: &syn::FnArg) -> (r: ArgDef)
    ensures
        arg_model_of(*a, r),
{
    match arg_node(a) {
        ArgNode::SelfArg(rcv) => {
            let p = receiver_parts(&rcv);
            ArgDef::SelfArg(
                ReceiverDef {
                    attrs: outer_text(&p.attrs),
                    reference: p.reference,
                    mutability: p.mutability,
                    ty: p.ty,
                },
            )
        },
        ArgNode::Typed(t) => {
            let p = typed_parts(&t);
            ArgDef::Typed { attrs: outer_text(&p.attrs), pat: p.pat, ty: p.ty }
        },
    }
}

/// Reads a method signature into the model.
fn sig_model(s: &syn::Signature) -> (r: SigDef)
    ensures
        sig_model_of(*s, r),
{
    let p = sig_parts(s);
    let mut inputs: Vec<ArgDef> = Vec::new();
    for i in 0..p.inputs.len()
        invariant
            inputs@.len() == i,
            forall|j: int| 0 <= j < i ==> arg_model_of(p.inputs@[j], #[trigger] inputs@[j]),
    {
        inputs.push(arg_model(&p.inputs[i]));
    }
    SigDef {
        constness: p.constness,
        asyncness: p.asyncness,
        unsafety: p.unsafety,
        abi: p.abi,
        ident: p.ident,
        generics: generics_model(&p.generics),
        inputs,
        variadic: p.variadic,
        output: output_model(&p.output),
    }
}

/// Reads a trait item into the model; a method's default body keeps its
/// inner attributes ahead of its statements.
fn item_model(i: &syn::TraitItem) -> (r: ItemDef)
    ensures
        item_model_of(*i, r),
{
    match item_node(i) {
        ItemNode::Const(c) => {
            let p = const_parts(&c);
            ItemDef::Const {
                attrs: outer_text(&p.attrs),
                ident: p.ident,
                generics: generics_model(&p.generics),
                ty: p.ty,
                default: p.default,
            }
        },
        ItemNode::Fn(f) => {
            let p = fn_parts(&f);
            let default = match &p.body {
                Some(stmts) => {
                    let inner = inner_text(&p.attrs);
                    Some(render_body(inner.as_str(), stmts))
                },
                None => None,
            };
            ItemDef::Fn { attrs: outer_text(&p.attrs), sig: sig_model(&p.sig), default }
        },
        ItemNode::Type(t) => {
            let p = type_parts(&t);
            ItemDef::Type {
                attrs: outer_text(&p.attrs),
                ident: p.ident,
                generics: generics_model(&p.generics),
                bounds: p.bounds,
                default: p.default,
            }
        },
        ItemNode::Other(text) => ItemDef::Other(text),
    }
}

/// Reads a trait parsed by `syn` into the model.
pub fn trait_model(t: &syn::ItemTrait) -> (r: TraitDef)
    ensures
        trait_model_of(*t, r),
{
    let p = trait_parts(t);
    let mut items: Vec<ItemDef> = Vec::new();
    for i in 0..p.items.len()
        invariant
            items@.len() == i,
            forall|j: int| 0 <= j < i ==> item_model_of(p.items@[j], #[trigger] items@[j]),
    {
        items.push(item_model(&p.items[i]));
    }
    TraitDef {
        attrs: outer_text(&p.attrs),
        vis: p.vis,
        unsafety: p.unsafety,
        auto: p.auto,
        ident: p.ident,
        generics: generics_model(&p.generics),
        supertraits: p.supertraits,
        inner_attrs: inner_text(&p.attrs),
        items,
    }
}

/// Where a reported part of the trait stands in the source: the item, or the
/// pattern of the method's input; the call site when it cannot be found.
fn error_span(items: &Vec<syn::TraitItem>, e: SyntaxError) -> proc_macro2::Span {
    match e {
        SyntaxError::UnsupportedItem { item } => {
            if item < items.len() {
                item_span(&items[item])
            } else {
                call_site()
            }
        },
        SyntaxError::PatternNotSupported { item, input } => {
            if item >= items.len() {
                return call_site();
            }
            match item_node(&items[item]) {
                ItemNode::Fn(f) => {
                    let sig = sig_parts(&fn_parts(&f).sig);
                    if input < sig.inputs.len() {
                        match arg_node(&sig.inputs[input]) {
                            ArgNode::Typed(p) => pat_span(&p),
                            ArgNode::SelfArg(_) => call_site(),
                        }
                    } else {
                        call_site()
                    }
                },
                _ => call_site(),
            }
        },
    }
}

/// Where each reported part of the trait stands in the source.
fn error_spans(t: &syn::ItemTrait, errors: &Vec<SyntaxError>) -> (r: Vec<proc_macro2::Span>)
    ensures
        r@.len() == errors@.len(),
{
    let items = trait_parts(t).items;
    let mut r: Vec<proc_macro2::Span> = Vec::new();
    for i in 0..errors.len()
        invariant
            r@.len() == i,
    {
        r.push(error_span(&items, errors[i]));
    }
    r
}

/// Why a macro's input was refused: its argument list, or an item that `syn`
/// does not parse as a trait (with `syn`'s error).
pub enum SourceError {
    Attr(AttrError),
    NotATrait(syn::Error),
}

/// The expansion of `dynosaur`, with the place in the source of each part of
/// the trait that it cannot forward.
pub struct SourceExpansion {
    pub expansion: Expansion,
    pub error_spans: Vec<proc_macro2::Span>,
}

/// What `dynosaur` makes of its raw input, given `syn`'s answers for the
/// argument list's tokens: a refused argument list is reported first, and
/// nothing else; an item that `syn` does not parse as a trait is reported
/// with `syn`'s error; otherwise the expansion is that of the model of the
/// trait that `syn` parsed.
pub open spec fn dynosaur_source_agrees(
    r: Result<SourceExpansion, SourceError>,
    attr: Seq<AttrToken>,
    answers: Seq<bool>,
    item: proc_macro2::TokenStream,
) -> bool {
    match spec_dynosaur_attrs(attr, answers) {
        Err(e) => match r {
            Err(SourceError::Attr(f)) => f == e,
            _ => false,
        },
        Ok(_) => match parse_result(item) {
            Err(pe) => r == Err::<SourceExpansion, SourceError>(SourceError::NotATrait(pe)),
            Ok(t) => match r {
                Ok(x) => x.error_spans@.len() == x.expansion.errors@.len() && exists|m: TraitDef|
                    #[trigger] trait_model_of(t, m) && expansion_agrees(
                        Ok::<Expansion, AttrError>(x.expansion),
                        spec_dynosaur(attr, answers, m),
                    ) && x.expansion.text@ == text_trait(m) + x.expansion.generated@,
                _ => false,
            },
        },
    }
}

/// The expansion of the `dynosaur` attribute from its argument tokens and the
/// tokens of the item.
pub fn dynosaur_source(attr: &Vec<AttrToken>, item: proc_macro2::TokenStream) -> (r: Result<
    SourceExpansion,
    SourceError,
>)
    ensures
        exists|answers: Seq<bool>|
            answers_consistent(attr@, answers) && dynosaur_source_agrees(r, attr@, answers, item),
{
    let answers = ident_answers(attr);
    if let Err(e) = parse_dynosaur_attrs_with(attr, &answers) {
        return Err(SourceError::Attr(e));
    }
    let t = match parse_item_trait(item) {
        Ok(t) => t,
        Err(e) => return Err(SourceError::NotATrait(e)),
    };
    let model = trait_model(&t);
    match dynosaur_with(attr, &answers, &model) {
        Ok(expansion) => {
            let error_spans = error_spans(&t, &expansion.errors);
            let r = SourceExpansion { expansion, error_spans };
            proof {
                assert(expansion_agrees(
                    Ok::<Expansion, AttrError>(r.expansion),
                    spec_dynosaur(attr@, answers@, model),
                ) && r.expansion.text@ == text_trait(model) + r.expansion.generated@);
            }
            Ok(r)
        },
        Err(e) => Err(SourceError::Attr(e)),
    }
}

/// The expansion of `make_dyn`: its text, and what the text holds after the
/// trait as written.
pub struct MakeDynExpansion {
    pub text: String,
    pub generated: String,
}

/// What `make_dyn` makes of its raw input: a refused argument list is
/// reported first, and nothing else; an item that does not parse as a trait
/// is reported with `syn`'s error; otherwise the expansion is that of the
/// model of the trait that `syn` parsed.
pub open spec fn make_dyn_source_agrees(
    r: Result<MakeDynExpansion, SourceError>,
    attr: Seq<AttrToken>,
    item: proc_macro2::TokenStream,
) -> bool {
    match spec_make_dyn_attrs(attr) {
        Err(e) => match r {
            Err(SourceError::Attr(f)) => f == e,
            _ => false,
        },
        Ok(_) => match parse_result(item) {
            Err(pe) => r == Err::<MakeDynExpansion, SourceError>(SourceError::NotATrait(pe)),
            Ok(t) => match r {
                Ok(x) => exists|m: TraitDef|
                    #[trigger] trait_model_of(t, m) && spec_make_dyn(attr, m) == Ok::<
                        Seq<char>,
                        AttrError,
                    >(x.text@) && x.text@ == text_trait(m) + x.generated@,
                _ => false,
            },
        },
    }
}

/// The expansion of the `make_dyn` attribute from its argument tokens and the
/// tokens of the item.
pub fn make_dyn_source(attr: &Vec<AttrToken>, item: proc_macro2::TokenStream) -> (r: Result<
    MakeDynExpansion,
    SourceError,
>)
    ensures
        make_dyn_source_agrees(r, attr@, item),
{
    if let Err(e) = parse_make_dyn_attrs(attr) {
        return Err(SourceError::Attr(e));
    }
    let t = match parse_item_trait(item) {
        Ok(t) => t,
        Err(e) => return Err(SourceError::NotATrait(e)),
    };
    let model = trait_model(&t);
    match make_dyn(attr, &model) {
        Ok(text) => {
            let mut generated = " ".to_owned();
            let erased = mk_erased_trait(&model, false);
            generated.append(erased.as_str());
            proof {
                assert(spec_make_dyn(attr@, model) == Ok::<Seq<char>, AttrError>(text@));
                assert(text@ == text_trait(model) + generated@);
            }
            Ok(MakeDynExpansion { text, generated })
        },
        Err(e) => Err(SourceError::Attr(e)),
    }
}

} // verus!

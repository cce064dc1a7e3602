//! The expansion of `dynosaur`: the erased trait, its blanket impl for every
//! implementor of the trait, the `Dyn` struct that stands in for `dyn Trait`,
//! the struct's impl of the trait, and the struct's constructors, all in a
//! module of their own.
use crate::attrs::{
    answers_consistent, ident_answers, parse_dynosaur_attrs_with, spec_dynosaur_attrs, AttrError,
    AttrToken,
};
use crate::erase::{
    boxed_ret, erased_ident, is_boxed, render_boxed_ret, render_boxed_sig, mk_erased_trait,
    text_boxed_sig, text_erased_trait,
};
use crate::model::{ArgDef, GenericsDef, Pat, OutputDef, SigDef, TraitDef, ItemDef};
use crate::render::{
    render_generics, render_inputs, render_params, render_params_ordered, render_sig,
    render_sig_with, render_trait, text_generics, text_inputs, text_sig, text_sig_with, text_trait, texts_params,
    texts_params_ordered, ParamForm,
};
use crate::text::{angle, angle_strings, concat_vecs, join, join_strings, strs};
use vstd::prelude::*;
use vstd::string::StringExecFns;

verus! {

/// What stands for an argument whose pattern is not a plain binding.
pub open spec fn pattern_error() -> Seq<char> {
    "::core::compile_error! { \"patterns are not supported in arguments\" }"@
}

/// What stands for an item that is neither a constant, a method nor a type.
pub open spec fn unsupported_item() -> Seq<char> {
    "::core::compile_error! { \"unsupported item type\" }"@
}

/// The argument that forwards a typed input: the name of its binding.
pub open spec fn call_arg(p: Pat) -> Seq<char> {
    match p {
        Pat::Ident { name, .. } => name@,
        Pat::Other(_) => pattern_error(),
    }
}

/// The arguments that forward a method's typed inputs, in order; the receiver
/// is left out.
pub open spec fn call_args(args: Seq<ArgDef>) -> Seq<Seq<char>>
    decreases args.len(),
{
    if args.len() == 0 {
        Seq::empty()
    } else {
        let rest = call_args(args.drop_last());
        match args.last() {
            ArgDef::SelfArg(_) => rest,
            ArgDef::Typed { pat, .. } => rest.push(call_arg(pat)),
        }
    }
}

/// Whether a method has a receiver.
pub open spec fn has_receiver(args: Seq<ArgDef>) -> bool {
    exists|i: int| 0 <= i < args.len() && #[trigger] args[i] is SelfArg
}

/// Collects the arguments that forward a method's inputs: whether it has a
/// receiver, and one argument per typed input.
pub fn invoke_fn_args(sig: &SigDef) -> (r: (bool, Vec<String>))
    ensures
        r.0 == has_receiver(sig.inputs@),
        strs(r.1@) == call_args(sig.inputs@),
{
    let mut receiver = false;
    let mut args: Vec<String> = Vec::new();
    let n = sig.inputs.len();
    for i in 0..n
        invariant
            n == sig.inputs@.len(),
            receiver == exists|j: int| 0 <= j < i && #[trigger] sig.inputs@[j] is SelfArg,
            strs(args@) == call_args(sig.inputs@.take(i as int)),
    {
        proof {
            assert(sig.inputs@.take(i + 1).drop_last() =~= sig.inputs@.take(i as int));
        }
        match &sig.inputs[i] {
            ArgDef::SelfArg(_) => {
                receiver = true;
            },
            ArgDef::Typed { pat, .. } => {
                let ghost before = args@;
                match pat {
                    Pat::Ident { name, .. } => args.push(name.clone()),
                    Pat::Other(_) => args.push(
                        "::core::compile_error! { \"patterns are not supported in arguments\" }".to_owned(),
                    ),
                }
                proof {
                    assert(strs(args@) =~= strs(before).push(call_arg(*pat)));
                }
            },
        }
    }
    proof {
        assert(sig.inputs@.take(n as int) =~= sig.inputs@);
    }
    (receiver, args)
}

/// A part of the trait that the expansion cannot forward; where it stands,
/// the generated code holds a `compile_error!` instead.
#[derive(PartialEq, Eq, Structural, Clone, Copy, Debug)]
pub enum SyntaxError {
    /// Input `input` of the method that is item `item` binds its argument by
    /// a pattern other than a plain binding.
    PatternNotSupported { item: usize, input: usize },
    /// Item `item` is neither a constant, a method nor a type.
    UnsupportedItem { item: usize },
}

/// The inputs of the method that is item `item` whose patterns cannot be
/// forwarded, in order.
pub open spec fn input_errors(item: usize, args: Seq<ArgDef>) -> Seq<SyntaxError>
    decreases args.len(),
{
    if args.len() == 0 {
        Seq::empty()
    } else {
        let rest = input_errors(item, args.drop_last());
        if args.last() matches ArgDef::Typed { pat: Pat::Other(_), .. } {
            rest.push(SyntaxError::PatternNotSupported { item, input: (args.len() - 1) as usize })
        } else {
            rest
        }
    }
}

/// What the expansion cannot forward, item by item and, within a method,
/// input by input: the order in which the `compile_error!`s stand in the
/// blanket impl, and again in the `Dyn` struct's impl.
pub open spec fn syntax_errors(items: Seq<ItemDef>) -> Seq<SyntaxError>
    decreases items.len(),
{
    if items.len() == 0 {
        Seq::empty()
    } else {
        let rest = syntax_errors(items.drop_last());
        let i = (items.len() - 1) as usize;
        match items.last() {
            ItemDef::Fn { sig, .. } => rest + input_errors(i, sig.inputs@),
            ItemDef::Other(_) => rest.push(SyntaxError::UnsupportedItem { item: i }),
            _ => rest,
        }
    }
}

/// Lists the inputs of the method that is item `item` whose patterns cannot
/// be forwarded.
fn render_input_errors(item: usize, args: &Vec<ArgDef>) -> (r: Vec<SyntaxError>)
    ensures
        r@ == input_errors(item, args@),
{
    let mut r: Vec<SyntaxError> = Vec::new();
    let n = args.len();
    for j in 0..n
        invariant
            n == args@.len(),
            r@ == input_errors(item, args@.take(j as int)),
    {
        proof {
            assert(args@.take(j + 1).drop_last() =~= args@.take(j as int));
        }
        match &args[j] {
            ArgDef::Typed { pat: Pat::Other(_), .. } => {
                r.push(SyntaxError::PatternNotSupported { item, input: j });
            },
            _ => {},
        }
    }
    proof {
        assert(args@.take(n as int) =~= args@);
    }
    r
}

/// Lists what the expansion of the trait cannot forward.
pub fn unsupported_syntax(t: &TraitDef) -> (r: Vec<SyntaxError>)
    ensures
        r@ == syntax_errors(t.items@),
{
    let mut r: Vec<SyntaxError> = Vec::new();
    let n = t.items.len();
    for i in 0..n
        invariant
            n == t.items@.len(),
            r@ == syntax_errors(t.items@.take(i as int)),
    {
        proof {
            assert(t.items@.take(i + 1).drop_last() =~= t.items@.take(i as int));
        }
        match &t.items[i] {
            ItemDef::Fn { sig, .. } => {
                let mut e = render_input_errors(i, &sig.inputs);
                let ghost before = r@;
                let ghost added = e@;
                r.append(&mut e);
                proof {
                    assert(r@ =~= before + added);
                }
            },
            ItemDef::Other(_) => {
                r.push(SyntaxError::UnsupportedItem { item: i });
            },
            _ => {},
        }
    }
    proof {
        assert(t.items@.take(n as int) =~= t.items@);
    }
    r
}

/// How an associated type is listed among the `Dyn` struct's parameters.
#[derive(PartialEq, Eq, Structural, Clone, Copy)]
pub enum AssocForm {
    /// `Name`
    Name,
    /// `Name: Bounds`
    Bounded,
    /// `Name = Name`
    Binding,
}

/// An associated type in the given form.
pub open spec fn assoc_text(ident: Seq<char>, bounds: Seq<char>, form: AssocForm) -> Seq<char> {
    match form {
        AssocForm::Name => ident,
        AssocForm::Bounded => ident + ": "@ + bounds,
        AssocForm::Binding => ident + " = "@ + ident,
    }
}

/// The trait's associated types, in order, in the given form.
pub open spec fn assoc_texts(items: Seq<ItemDef>, form: AssocForm) -> Seq<Seq<char>>
    decreases items.len(),
{
    if items.len() == 0 {
        Seq::empty()
    } else {
        let rest = assoc_texts(items.drop_last(), form);
        match items.last() {
            ItemDef::Type { ident, bounds, .. } => rest.push(assoc_text(ident@, bounds@, form)),
            _ => rest,
        }
    }
}

/// The lifetime of the `Dyn` struct.
pub open spec fn struct_lifetime() -> Seq<char> {
    "'dynosaur_struct"@
}

/// The parameters of the `Dyn` struct as its type is written: its lifetime,
/// the trait's parameters, and one parameter per associated type.
pub open spec fn struct_params(t: TraitDef) -> Seq<char> {
    angle(
        seq![struct_lifetime()] + texts_params(t.generics.params@, ParamForm::Declared)
            + assoc_texts(t.items@, AssocForm::Name),
    )
}

/// The parameters of the `Dyn` struct as declared: as `struct_params`, each
/// associated type's parameter bounded as the associated type is.
pub open spec fn struct_with_bounds_params(t: TraitDef) -> Seq<char> {
    angle(
        seq![struct_lifetime()] + texts_params(t.generics.params@, ParamForm::Declared)
            + assoc_texts(t.items@, AssocForm::Bounded),
    )
}

/// The arguments of the trait inside `dyn`: its parameters, and each
/// associated type bound to the struct parameter of the same name; nothing
/// when there are none.
pub open spec fn trait_params(t: TraitDef) -> Seq<char> {
    angle(
        texts_params(t.generics.params@, ParamForm::Declared) + assoc_texts(
            t.items@,
            AssocForm::Binding,
        ),
    )
}

/// The three parameter lists of the `Dyn` struct.
pub struct StructTraitParams {
    pub struct_params: String,
    pub struct_with_bounds_params: String,
    pub trait_params: String,
}

/// Lists the trait's associated types in the given form.
pub fn render_assoc(items: &Vec<ItemDef>, form: AssocForm) -> (r: Vec<String>)
    ensures
        strs(r@) == assoc_texts(items@, form),
{
    let mut r: Vec<String> = Vec::new();
    let n = items.len();
    for i in 0..n
        invariant
            n == items@.len(),
            strs(r@) == assoc_texts(items@.take(i as int), form),
    {
        proof {
            assert(items@.take(i + 1).drop_last() =~= items@.take(i as int));
        }
        match &items[i] {
            ItemDef::Type { ident, bounds, .. } => {
                let ghost before = r@;
                let mut s = ident.clone();
                if form == AssocForm::Bounded {
                    s.append(": ");
                    s.append(bounds.as_str());
                } else if form == AssocForm::Binding {
                    s.append(" = ");
                    s.append(ident.as_str());
                }
                r.push(s);
                proof {
                    assert(strs(r@) =~= strs(before).push(assoc_text(ident@, bounds@, form)));
                }
            },
            _ => {},
        }
    }
    proof {
        assert(items@.take(n as int) =~= items@);
    }
    r
}

/// The entries of one of the `Dyn` struct's parameter lists: the struct's
/// lifetime when asked for, the trait's parameters, and its associated types
/// in the given form.
fn param_list(t: &TraitDef, with_lifetime: bool, form: AssocForm) -> (r: Vec<String>)
    ensures
        strs(r@) == (if with_lifetime {
            seq![struct_lifetime()]
        } else {
            Seq::empty()
        }) + texts_params(t.generics.params@, ParamForm::Declared) + assoc_texts(t.items@, form),
{
    let mut head: Vec<String> = Vec::new();
    if with_lifetime {
        head.push("'dynosaur_struct".to_owned());
    }
    proof {
        if with_lifetime {
            assert(strs(head@) =~= seq![struct_lifetime()]);
        } else {
            assert(strs(head@) =~= Seq::empty());
        }
    }
    let ps = render_params(&t.generics.params, ParamForm::Declared);
    let assoc = render_assoc(&t.items, form);
    concat_vecs(concat_vecs(head, ps), assoc)
}

/// Computes the three parameter lists of the `Dyn` struct.
pub fn struct_trait_params(t: &TraitDef) -> (r: StructTraitParams)
    ensures
        r.struct_params@ == struct_params(*t),
        r.struct_with_bounds_params@ == struct_with_bounds_params(*t),
        r.trait_params@ == trait_params(*t),
{
    let sp = param_list(t, true, AssocForm::Name);
    let sbp = param_list(t, true, AssocForm::Bounded);
    let tp = param_list(t, false, AssocForm::Binding);
    proof {
        assert(Seq::<Seq<char>>::empty() + texts_params(t.generics.params@, ParamForm::Declared)
            =~= texts_params(t.generics.params@, ParamForm::Declared));
    }
    StructTraitParams {
        struct_params: angle_strings(&sp),
        struct_with_bounds_params: angle_strings(&sbp),
        trait_params: angle_strings(&tp),
    }
}

/// The path prefix `<Self as Trait<Args>>::` that forwards to the trait.
pub open spec fn self_as(t: TraitDef) -> Seq<char> {
    "<Self as "@ + t.ident@ + text_generics(t.generics, ParamForm::Arg) + ">::"@
}

/// The arguments that forward a method's inputs, `self` first when it has a
/// receiver.
pub open spec fn self_args(sig: SigDef) -> Seq<Seq<char>> {
    if has_receiver(sig.inputs@) {
        seq!["self"@] + call_args(sig.inputs@)
    } else {
        call_args(sig.inputs@)
    }
}

/// A constant defined as the trait's constant of the same name.
pub open spec fn forward_const(ident: String, generics: GenericsDef, ty: String, qual: Seq<char>) -> Seq<
    char,
> {
    "const "@ + ident@ + text_generics(generics, ParamForm::Declared) + ": "@ + ty@ + " = "@ + qual
        + ident@ + ";"@
}

/// A method's signature in the erased trait.
pub open spec fn erased_sig(sig: SigDef) -> Seq<char> {
    if is_boxed(sig, true) {
        text_boxed_sig(sig, true)
    } else {
        text_sig(sig)
    }
}

/// An item of the blanket impl of the erased trait: constants and types are
/// those of the trait; a method calls the trait's method and boxes (pins) the
/// result.
pub open spec fn blanket_item(item: ItemDef, qual: Seq<char>) -> Seq<char> {
    match item {
        ItemDef::Const { ident, generics, ty, .. } => forward_const(ident, generics, ty, qual),
        ItemDef::Fn { sig, .. } => erased_sig(sig) + " { Box::pin("@ + qual + sig.ident@ + "("@
            + join(self_args(sig), ", "@) + ")) }"@,
        ItemDef::Type { ident, generics, .. } => "type "@ + ident@ + text_generics(
            generics,
            ParamForm::Impl,
        ) + " = "@ + qual + ident@ + text_generics(generics, ParamForm::Arg) + " "@
            + generics.where_clause@ + ";"@,
        ItemDef::Other(_) => unsupported_item(),
    }
}

/// Each item of the blanket impl.
pub open spec fn blanket_items(t: TraitDef) -> Seq<Seq<char>> {
    Seq::new(t.items@.len(), |i: int| blanket_item(t.items@[i], self_as(t)))
}

/// The blanket impl of the erased trait for every type `DYNOSAUR` that
/// implements the trait.
pub open spec fn text_blanket_impl(t: TraitDef) -> Seq<char> {
    "impl"@ + angle(
        texts_params_ordered(t.generics.params@, ParamForm::Impl).push(
            "DYNOSAUR: "@ + t.ident@ + text_generics(t.generics, ParamForm::Arg),
        ),
    ) + " "@ + erased_ident(t) + text_generics(t.generics, ParamForm::Arg) + " for DYNOSAUR "@
        + t.generics.where_clause@ + " { "@ + join(blanket_items(t), " "@) + " }"@
}

/// The `Dyn` struct: a transparent wrapper of `dyn` the erased trait.
pub open spec fn text_dyn_struct(name: Seq<char>, t: TraitDef) -> Seq<char> {
    "#[repr(transparent)] pub struct "@ + name + struct_with_bounds_params(t) + " { ptr: dyn "@
        + erased_ident(t) + trait_params(t) + " + 'dynosaur_struct }"@
}

/// A method's signature in the `Dyn` struct's impl of the trait: not `async`,
/// returning `impl` what the boxed result is a `dyn` of.
pub open spec fn struct_fn_sig(sig: SigDef) -> Seq<char> {
    text_sig_with(
        sig,
        false,
        text_generics(sig.generics, ParamForm::Declared),
        text_inputs(sig),
        " -> impl "@ + boxed_ret(sig, true),
    )
}

/// An item of the `Dyn` struct's impl of the trait: a method calls the erased
/// trait's method through the pointer and hands on the boxed result.
pub open spec fn struct_item(item: ItemDef, qual: Seq<char>) -> Seq<char> {
    match item {
        ItemDef::Const { ident, generics, ty, .. } => forward_const(ident, generics, ty, qual),
        ItemDef::Fn { sig, .. } => struct_fn_sig(sig) + " { let fut: ::core::pin::Pin<Box<dyn "@
            + boxed_ret(sig, true) + " + '_>> = self.ptr."@ + sig.ident@ + "("@ + join(
            call_args(sig.inputs@),
            ", "@,
        ) + "); let fut: ::core::pin::Pin<Box<dyn "@ + boxed_ret(sig, true)
            + " + 'static>> = unsafe { ::core::mem::transmute(fut) }; fut }"@,
        ItemDef::Type { ident, generics, .. } => "type "@ + ident@ + text_generics(
            generics,
            ParamForm::Impl,
        ) + " = "@ + ident@ + text_generics(generics, ParamForm::Arg) + " "@
            + generics.where_clause@ + ";"@,
        ItemDef::Other(_) => unsupported_item(),
    }
}

/// Each item of the `Dyn` struct's impl of the trait.
pub open spec fn struct_items(t: TraitDef) -> Seq<Seq<char>> {
    Seq::new(t.items@.len(), |i: int| struct_item(t.items@[i], self_as(t)))
}

/// The `Dyn` struct's impl of the trait.
pub open spec fn text_struct_impl(name: Seq<char>, t: TraitDef) -> Seq<char> {
    "impl"@ + struct_with_bounds_params(t) + " "@ + t.ident@ + text_generics(
        t.generics,
        ParamForm::Arg,
    ) + " for "@ + name + struct_params(t) + " "@ + t.generics.where_clause@ + " { "@ + join(
        struct_items(t),
        " "@,
    ) + " }"@
}

/// The `Dyn` struct's constructors `new`, `boxed`, `from_ref` and `from_mut`.
pub open spec fn text_inherent_impl(name: Seq<char>, t: TraitDef) -> Seq<char> {
    let ty = name + struct_params(t);
    let bound = t.ident@ + trait_params(t) + " + 'dynosaur_struct"@;
    let erased = erased_ident(t) + trait_params(t) + " + 'dynosaur_struct"@;
    "impl"@ + struct_with_bounds_params(t) + " "@ + ty + " { pub fn new(value: Box<impl "@ + bound
        + ">) -> Box<"@ + ty + "> { let value: Box<dyn "@ + erased
        + "> = value; unsafe { ::core::mem::transmute(value) } } pub fn boxed(value: impl "@
        + bound + ") -> Box<"@ + ty
        + "> { Self::new(Box::new(value)) } pub fn from_ref(value: &(impl "@ + bound + ")) -> & "@
        + ty + " { let value: &(dyn "@ + erased
        + ") = &*value; unsafe { ::core::mem::transmute(value) } } pub fn from_mut(value: &mut (impl "@
        + bound + ")) -> &mut "@ + ty + " { let value: &mut (dyn "@ + erased
        + ") = &mut *value; unsafe { ::core::mem::transmute(value) } } }"@
}

/// Prints `<Self as Trait<Args>>::`.
fn render_self_as(t: &TraitDef) -> (r: String)
    ensures
        r@ == self_as(*t),
{
    let mut r = "<Self as ".to_owned();
    r.append(t.ident.as_str());
    let g = render_generics(&t.generics, ParamForm::Arg);
    r.append(g.as_str());
    r.append(">::");
    r
}

/// Prints a constant defined as the trait's constant of the same name.
fn render_forward_const(ident: &String, generics: &GenericsDef, ty: &String, qual: &str) -> (r:
    String)
    ensures
        r@ == forward_const(*ident, *generics, *ty, qual@),
{
    let mut r = "const ".to_owned();
    r.append(ident.as_str());
    let g = render_generics(generics, ParamForm::Declared);
    r.append(g.as_str());
    r.append(": ");
    r.append(ty.as_str());
    r.append(" = ");
    r.append(qual);
    r.append(ident.as_str());
    r.append(";");
    r
}

/// Prints an associated type defined by the given path prefix.
fn render_forward_type(ident: &String, generics: &GenericsDef, qual: &str) -> (r: String)
    ensures
        r@ == "type "@ + ident@ + text_generics(*generics, ParamForm::Impl) + " = "@ + qual@
            + ident@ + text_generics(*generics, ParamForm::Arg) + " "@ + generics.where_clause@
            + ";"@,
{
    let mut r = "type ".to_owned();
    r.append(ident.as_str());
    let g = render_generics(generics, ParamForm::Impl);
    r.append(g.as_str());
    r.append(" = ");
    r.append(qual);
    r.append(ident.as_str());
    let a = render_generics(generics, ParamForm::Arg);
    r.append(a.as_str());
    r.append(" ");
    r.append(generics.where_clause.as_str());
    r.append(";");
    r
}

/// Prints a method's signature in the erased trait.
pub fn render_erased_sig(sig: &SigDef) -> (r: String)
    ensures
        r@ == erased_sig(*sig),
{
    let boxed = sig.asyncness || match &sig.output {
        OutputDef::ImplTrait(_) => true,
        _ => false,
    };
    if boxed {
        render_boxed_sig(sig, true)
    } else {
        render_sig(sig)
    }
}

/// Prints the arguments that forward a method's inputs, `self` first when it
/// has a receiver.
fn render_self_args(sig: &SigDef) -> (r: String)
    ensures
        r@ == join(self_args(*sig), ", "@),
{
    let (receiver, args) = invoke_fn_args(sig);
    if receiver {
        let mut first: Vec<String> = Vec::new();
        first.push("self".to_owned());
        proof {
            assert(strs(first@) =~= seq!["self"@]);
        }
        let all = concat_vecs(first, args);
        join_strings(&all, ", ")
    } else {
        join_strings(&args, ", ")
    }
}

/// Prints an item of the blanket impl of the erased trait.
pub fn render_blanket_item(item: &ItemDef, qual: &str) -> (r: String)
    ensures
        r@ == blanket_item(*item, qual@),
{
    match item {
        ItemDef::Const { ident, generics, ty, .. } => render_forward_const(
            ident,
            generics,
            ty,
            qual,
        ),
        ItemDef::Fn { sig, .. } => {
            let mut r = render_erased_sig(sig);
            r.append(" { Box::pin(");
            r.append(qual);
            r.append(sig.ident.as_str());
            r.append("(");
            let a = render_self_args(sig);
            r.append(a.as_str());
            r.append(")) }");
            r
        },
        ItemDef::Type { ident, generics, .. } => render_forward_type(ident, generics, qual),
        ItemDef::Other(_) => "::core::compile_error! { \"unsupported item type\" }".to_owned(),
    }
}

/// Prints the blanket impl of the erased trait for every implementor of the
/// trait.
pub fn mk_erased_trait_blanket_impl(t: &TraitDef) -> (r: String)
    ensures
        r@ == text_blanket_impl(*t),
{
    let qual = render_self_as(t);
    let mut items: Vec<String> = Vec::new();
    let n = t.items.len();
    for i in 0..n
        invariant
            n == t.items@.len(),
            qual@ == self_as(*t),
            items@.len() == i,
            forall|j: int|
                0 <= j < i ==> #[trigger] items@[j]@ == blanket_item(t.items@[j], self_as(*t)),
    {
        items.push(render_blanket_item(&t.items[i], qual.as_str()));
    }
    proof {
        assert(strs(items@) =~= blanket_items(*t));
    }
    let args = render_generics(&t.generics, ParamForm::Arg);
    let mut bound = "DYNOSAUR: ".to_owned();
    bound.append(t.ident.as_str());
    bound.append(args.as_str());
    let ps = render_params_ordered(&t.generics.params, ParamForm::Impl);
    let ghost before = ps@;
    let mut ps = ps;
    ps.push(bound);
    proof {
        assert(strs(ps@) =~= strs(before).push(
            "DYNOSAUR: "@ + t.ident@ + text_generics(t.generics, ParamForm::Arg),
        ));
    }
    let mut r = "impl".to_owned();
    let g = angle_strings(&ps);
    r.append(g.as_str());
    r.append(" ");
    r.append("Erased");
    r.append(t.ident.as_str());
    r.append(args.as_str());
    r.append(" for DYNOSAUR ");
    r.append(t.generics.where_clause.as_str());
    r.append(" { ");
    let body = join_strings(&items, " ");
    r.append(body.as_str());
    r.append(" }");
    r
}

/// Prints the `Dyn` struct named `name`.
pub fn mk_dyn_struct(name: &str, t: &TraitDef) -> (r: String)
    ensures
        r@ == text_dyn_struct(name@, *t),
{
    let p = struct_trait_params(t);
    let mut r = "#[repr(transparent)] pub struct ".to_owned();
    r.append(name);
    r.append(p.struct_with_bounds_params.as_str());
    r.append(" { ptr: dyn ");
    r.append("Erased");
    r.append(t.ident.as_str());
    r.append(p.trait_params.as_str());
    r.append(" + 'dynosaur_struct }");
    r
}

/// Prints a method's signature in the `Dyn` struct's impl of the trait.
fn render_struct_fn_sig(sig: &SigDef) -> (r: String)
    ensures
        r@ == struct_fn_sig(*sig),
{
    let g = render_generics(&sig.generics, ParamForm::Declared);
    let i = render_inputs(sig);
    let mut o = " -> impl ".to_owned();
    let ret = render_boxed_ret(sig, true);
    o.append(ret.as_str());
    render_sig_with(sig, false, g.as_str(), i.as_str(), o.as_str())
}

/// Prints an item of the `Dyn` struct's impl of the trait.
pub fn render_struct_item(item: &ItemDef, qual: &str) -> (r: String)
    ensures
        r@ == struct_item(*item, qual@),
{
    match item {
        ItemDef::Const { ident, generics, ty, .. } => render_forward_const(
            ident,
            generics,
            ty,
            qual,
        ),
        ItemDef::Fn { sig, .. } => {
            let ret = render_boxed_ret(sig, true);
            let (_, args) = invoke_fn_args(sig);
            let args = join_strings(&args, ", ");
            let mut r = render_struct_fn_sig(sig);
            r.append(" { let fut: ::core::pin::Pin<Box<dyn ");
            r.append(ret.as_str());
            r.append(" + '_>> = self.ptr.");
            r.append(sig.ident.as_str());
            r.append("(");
            r.append(args.as_str());
            r.append("); let fut: ::core::pin::Pin<Box<dyn ");
            r.append(ret.as_str());
            r.append(" + 'static>> = unsafe { ::core::mem::transmute(fut) }; fut }");
            r
        },
        ItemDef::Type { ident, generics, .. } => {
            let r = render_forward_type(ident, generics, "");
            proof {
                reveal_strlit("");
                assert(r@ =~= struct_item(*item, qual@));
            }
            r
        },
        ItemDef::Other(_) => "::core::compile_error! { \"unsupported item type\" }".to_owned(),
    }
}

/// Prints the `Dyn` struct's impl of the trait.
pub fn mk_dyn_struct_impl_item(name: &str, t: &TraitDef) -> (r: String)
    ensures
        r@ == text_struct_impl(name@, *t),
{
    let qual = render_self_as(t);
    let mut items: Vec<String> = Vec::new();
    let n = t.items.len();
    for i in 0..n
        invariant
            n == t.items@.len(),
            qual@ == self_as(*t),
            items@.len() == i,
            forall|j: int|
                0 <= j < i ==> #[trigger] items@[j]@ == struct_item(t.items@[j], self_as(*t)),
    {
        items.push(render_struct_item(&t.items[i], qual.as_str()));
    }
    proof {
        assert(strs(items@) =~= struct_items(*t));
    }
    let p = struct_trait_params(t);
    let mut r = "impl".to_owned();
    r.append(p.struct_with_bounds_params.as_str());
    r.append(" ");
    r.append(t.ident.as_str());
    let args = render_generics(&t.generics, ParamForm::Arg);
    r.append(args.as_str());
    r.append(" for ");
    r.append(name);
    r.append(p.struct_params.as_str());
    r.append(" ");
    r.append(t.generics.where_clause.as_str());
    r.append(" { ");
    let body = join_strings(&items, " ");
    r.append(body.as_str());
    r.append(" }");
    r
}

/// Prints the `Dyn` struct's constructors.
pub fn mk_struct_inherent_impl(name: &str, t: &TraitDef) -> (r: String)
    ensures
        r@ == text_inherent_impl(name@, *t),
{
    let p = struct_trait_params(t);
    let mut ty = name.to_owned();
    ty.append(p.struct_params.as_str());
    let mut bound = t.ident.clone();
    bound.append(p.trait_params.as_str());
    bound.append(" + 'dynosaur_struct");
    let mut erased = "Erased".to_owned();
    erased.append(t.ident.as_str());
    erased.append(p.trait_params.as_str());
    erased.append(" + 'dynosaur_struct");
    let mut r = "impl".to_owned();
    r.append(p.struct_with_bounds_params.as_str());
    r.append(" ");
    r.append(ty.as_str());
    r.append(" { pub fn new(value: Box<impl ");
    r.append(bound.as_str());
    r.append(">) -> Box<");
    r.append(ty.as_str());
    r.append("> { let value: Box<dyn ");
    r.append(erased.as_str());
    r.append("> = value; unsafe { ::core::mem::transmute(value) } } pub fn boxed(value: impl ");
    r.append(bound.as_str());
    r.append(") -> Box<");
    r.append(ty.as_str());
    r.append("> { Self::new(Box::new(value)) } pub fn from_ref(value: &(impl ");
    r.append(bound.as_str());
    r.append(")) -> & ");
    r.append(ty.as_str());
    r.append(" { let value: &(dyn ");
    r.append(erased.as_str());
    r.append(") = &*value; unsafe { ::core::mem::transmute(value) } } pub fn from_mut(value: &mut (impl ");
    r.append(bound.as_str());
    r.append(")) -> &mut ");
    r.append(ty.as_str());
    r.append(" { let value: &mut (dyn ");
    r.append(erased.as_str());
    r.append(") = &mut *value; unsafe { ::core::mem::transmute(value) } } }");
    r
}

/// What `str::to_lowercase` returns for a string: its lowercase equivalent.
pub uninterp spec fn str_lowercase(s: Seq<char>) -> Seq<char>;

/// Whether every character is ASCII.
pub open spec fn all_ascii(s: Seq<char>) -> bool {
    forall|i: int| 0 <= i < s.len() ==> (#[trigger] s[i] as u32) < 128
}

/// ASCII lowercasing: `A` to `Z` become `a` to `z`, the rest stays.
pub open spec fn ascii_lowercase(s: Seq<char>) -> Seq<char> {
    Seq::new(
        s.len(),
        |i: int|
            if 65 <= (s[i] as u32) <= 90 {
                ((s[i] as u32) + 32) as char
            } else {
                s[i]
            },
    )
}

/// Calls `str::to_lowercase`. Its result is named `str_lowercase`; on ASCII
/// text, which the documentation's Unicode lowercase mapping sends to ASCII
/// lowercase, it is stated.
#[verifier::external_body]
fn to_lowercase(s: &str) -> (r: String)
    ensures
        r@ == str_lowercase(s@),
        all_ascii(s@) ==> r@ == ascii_lowercase(s@),
{
    s.to_lowercase()
}

/// A name in lower case: ASCII lowercasing for an ASCII name, else what
/// `str::to_lowercase` gives.
pub open spec fn lowercase(s: Seq<char>) -> Seq<char> {
    if all_ascii(s) {
        ascii_lowercase(s)
    } else {
        str_lowercase(s)
    }
}

/// The module that holds the generated items: `_dynosaur_macro_` and the
/// struct's name in lower case.
pub open spec fn module_name(name: Seq<char>) -> Seq<char> {
    "_dynosaur_macro_"@ + lowercase(name)
}

/// Prints the name of the module that holds the generated items.
pub fn dynosaur_module_name(name: &str) -> (r: String)
    ensures
        r@ == module_name(name@),
{
    let mut r = "_dynosaur_macro_".to_owned();
    let lower = to_lowercase(name);
    r.append(lower.as_str());
    r
}

/// What `dynosaur` generates after the trait, for struct name `name`: a
/// module holding the erased trait, its blanket impl, the `Dyn` struct, the
/// struct's impl of the trait and its constructors, and an import of the
/// struct.
pub open spec fn text_dynosaur_generated(name: Seq<char>, t: TraitDef) -> Seq<char> {
    " mod "@ + module_name(name) + " { use super::*; "@ + text_erased_trait(t, true) + " "@
        + text_blanket_impl(t) + " "@ + text_dyn_struct(name, t) + " "@ + text_struct_impl(name, t)
        + " "@ + text_inherent_impl(name, t) + " } use "@ + module_name(name) + "::"@ + name + ";"@
}

/// The full expansion of `dynosaur` with struct name `name`: the trait as
/// written, then what is generated for it.
pub open spec fn text_dynosaur_expansion(name: Seq<char>, t: TraitDef) -> Seq<char> {
    text_trait(t) + text_dynosaur_generated(name, t)
}

/// The expansion of `dynosaur`, given `syn`'s answers for the attribute's
/// tokens: when the attribute names another trait than this one
/// (`Name = dyn Other`), the trait as written and nothing to report;
/// otherwise the full expansion, and what it cannot forward.
pub open spec fn spec_dynosaur(attr: Seq<AttrToken>, answers: Seq<bool>, t: TraitDef) -> Result<
    (Seq<char>, Seq<SyntaxError>),
    AttrError,
> {
    match spec_dynosaur_attrs(attr, answers) {
        Err(e) => Err(e),
        Ok((name, target)) => if target matches Some(other) && other != t.ident@ {
            Ok((text_trait(t), Seq::empty()))
        } else {
            Ok((text_dynosaur_expansion(name, t), syntax_errors(t.items@)))
        },
    }
}

/// An expansion: its source text, and the inputs and items that stand in it
/// as `compile_error!`s, in the order of `syntax_errors`.
pub struct Expansion {
    pub text: String,
    /// What the text holds after the trait as written.
    pub generated: String,
    pub errors: Vec<SyntaxError>,
}

/// Whether an expansion agrees with its model.
pub open spec fn expansion_agrees(
    r: Result<Expansion, AttrError>,
    m: Result<(Seq<char>, Seq<SyntaxError>), AttrError>,
) -> bool {
    match (r, m) {
        (Ok(x), Ok((text, errors))) => x.text@ == text && x.errors@ == errors,
        (Err(e), Err(f)) => e == f,
        _ => false,
    }
}

/// The expansion of the `dynosaur` attribute, given its argument list and the
/// trait; `syn` is asked about the identifiers in the argument list.
pub fn dynosaur(attr: &Vec<AttrToken>, item: &TraitDef) -> (r: Result<Expansion, AttrError>)
    ensures
        exists|answers: Seq<bool>|
            answers_consistent(attr@, answers) && expansion_agrees(
                r,
                spec_dynosaur(attr@, answers, *item),
            ),
        r matches Ok(x) ==> x.text@ == text_trait(*item) + x.generated@,
{
    let answers = ident_answers(attr);
    dynosaur_with(attr, &answers, item)
}

/// The expansion of the `dynosaur` attribute, given its argument list, `syn`'s
/// answers for the argument list's tokens, and the trait.
pub fn dynosaur_with(attr: &Vec<AttrToken>, answers: &Vec<bool>, item: &TraitDef) -> (r: Result<
    Expansion,
    AttrError,
>)
    ensures
        expansion_agrees(r, spec_dynosaur(attr@, answers@, *item)),
        r matches Ok(x) ==> x.text@ == text_trait(*item) + x.generated@,
{
    let attrs = match parse_dynosaur_attrs_with(attr, answers) {
        Ok(a) => a,
        Err(e) => return Err(e),
    };
    let passes = match &attrs.target {
        Some(other) => *other != item.ident,
        None => false,
    };
    let mut head = render_trait(item);
    if passes {
        let generated = String::new();
        proof {
            assert(head@ =~= head@ + generated@);
        }
        return Ok(Expansion { text: head, generated, errors: Vec::new() });
    }
    let name = attrs.ident.as_str();
    let module = dynosaur_module_name(name);
    let mut r = " mod ".to_owned();
    r.append(module.as_str());
    r.append(" { use super::*; ");
    let erased = mk_erased_trait(item, true);
    r.append(erased.as_str());
    r.append(" ");
    let blanket = mk_erased_trait_blanket_impl(item);
    r.append(blanket.as_str());
    r.append(" ");
    let st = mk_dyn_struct(name, item);
    r.append(st.as_str());
    r.append(" ");
    let imp = mk_dyn_struct_impl_item(name, item);
    r.append(imp.as_str());
    r.append(" ");
    let inh = mk_struct_inherent_impl(name, item);
    r.append(inh.as_str());
    r.append(" } use ");
    r.append(module.as_str());
    r.append("::");
    r.append(name);
    r.append(";");
    head.append(r.as_str());
    Ok(Expansion { text: head, generated: r, errors: unsupported_syntax(item) })
}

} // verus!

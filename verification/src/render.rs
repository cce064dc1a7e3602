//! The source text of the model: generic parameters in their three printed
//! forms, signatures, trait items and whole traits.
use crate::model::{
    ArgDef, ParamDef, GenericsDef, Pat, ReceiverDef, OutputDef, SigDef, TraitDef, ItemDef,
};
use crate::text::{
    angle, angle_strings, concat_vecs, flag, join, join_strings, nonempty_text, opt_text, push_flag, push_nonempty,
    push_opt, strs,
};
use vstd::prelude::*;
use vstd::string::StringExecFns;

verus! {

/// A generic parameter as declared, bounds and default included.
pub open spec fn text_param(p: ParamDef) -> Seq<char> {
    match p {
        ParamDef::Lifetime { attrs, lifetime, bounds } => attrs@ + " "@ + lifetime@
            + nonempty_text(": "@, bounds@),
        ParamDef::Type { attrs, ident, bounds, default } => attrs@ + " "@ + ident@
            + nonempty_text(": "@, bounds@) + opt_text(" = "@, default),
        ParamDef::Const { attrs, ident, ty, default } => attrs@ + " const "@ + ident@ + ": "@
            + ty@ + opt_text(" = "@, default),
    }
}

/// A generic parameter as an impl declares it: without its default.
pub open spec fn text_param_impl(p: ParamDef) -> Seq<char> {
    match p {
        ParamDef::Lifetime { attrs, lifetime, bounds } => attrs@ + " "@ + lifetime@
            + nonempty_text(": "@, bounds@),
        ParamDef::Type { attrs, ident, bounds, default } => attrs@ + " "@ + ident@
            + nonempty_text(": "@, bounds@),
        ParamDef::Const { attrs, ident, ty, default } => attrs@ + " const "@ + ident@ + ": "@
            + ty@,
    }
}

/// A generic parameter as an argument: its name alone.
pub open spec fn text_param_arg(p: ParamDef) -> Seq<char> {
    match p {
        ParamDef::Lifetime { lifetime, .. } => lifetime@,
        ParamDef::Type { ident, .. } => ident@,
        ParamDef::Const { ident, .. } => ident@,
    }
}

/// Which of the three forms a parameter is printed in.
#[derive(PartialEq, Eq, Structural, Clone, Copy)]
pub enum ParamForm {
    Declared,
    Impl,
    Arg,
}

/// A generic parameter printed in the given form.
pub open spec fn text_param_in(p: ParamDef, form: ParamForm) -> Seq<char> {
    match form {
        ParamForm::Declared => text_param(p),
        ParamForm::Impl => text_param_impl(p),
        ParamForm::Arg => text_param_arg(p),
    }
}

/// Each parameter printed in the given form.
pub open spec fn texts_params(ps: Seq<ParamDef>, form: ParamForm) -> Seq<Seq<char>> {
    Seq::new(ps.len(), |i: int| text_param_in(ps[i], form))
}

/// The lifetime parameters (with `lifetimes`) or the other parameters (without),
/// in order, each printed in the given form.
pub open spec fn texts_params_kind(ps: Seq<ParamDef>, form: ParamForm, lifetimes: bool) -> Seq<
    Seq<char>,
>
    decreases ps.len(),
{
    if ps.len() == 0 {
        Seq::empty()
    } else {
        let rest = texts_params_kind(ps.drop_last(), form, lifetimes);
        if (ps.last() is Lifetime) == lifetimes {
            rest.push(text_param_in(ps.last(), form))
        } else {
            rest
        }
    }
}

/// The parameters printed in the given form, lifetimes first, each group in
/// declaration order.
pub open spec fn texts_params_ordered(ps: Seq<ParamDef>, form: ParamForm) -> Seq<Seq<char>> {
    texts_params_kind(ps, form, true) + texts_params_kind(ps, form, false)
}

/// The parameter list in the given form, lifetimes first: `<...>`, or nothing
/// when empty.
pub open spec fn text_generics(g: GenericsDef, form: ParamForm) -> Seq<char> {
    angle(texts_params_ordered(g.params@, form))
}

/// Prints one generic parameter in the given form.
pub fn render_param(p: &ParamDef, form: ParamForm) -> (r: String)
    ensures
        r@ == text_param_in(*p, form),
{
    let mut r = String::new();
    match p {
        ParamDef::Lifetime { attrs, lifetime, bounds } => {
            if form == ParamForm::Arg {
                r.append(lifetime.as_str());
            } else {
                r.append(attrs.as_str());
                r.append(" ");
                r.append(lifetime.as_str());
                push_nonempty(&mut r, ": ", bounds);
            }
        },
        ParamDef::Type { attrs, ident, bounds, default } => {
            if form == ParamForm::Arg {
                r.append(ident.as_str());
            } else {
                r.append(attrs.as_str());
                r.append(" ");
                r.append(ident.as_str());
                push_nonempty(&mut r, ": ", bounds);
                if form == ParamForm::Declared {
                    push_opt(&mut r, " = ", default);
                }
            }
        },
        ParamDef::Const { attrs, ident, ty, default } => {
            if form == ParamForm::Arg {
                r.append(ident.as_str());
            } else {
                r.append(attrs.as_str());
                r.append(" const ");
                r.append(ident.as_str());
                r.append(": ");
                r.append(ty.as_str());
                if form == ParamForm::Declared {
                    push_opt(&mut r, " = ", default);
                }
            }
        },
    }
    r
}

/// Prints each parameter in the given form.
pub fn render_params(ps: &Vec<ParamDef>, form: ParamForm) -> (r: Vec<String>)
    ensures
        strs(r@) == texts_params(ps@, form),
{
    let mut r: Vec<String> = Vec::new();
    let n = ps.len();
    for i in 0..n
        invariant
            n == ps@.len(),
            r@.len() == i,
            forall|j: int| 0 <= j < i ==> #[trigger] r@[j]@ == text_param_in(ps@[j], form),
    {
        r.push(render_param(&ps[i], form));
    }
    proof {
        assert(strs(r@) =~= texts_params(ps@, form));
    }
    r
}

/// Prints the lifetime parameters (with `lifetimes`) or the other parameters
/// (without), in order, in the given form.
pub fn render_params_kind(ps: &Vec<ParamDef>, form: ParamForm, lifetimes: bool) -> (r: Vec<
    String,
>)
    ensures
        strs(r@) == texts_params_kind(ps@, form, lifetimes),
{
    let mut r: Vec<String> = Vec::new();
    let n = ps.len();
    for i in 0..n
        invariant
            n == ps@.len(),
            strs(r@) == texts_params_kind(ps@.take(i as int), form, lifetimes),
    {
        proof {
            assert(ps@.take(i + 1).drop_last() =~= ps@.take(i as int));
        }
        let is_lifetime = match &ps[i] {
            ParamDef::Lifetime { .. } => true,
            _ => false,
        };
        if is_lifetime == lifetimes {
            let ghost before = r@;
            r.push(render_param(&ps[i], form));
            proof {
                assert(strs(r@) =~= strs(before).push(text_param_in(ps@[i as int], form)));
            }
        }
    }
    proof {
        assert(ps@.take(n as int) =~= ps@);
    }
    r
}

/// Prints the parameters in the given form, lifetimes first.
pub fn render_params_ordered(ps: &Vec<ParamDef>, form: ParamForm) -> (r: Vec<String>)
    ensures
        strs(r@) == texts_params_ordered(ps@, form),
{
    let l = render_params_kind(ps, form, true);
    let o = render_params_kind(ps, form, false);
    concat_vecs(l, o)
}

/// Prints the parameter list in the given form, lifetimes first.
pub fn render_generics(g: &GenericsDef, form: ParamForm) -> (r: String)
    ensures
        r@ == text_generics(*g, form),
{
    let ps = render_params_ordered(&g.params, form);
    angle_strings(&ps)
}

/// A method input; with `add_lifetime`, an elided receiver reference is
/// printed with the lifetime `lifetime`.
pub open spec fn text_arg_with(a: ArgDef, add_lifetime: bool, lifetime: Seq<char>) -> Seq<char> {
    match a {
        ArgDef::SelfArg(rcv) => if add_lifetime && rcv.reference matches Some(None) {
            text_receiver(rcv, "&"@ + lifetime + " "@)
        } else {
            text_receiver(rcv, text_ref_part(rcv.reference))
        },
        ArgDef::Typed { attrs, pat, ty } => attrs@ + " "@ + text_pat(pat) + ": "@ + ty@,
    }
}

/// A method input.
pub open spec fn text_arg(a: ArgDef) -> Seq<char> {
    text_arg_with(a, false, Seq::empty())
}

/// A pattern.
pub open spec fn text_pat(p: Pat) -> Seq<char> {
    match p {
        Pat::Ident { binding, .. } => binding@,
        Pat::Other(t) => t@,
    }
}

/// The reference part of a receiver: `&`, its lifetime, or nothing.
pub open spec fn text_ref_part(reference: Option<Option<String>>) -> Seq<char> {
    match reference {
        Some(lt) => "&"@ + opt_text(""@, lt) + " "@,
        None => Seq::empty(),
    }
}

/// A receiver, printed with the given reference part.
pub open spec fn text_receiver(rcv: ReceiverDef, ref_part: Seq<char>) -> Seq<char> {
    rcv.attrs@ + " "@ + ref_part + flag(rcv.mutability, "mut"@) + "self"@ + opt_text(
        ": "@,
        rcv.ty,
    )
}

/// Each input.
pub open spec fn texts_args_with(args: Seq<ArgDef>, add_lifetime: bool, lifetime: Seq<char>) -> Seq<
    Seq<char>,
> {
    Seq::new(args.len(), |i: int| text_arg_with(args[i], add_lifetime, lifetime))
}

/// The variadic part of the inputs.
pub open spec fn text_variadic(sig: SigDef) -> Seq<char> {
    match sig.variadic {
        Some(v) => if sig.inputs@.len() == 0 {
            v@
        } else {
            ", "@ + v@
        },
        None => Seq::empty(),
    }
}

/// The inputs between the parentheses, the variadic part last.
pub open spec fn text_inputs_with(sig: SigDef, add_lifetime: bool, lifetime: Seq<char>) -> Seq<
    char,
> {
    join(texts_args_with(sig.inputs@, add_lifetime, lifetime), ", "@) + text_variadic(sig)
}

/// The inputs between the parentheses.
pub open spec fn text_inputs(sig: SigDef) -> Seq<char> {
    text_inputs_with(sig, false, Seq::empty())
}

/// The return type: nothing, ` -> T` or ` -> impl Bounds`.
pub open spec fn text_output(o: OutputDef) -> Seq<char> {
    match o {
        OutputDef::Default => Seq::empty(),
        OutputDef::Type(t) => " -> "@ + t@,
        OutputDef::ImplTrait(b) => " -> impl "@ + b@,
    }
}

/// A signature with the given asyncness, parameter list, inputs and return
/// type in place of its own.
pub open spec fn text_sig_with(
    sig: SigDef,
    asyncness: bool,
    generics: Seq<char>,
    inputs: Seq<char>,
    output: Seq<char>,
) -> Seq<char> {
    flag(sig.constness, "const"@) + flag(asyncness, "async"@) + flag(sig.unsafety, "unsafe"@)
        + sig.abi@ + " fn "@ + sig.ident@ + generics + "("@ + inputs + ")"@ + output + " "@
        + sig.generics.where_clause@
}

/// A signature.
pub open spec fn text_sig(sig: SigDef) -> Seq<char> {
    text_sig_with(
        sig,
        sig.asyncness,
        text_generics(sig.generics, ParamForm::Declared),
        text_inputs(sig),
        text_output(sig.output),
    )
}

/// Prints a receiver with the given reference part.
pub fn render_receiver(rcv: &ReceiverDef, ref_part: &str) -> (r: String)
    ensures
        r@ == text_receiver(*rcv, ref_part@),
{
    let mut r = rcv.attrs.clone();
    r.append(" ");
    r.append(ref_part);
    push_flag(&mut r, rcv.mutability, "mut");
    r.append("self");
    push_opt(&mut r, ": ", &rcv.ty);
    r
}

/// Prints the reference part of a receiver.
pub fn render_ref_part(reference: &Option<Option<String>>) -> (r: String)
    ensures
        r@ == text_ref_part(*reference),
{
    match reference {
        Some(lt) => {
            let mut r = "&".to_owned();
            push_opt(&mut r, "", lt);
            r.append(" ");
            r
        },
        None => String::new(),
    }
}

/// Prints one input; with `add_lifetime`, an elided receiver reference gets
/// the lifetime `lifetime`.
pub fn render_arg_with(a: &ArgDef, add_lifetime: bool, lifetime: &str) -> (r: String)
    ensures
        r@ == text_arg_with(*a, add_lifetime, lifetime@),
{
    match a {
        ArgDef::SelfArg(rcv) => {
            let elided = match &rcv.reference {
                Some(None) => true,
                _ => false,
            };
            if add_lifetime && elided {
                let mut p = "&".to_owned();
                p.append(lifetime);
                p.append(" ");
                render_receiver(rcv, p.as_str())
            } else {
                let p = render_ref_part(&rcv.reference);
                render_receiver(rcv, p.as_str())
            }
        },
        ArgDef::Typed { attrs, pat, ty } => {
            let mut r = attrs.clone();
            r.append(" ");
            match pat {
                Pat::Ident { binding, .. } => r.append(binding.as_str()),
                Pat::Other(t) => r.append(t.as_str()),
            }
            r.append(": ");
            r.append(ty.as_str());
            r
        },
    }
}

/// Prints the inputs between the parentheses; with `add_lifetime`, an elided
/// receiver reference gets the lifetime `lifetime`.
pub fn render_inputs_with(sig: &SigDef, add_lifetime: bool, lifetime: &str) -> (r: String)
    ensures
        r@ == text_inputs_with(*sig, add_lifetime, lifetime@),
{
    let mut parts: Vec<String> = Vec::new();
    let n = sig.inputs.len();
    for i in 0..n
        invariant
            n == sig.inputs@.len(),
            parts@.len() == i,
            forall|j: int|
                0 <= j < i ==> #[trigger] parts@[j]@ == text_arg_with(
                    sig.inputs@[j],
                    add_lifetime,
                    lifetime@,
                ),
    {
        parts.push(render_arg_with(&sig.inputs[i], add_lifetime, lifetime));
    }
    proof {
        assert(strs(parts@) =~= texts_args_with(sig.inputs@, add_lifetime, lifetime@));
    }
    let mut r = join_strings(&parts, ", ");
    match &sig.variadic {
        Some(v) => {
            if n > 0 {
                r.append(", ");
            }
            r.append(v.as_str());
        },
        None => {},
    }
    r
}

/// Prints a return type.
pub fn render_output(o: &OutputDef) -> (r: String)
    ensures
        r@ == text_output(*o),
{
    match o {
        OutputDef::Default => String::new(),
        OutputDef::Type(t) => {
            let mut r = " -> ".to_owned();
            r.append(t.as_str());
            r
        },
        OutputDef::ImplTrait(b) => {
            let mut r = " -> impl ".to_owned();
            r.append(b.as_str());
            r
        },
    }
}

/// Prints a signature with the given asyncness, parameter list, inputs and
/// return type in place of its own.
pub fn render_sig_with(
    sig: &SigDef,
    asyncness: bool,
    generics: &str,
    inputs: &str,
    output: &str,
) -> (r: String)
    ensures
        r@ == text_sig_with(*sig, asyncness, generics@, inputs@, output@),
{
    let mut r = String::new();
    push_flag(&mut r, sig.constness, "const");
    push_flag(&mut r, asyncness, "async");
    push_flag(&mut r, sig.unsafety, "unsafe");
    r.append(sig.abi.as_str());
    r.append(" fn ");
    r.append(sig.ident.as_str());
    r.append(generics);
    r.append("(");
    r.append(inputs);
    r.append(")");
    r.append(output);
    r.append(" ");
    r.append(sig.generics.where_clause.as_str());
    r
}

/// Prints the inputs between the parentheses.
pub fn render_inputs(sig: &SigDef) -> (r: String)
    ensures
        r@ == text_inputs(*sig),
{
    let r = render_inputs_with(sig, false, "");
    proof {
        assert(texts_args_with(sig.inputs@, false, ""@) =~= texts_args_with(
            sig.inputs@,
            false,
            Seq::empty(),
        ));
    }
    r
}

/// Prints a signature.
pub fn render_sig(sig: &SigDef) -> (r: String)
    ensures
        r@ == text_sig(*sig),
{
    let g = render_generics(&sig.generics, ParamForm::Declared);
    let i = render_inputs(sig);
    let o = render_output(&sig.output);
    render_sig_with(sig, sig.asyncness, g.as_str(), i.as_str(), o.as_str())
}

/// A trait item.
pub open spec fn text_item(item: ItemDef) -> Seq<char> {
    match item {
        ItemDef::Const { attrs, ident, generics, ty, default } => attrs@ + " const "@ + ident@
            + ": "@ + ty@ + opt_text(" = "@, default) + ";"@,
        ItemDef::Fn { attrs, sig, default } => attrs@ + " "@ + text_sig(sig) + match default {
            Some(b) => " "@ + b@,
            None => ";"@,
        },
        ItemDef::Type { attrs, ident, generics, bounds, default } => attrs@ + " type "@ + ident@
            + text_generics(generics, ParamForm::Declared) + nonempty_text(": "@, bounds@)
            + opt_text(" = "@, default) + " "@ + generics.where_clause@ + ";"@,
        ItemDef::Other(t) => t@,
    }
}

/// Each item of a trait.
pub open spec fn texts_items(items: Seq<ItemDef>) -> Seq<Seq<char>> {
    Seq::new(items.len(), |i: int| text_item(items[i]))
}

/// A trait with the given name and item texts in place of its own.
pub open spec fn text_trait_with(t: TraitDef, ident: Seq<char>, items: Seq<Seq<char>>) -> Seq<
    char,
> {
    t.attrs@ + " "@ + t.vis@ + " "@ + flag(t.unsafety, "unsafe"@) + flag(t.auto, "auto"@)
        + "trait "@ + ident + text_generics(t.generics, ParamForm::Declared) + nonempty_text(
        ": "@,
        t.supertraits@,
    ) + " "@ + t.generics.where_clause@ + " { "@ + t.inner_attrs@ + " "@ + join(items, " "@)
        + " }"@
}

/// A trait, as written.
pub open spec fn text_trait(t: TraitDef) -> Seq<char> {
    text_trait_with(t, t.ident@, texts_items(t.items@))
}

/// Prints a trait item.
pub fn render_item(item: &ItemDef) -> (r: String)
    ensures
        r@ == text_item(*item),
{
    match item {
        ItemDef::Const { attrs, ident, generics, ty, default } => {
            let mut r = attrs.clone();
            r.append(" const ");
            r.append(ident.as_str());
            r.append(": ");
            r.append(ty.as_str());
            push_opt(&mut r, " = ", default);
            r.append(";");
            r
        },
        ItemDef::Fn { attrs, sig, default } => {
            let mut r = attrs.clone();
            r.append(" ");
            let s = render_sig(sig);
            r.append(s.as_str());
            match default {
                Some(b) => {
                    r.append(" ");
                    r.append(b.as_str());
                },
                None => r.append(";"),
            }
            r
        },
        ItemDef::Type { attrs, ident, generics, bounds, default } => {
            let mut r = attrs.clone();
            r.append(" type ");
            r.append(ident.as_str());
            let g = render_generics(generics, ParamForm::Declared);
            r.append(g.as_str());
            push_nonempty(&mut r, ": ", bounds);
            push_opt(&mut r, " = ", default);
            r.append(" ");
            r.append(generics.where_clause.as_str());
            r.append(";");
            r
        },
        ItemDef::Other(t) => t.clone(),
    }
}

/// Prints a trait with the given name and item texts in place of its own.
pub fn render_trait_with(t: &TraitDef, ident: &str, items: &Vec<String>) -> (r: String)
    ensures
        r@ == text_trait_with(*t, ident@, strs(items@)),
{
    let mut r = t.attrs.clone();
    r.append(" ");
    r.append(t.vis.as_str());
    r.append(" ");
    push_flag(&mut r, t.unsafety, "unsafe");
    push_flag(&mut r, t.auto, "auto");
    r.append("trait ");
    r.append(ident);
    let g = render_generics(&t.generics, ParamForm::Declared);
    r.append(g.as_str());
    push_nonempty(&mut r, ": ", &t.supertraits);
    r.append(" ");
    r.append(t.generics.where_clause.as_str());
    r.append(" { ");
    r.append(t.inner_attrs.as_str());
    r.append(" ");
    let body = join_strings(items, " ");
    r.append(body.as_str());
    r.append(" }");
    r
}

/// Prints a trait as written.
pub fn render_trait(t: &TraitDef) -> (r: String)
    ensures
        r@ == text_trait(*t),
{
    let mut items: Vec<String> = Vec::new();
    let n = t.items.len();
    for i in 0..n
        invariant
            n == t.items@.len(),
            items@.len() == i,
            forall|j: int| 0 <= j < i ==> #[trigger] items@[j]@ == text_item(t.items@[j]),
    {
        items.push(render_item(&t.items[i]));
    }
    proof {
        assert(strs(items@) =~= texts_items(t.items@));
    }
    render_trait_with(t, t.ident.as_str(), &items)
}

} // verus!

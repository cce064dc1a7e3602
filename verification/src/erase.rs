//! The erased trait: the companion of a trait in which every `async` method
//! (and, for `dynosaur`, every `-> impl Trait` method) returns its result
//! boxed, so that the trait can be used as `dyn`.
//!
//! In `make_dyn`'s erased trait, `async fn foo(&self) -> T` is declared as
//! `fn foo<'a>(&'a self) -> std::pin::Pin<Box<dyn std::future::Future<Output
//! = T> + 'a>>`; in `dynosaur`'s, as `fn foo<'dynosaur>(&'dynosaur self) ->
//! ::core::pin::Pin<Box<dyn ::core::future::Future<Output = T> +
//! 'dynosaur>>;`. A receiver that names its lifetime bounds the boxed value by
//! that lifetime instead; without a reference receiver the boxed value has no
//! lifetime bound.
use crate::attrs::{parse_make_dyn_attrs, spec_make_dyn_attrs, AttrError, AttrToken};
use crate::model::{ArgDef, ReceiverDef, OutputDef, SigDef, TraitDef, ItemDef};
use crate::render::{
    render_generics, render_inputs_with, render_item, render_params_ordered, render_sig_with,
    render_trait, render_trait_with, text_generics, text_inputs_with, text_item, text_sig_with,
    text_trait, text_trait_with, texts_params_ordered, ParamForm,
};
use crate::text::{angle, angle_strings, strs};
use vstd::prelude::*;
use vstd::string::StringExecFns;

verus! {

/// Whether `args[i]` is the first receiver among `args`.
pub open spec fn is_first_receiver(args: Seq<ArgDef>, i: int) -> bool {
    &&& 0 <= i < args.len()
    &&& args[i] is SelfArg
    &&& forall|j: int| 0 <= j < i ==> !(#[trigger] args[j] is SelfArg)
}

/// The first receiver among the inputs, if any.
pub open spec fn first_receiver(args: Seq<ArgDef>) -> Option<ReceiverDef> {
    if exists|i: int| is_first_receiver(args, i) {
        Some(args[choose|i: int| is_first_receiver(args, i)]->SelfArg_0)
    } else {
        None
    }
}

/// The lifetime given to an elided receiver reference of a boxed method:
/// `'dynosaur` in `dynosaur`'s erased trait (`impl_too`), `'a` in
/// `make_dyn`'s.
pub open spec fn boxed_lifetime(impl_too: bool) -> Seq<char> {
    if impl_too {
        "'dynosaur"@
    } else {
        "'a"@
    }
}

/// The crate through which the boxed result's types are named: `::core` in
/// `dynosaur`'s erased trait, `std` in `make_dyn`'s.
pub open spec fn boxed_root(impl_too: bool) -> Seq<char> {
    if impl_too {
        "::core"@
    } else {
        "std"@
    }
}

/// Whether a boxed method gets a new lifetime parameter: its receiver is a
/// reference whose lifetime is elided.
pub open spec fn adds_lifetime(sig: SigDef) -> bool {
    first_receiver(sig.inputs@) matches Some(r) && r.reference matches Some(None)
}

/// The lifetime that bounds a boxed method's result: that of its reference
/// receiver, the new lifetime when elided; none without a reference receiver.
pub open spec fn boxed_bound(sig: SigDef, impl_too: bool) -> Option<Seq<char>> {
    match first_receiver(sig.inputs@) {
        Some(r) => match r.reference {
            Some(Some(lt)) => Some(lt@),
            Some(None) => Some(boxed_lifetime(impl_too)),
            None => None,
        },
        None => None,
    }
}

/// Whether a method's result is boxed in the erased trait: it is `async`, or,
/// with `impl_too`, it returns `impl Trait`.
pub open spec fn is_boxed(sig: SigDef, impl_too: bool) -> bool {
    sig.asyncness || (impl_too && sig.output is ImplTrait)
}

/// The value an `async` method resolves to.
pub open spec fn future_output(o: OutputDef) -> Seq<char> {
    match o {
        OutputDef::Default => "()"@,
        OutputDef::Type(t) => t@,
        OutputDef::ImplTrait(b) => "impl "@ + b@,
    }
}

/// What the boxed result of a method is a `dyn` of: a future of its output
/// for an `async` method, the bounds of `impl Bounds`, else the return type.
pub open spec fn boxed_ret(sig: SigDef, impl_too: bool) -> Seq<char> {
    if sig.asyncness {
        boxed_root(impl_too) + "::future::Future<Output = "@ + future_output(sig.output) + ">"@
    } else {
        match sig.output {
            OutputDef::Default => "()"@,
            OutputDef::Type(t) => t@,
            OutputDef::ImplTrait(b) => b@,
        }
    }
}

/// The parameter list of a boxed method.
pub open spec fn boxed_generics(sig: SigDef, impl_too: bool) -> Seq<char> {
    if adds_lifetime(sig) {
        angle(
            seq![boxed_lifetime(impl_too)] + texts_params_ordered(sig.generics.params@, ParamForm::Declared),
        )
    } else {
        text_generics(sig.generics, ParamForm::Declared)
    }
}

/// The return type of a boxed method.
pub open spec fn boxed_output(sig: SigDef, impl_too: bool) -> Seq<char> {
    " -> "@ + boxed_root(impl_too) + "::pin::Pin<Box<dyn "@ + boxed_ret(sig, impl_too) + match boxed_bound(
        sig,
        impl_too,
    ) {
        Some(lt) => " + "@ + lt,
        None => Seq::empty(),
    } + ">>"@
}

/// The signature of a boxed method: not `async`, returning its result boxed.
pub open spec fn text_boxed_sig(sig: SigDef, impl_too: bool) -> Seq<char> {
    text_sig_with(
        sig,
        false,
        boxed_generics(sig, impl_too),
        text_inputs_with(sig, adds_lifetime(sig), boxed_lifetime(impl_too)),
        boxed_output(sig, impl_too),
    )
}

/// What follows a boxed method's signature: in `dynosaur`'s erased trait
/// (`impl_too`) a `;`, the blanket impl providing every method; in
/// `make_dyn`'s, the default body as written, or `;` without one.
pub open spec fn boxed_end(default: Option<String>, impl_too: bool) -> Seq<char> {
    match default {
        Some(b) if !impl_too => " "@ + b@,
        _ => ";"@,
    }
}

/// An item of the erased trait: a boxed method is declared with its boxed
/// signature; every other item is kept as written.
pub open spec fn text_erased_item(item: ItemDef, impl_too: bool) -> Seq<char> {
    match item {
        ItemDef::Fn { attrs, sig, default } => if is_boxed(sig, impl_too) {
            attrs@ + " "@ + text_boxed_sig(sig, impl_too) + boxed_end(default, impl_too)
        } else {
            text_item(item)
        },
        _ => text_item(item),
    }
}

/// Each item of the erased trait.
pub open spec fn texts_erased_items(items: Seq<ItemDef>, impl_too: bool) -> Seq<Seq<char>> {
    Seq::new(items.len(), |i: int| text_erased_item(items[i], impl_too))
}

/// The name of the erased trait.
pub open spec fn erased_ident(t: TraitDef) -> Seq<char> {
    "Erased"@ + t.ident@
}

/// The erased trait: named `Erased` and the trait's name, with its items
/// erased.
pub open spec fn text_erased_trait(t: TraitDef, impl_too: bool) -> Seq<char> {
    text_trait_with(t, erased_ident(t), texts_erased_items(t.items@, impl_too))
}

/// The expansion of `make_dyn`: the trait as written, then its erased trait.
pub open spec fn spec_make_dyn(attr: Seq<AttrToken>, t: TraitDef) -> Result<Seq<char>, AttrError> {
    match spec_make_dyn_attrs(attr) {
        Err(e) => Err(e),
        Ok(_) => Ok(text_trait(t) + (" "@ + text_erased_trait(t, false))),
    }
}

/// Finds the first receiver among the inputs.
pub fn find_receiver(args: &Vec<ArgDef>) -> (r: Option<usize>)
    ensures
        match r {
            Some(i) => is_first_receiver(args@, i as int) && first_receiver(args@) == Some(
                args@[i as int]->SelfArg_0,
            ),
            None => first_receiver(args@) is None,
        },
{
    let n = args.len();
    let mut i: usize = 0;
    while i < n
        invariant
            n == args@.len(),
            i <= n,
            forall|j: int| 0 <= j < i ==> !(#[trigger] args@[j] is SelfArg),
        decreases n - i,
    {
        if let ArgDef::SelfArg(_) = &args[i] {
            proof {
                assert(is_first_receiver(args@, i as int));
                let c = choose|c: int| is_first_receiver(args@, c);
                assert(is_first_receiver(args@, c));
                if c < i {
                    assert(!(args@[c] is SelfArg));
                } else if c > i {
                    assert(!(args@[i as int] is SelfArg));
                }
            }
            return Some(i);
        }
        i = i + 1;
    }
    proof {
        assert forall|c: int| !is_first_receiver(args@, c) by {
            if 0 <= c < n {
                assert(!(args@[c] is SelfArg));
            }
        }
    }
    None
}

/// Prints the crate through which the boxed result's types are named.
fn render_boxed_root(impl_too: bool) -> (r: String)
    ensures
        r@ == boxed_root(impl_too),
{
    if impl_too {
        "::core".to_owned()
    } else {
        "std".to_owned()
    }
}

/// Prints what the boxed result of a method is a `dyn` of.
pub fn render_boxed_ret(sig: &SigDef, impl_too: bool) -> (r: String)
    ensures
        r@ == boxed_ret(*sig, impl_too),
{
    if sig.asyncness {
        let mut r = render_boxed_root(impl_too);
        r.append("::future::Future<Output = ");
        match &sig.output {
            OutputDef::Default => r.append("()"),
            OutputDef::Type(t) => r.append(t.as_str()),
            OutputDef::ImplTrait(b) => {
                r.append("impl ");
                r.append(b.as_str());
            },
        }
        r.append(">");
        r
    } else {
        match &sig.output {
            OutputDef::Default => "()".to_owned(),
            OutputDef::Type(t) => t.clone(),
            OutputDef::ImplTrait(b) => b.clone(),
        }
    }
}

/// Whether the signature's first receiver is a reference with an elided
/// lifetime, and the lifetime bounding its boxed result.
fn receiver_lifetime(sig: &SigDef, impl_too: bool) -> (r: (bool, Option<String>))
    ensures
        r.0 == adds_lifetime(*sig),
        match (r.1, boxed_bound(*sig, impl_too)) {
            (Some(a), Some(b)) => a@ == b,
            (None, None) => true,
            _ => false,
        },
{
    match find_receiver(&sig.inputs) {
        Some(i) => match &sig.inputs[i] {
            ArgDef::SelfArg(rcv) => match &rcv.reference {
                Some(Some(lt)) => (false, Some(lt.clone())),
                Some(None) => (true, Some(render_boxed_lifetime(impl_too))),
                None => (false, None),
            },
            ArgDef::Typed { .. } => (false, None),
        },
        None => (false, None),
    }
}

/// Prints the lifetime given to an elided receiver reference of a boxed
/// method.
fn render_boxed_lifetime(impl_too: bool) -> (r: String)
    ensures
        r@ == boxed_lifetime(impl_too),
{
    if impl_too {
        "'dynosaur".to_owned()
    } else {
        "'a".to_owned()
    }
}

/// Prints the signature of a boxed method.
pub fn render_boxed_sig(sig: &SigDef, impl_too: bool) -> (r: String)
    ensures
        r@ == text_boxed_sig(*sig, impl_too),
{
    let (adds, bound) = receiver_lifetime(sig, impl_too);
    let lifetime = render_boxed_lifetime(impl_too);
    let generics = if adds {
        let ps = render_params_ordered(&sig.generics.params, ParamForm::Declared);
        let mut all: Vec<String> = Vec::new();
        all.push(lifetime.clone());
        let n = ps.len();
        for i in 0..n
            invariant
                n == ps@.len(),
                all@.len() == i + 1,
                all@[0]@ == boxed_lifetime(impl_too),
                forall|j: int| 1 <= j <= i ==> #[trigger] all@[j]@ == ps@[j - 1]@,
        {
            all.push(ps[i].clone());
        }
        proof {
            let want = seq![boxed_lifetime(impl_too)] + strs(ps@);
            assert forall|k: int| 0 <= k < want.len() implies #[trigger] strs(all@)[k] == want[k] by {
                if k > 0 {
                    assert(all@[k]@ == ps@[k - 1]@);
                }
            }
            assert(strs(all@) =~= want);
        }
        angle_strings(&all)
    } else {
        render_generics(&sig.generics, ParamForm::Declared)
    };
    let inputs = render_inputs_with(sig, adds, lifetime.as_str());
    let mut output = " -> ".to_owned();
    let root = render_boxed_root(impl_too);
    output.append(root.as_str());
    output.append("::pin::Pin<Box<dyn ");
    let ret = render_boxed_ret(sig, impl_too);
    output.append(ret.as_str());
    match &bound {
        Some(lt) => {
            output.append(" + ");
            output.append(lt.as_str());
        },
        None => {},
    }
    output.append(">>");
    render_sig_with(sig, false, generics.as_str(), inputs.as_str(), output.as_str())
}

/// Prints an item of the erased trait.
pub fn render_erased_item(item: &ItemDef, impl_too: bool) -> (r: String)
    ensures
        r@ == text_erased_item(*item, impl_too),
{
    match item {
        ItemDef::Fn { attrs, sig, default } => {
            let boxed = sig.asyncness || (impl_too && match &sig.output {
                OutputDef::ImplTrait(_) => true,
                _ => false,
            });
            if boxed {
                let mut r = attrs.clone();
                r.append(" ");
                let s = render_boxed_sig(sig, impl_too);
                r.append(s.as_str());
                match default {
                    Some(b) if !impl_too => {
                        r.append(" ");
                        r.append(b.as_str());
                    },
                    _ => r.append(";"),
                }
                r
            } else {
                render_item(item)
            }
        },
        _ => render_item(item),
    }
}

/// Prints the erased trait.
pub fn mk_erased_trait(t: &TraitDef, impl_too: bool) -> (r: String)
    ensures
        r@ == text_erased_trait(*t, impl_too),
{
    let mut items: Vec<String> = Vec::new();
    let n = t.items.len();
    for i in 0..n
        invariant
            n == t.items@.len(),
            items@.len() == i,
            forall|j: int|
                0 <= j < i ==> #[trigger] items@[j]@ == text_erased_item(t.items@[j], impl_too),
    {
        items.push(render_erased_item(&t.items[i], impl_too));
    }
    proof {
        assert(strs(items@) =~= texts_erased_items(t.items@, impl_too));
    }
    let mut ident = "Erased".to_owned();
    ident.append(t.ident.as_str());
    render_trait_with(t, ident.as_str(), &items)
}

/// The expansion of the `make_dyn` attribute: given the attribute's argument
/// list (the keyword `dyn`) and the trait, the trait as written followed by
/// its erased trait, in which each `async` method returns a boxed future.
pub fn make_dyn(attr: &Vec<AttrToken>, item: &TraitDef) -> (r: Result<String, AttrError>)
    ensures
        match (r, spec_make_dyn(attr@, *item)) {
            (Ok(s), Ok(t)) => s@ == t,
            (Err(e), Err(f)) => e == f,
            _ => false,
        },
{
    match parse_make_dyn_attrs(attr) {
        Err(e) => Err(e),
        Ok(()) => {
            let mut rest = " ".to_owned();
            let erased = mk_erased_trait(item, false);
            rest.append(erased.as_str());
            let mut r = render_trait(item);
            r.append(rest.as_str());
            Ok(r)
        },
    }
}

} // verus!

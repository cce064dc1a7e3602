//! Properties of the expansions that hold for every input.
use crate::attrs::{
    answer_at, answers_consistent, is_ascii_ident, is_dyn, is_eq, spec_dynosaur_attrs, spec_make_dyn_attrs,
    syn_reserved, AttrError, AttrToken,
};
use crate::dyn_struct::{
    assoc_texts, input_errors, spec_dynosaur, syntax_errors, SyntaxError, text_dynosaur_generated, trait_params, AssocForm,
};
use crate::erase::{
    adds_lifetime, boxed_bound, boxed_end, boxed_generics, boxed_lifetime, boxed_output, boxed_ret,
    boxed_root, erased_ident, is_boxed,
    spec_make_dyn, text_boxed_sig, text_erased_item, text_erased_trait, texts_erased_items,
};
use crate::dyn_struct::{
    call_args, struct_item, struct_params, struct_with_bounds_params, text_dyn_struct,
    text_inherent_impl,
};
use crate::erase::{first_receiver, is_first_receiver};
use crate::model::{ArgDef, Pat, ReceiverDef, TraitDef, ItemDef};
use crate::render::{
    text_arg_with, text_inputs_with, text_sig_with, text_trait, text_trait_with, texts_args_with,
    texts_items, texts_params, ParamForm,
};
use crate::source::attr_texts;
use crate::syntax::Attr;
use crate::text::join;
use vstd::prelude::*;

verus! {

/// The first part of a concatenation is its prefix.
proof fn lemma_prefix(a: Seq<char>, b: Seq<char>)
    ensures
        (a + b).subrange(0, a.len() as int) == a,
{
    assert((a + b).subrange(0, a.len() as int) =~= a);
}

/// `dynosaur` emits the trait exactly as written, ahead of everything it
/// generates, so that static dispatch through the trait is unaffected.
pub proof fn law_dynosaur_keeps_trait(attr: Seq<AttrToken>, answers: Seq<bool>, t: TraitDef)
    ensures
        spec_dynosaur(attr, answers, t) matches Ok((s, _)) ==> s.subrange(
            0,
            text_trait(t).len() as int,
        ) == text_trait(t),
{
    if let Ok((name, _)) = spec_dynosaur_attrs(attr, answers) {
        lemma_prefix(text_trait(t), text_dynosaur_generated(name, t));
    }
}

/// `make_dyn` emits the trait exactly as written, ahead of its erased trait.
pub proof fn law_make_dyn_keeps_trait(attr: Seq<AttrToken>, t: TraitDef)
    ensures
        spec_make_dyn(attr, t) matches Ok(s) ==> s.subrange(0, text_trait(t).len() as int)
            == text_trait(t),
{
    lemma_prefix(text_trait(t), " "@ + text_erased_trait(t, false));
}

/// `dynosaur(Name = dyn Other)` on a trait not named `Other` leaves the trait
/// as written, generates nothing and reports nothing.
pub proof fn law_dynosaur_other_trait_untouched(
    attr: Seq<AttrToken>,
    answers: Seq<bool>,
    t: TraitDef,
)
    requires
        spec_dynosaur_attrs(attr, answers) matches Ok((_, Some(other))) && other != t.ident@,
    ensures
        spec_dynosaur(attr, answers, t) == Ok::<_, AttrError>(
            (text_trait(t), Seq::<SyntaxError>::empty()),
        ),
{
}

/// `dynosaur(Name = dyn Trait)` on the trait named `Trait` expands exactly as
/// `dynosaur(Name)` does, when `syn` answers alike for `Name` in both
/// argument lists and accepts `Trait` as an identifier.
#[verifier::spinoff_prover]
#[verifier::rlimit(60)]
pub proof fn law_dynosaur_named_self(
    n: String,
    kw: String,
    m: String,
    t: TraitDef,
    plain: Seq<bool>,
    named: Seq<bool>,
)
    requires
        kw@ == "dyn"@,
        m@ == t.ident@,
        answer_at(plain, 0) == answer_at(named, 0),
        answer_at(named, 3),
    ensures
        spec_dynosaur(
            seq![
                AttrToken::Ident(n),
                AttrToken::Punct('='),
                AttrToken::Ident(kw),
                AttrToken::Ident(m),
            ],
            named,
            t,
        ) == spec_dynosaur(seq![AttrToken::Ident(n)], plain, t),
{
    let toks = seq![
        AttrToken::Ident(n),
        AttrToken::Punct('='),
        AttrToken::Ident(kw),
        AttrToken::Ident(m),
    ];
    let one = seq![AttrToken::Ident(n)];
    assert(toks[0] == AttrToken::Ident(n));
    assert(toks[1] == AttrToken::Punct('='));
    assert(toks[2] == AttrToken::Ident(kw));
    assert(toks[3] == AttrToken::Ident(m));
    assert(one[0] == AttrToken::Ident(n));
}

/// `dynosaur(Name)` names the struct by `Name` when `syn` accepts `Name` as an
/// identifier, and refuses it otherwise; a plain ASCII identifier is accepted
/// exactly when it is neither `_` nor a keyword.
pub proof fn law_attrs_name(n: String, answers: Seq<bool>)
    requires
        answers_consistent(seq![AttrToken::Ident(n)], answers),
    ensures
        spec_dynosaur_attrs(seq![AttrToken::Ident(n)], answers) == if answers[0] {
            Ok::<_, AttrError>((n@, None::<Seq<char>>))
        } else {
            Err(AttrError::KeywordIdent { at: 0 })
        },
        is_ascii_ident(n@) ==> (spec_dynosaur_attrs(seq![AttrToken::Ident(n)], answers) is Ok
            <==> !syn_reserved(n@)),
{
    assert(seq![AttrToken::Ident(n)][0] == AttrToken::Ident(n));
}

/// `dynosaur(Name = dyn Trait)` with two plain ASCII identifiers that are
/// neither `_` nor keywords names the struct by the first and selects the
/// trait by the second.
pub proof fn law_attrs_name_target(n: String, kw: String, m: String, answers: Seq<bool>)
    requires
        is_ascii_ident(n@) && !syn_reserved(n@),
        kw@ == "dyn"@,
        is_ascii_ident(m@) && !syn_reserved(m@),
        answers_consistent(
            seq![
                AttrToken::Ident(n),
                AttrToken::Punct('='),
                AttrToken::Ident(kw),
                AttrToken::Ident(m),
            ],
            answers,
        ),
    ensures
        spec_dynosaur_attrs(
            seq![
                AttrToken::Ident(n),
                AttrToken::Punct('='),
                AttrToken::Ident(kw),
                AttrToken::Ident(m),
            ],
            answers,
        ) == Ok::<_, AttrError>((n@, Some(m@))),
{
    let toks = seq![
        AttrToken::Ident(n),
        AttrToken::Punct('='),
        AttrToken::Ident(kw),
        AttrToken::Ident(m),
    ];
    assert(toks[0] == AttrToken::Ident(n));
    assert(toks[3] == AttrToken::Ident(m));
}

/// Anything after a complete argument list of `dynosaur` is refused, at the
/// first extra token; after a lone name, `=` instead starts the `= dyn Trait`
/// form.
pub proof fn law_attrs_nothing_after(toks: Seq<AttrToken>, extra: AttrToken, answers: Seq<bool>)
    requires
        spec_dynosaur_attrs(toks, answers) is Ok,
        toks.len() == 1 ==> !is_eq(extra),
    ensures
        spec_dynosaur_attrs(toks.push(extra), answers) == Err::<
            (Seq<char>, Option<Seq<char>>),
            _,
        >(AttrError::UnexpectedToken { at: toks.len() as usize }),
{
    assert(toks.push(extra)[0] == toks[0]);
    if toks.len() > 1 {
        assert(toks.push(extra)[1] == toks[1]);
        assert(toks.push(extra)[2] == toks[2]);
        assert(toks.push(extra)[3] == toks[3]);
    }
}

/// `make_dyn` accepts the keyword `dyn` alone, and nothing else.
pub proof fn law_make_dyn_attrs(toks: Seq<AttrToken>)
    ensures
        spec_make_dyn_attrs(toks) is Ok <==> (toks.len() == 1 && is_dyn(toks[0])),
{
}

/// A trait none of whose methods is boxed erases to itself under the erased
/// trait's name; with `impl_too` false, boxed methods are the `async` ones.
pub proof fn law_erasure_renames_only(t: TraitDef, impl_too: bool)
    requires
        forall|i: int|
            0 <= i < t.items@.len() ==> !(#[trigger] t.items@[i] matches ItemDef::Fn { sig, .. }
                && is_boxed(sig, impl_too)),
    ensures
        text_erased_trait(t, impl_too) == text_trait_with(
            t,
            erased_ident(t),
            texts_items(t.items@),
        ),
{
    assert(texts_erased_items(t.items@, impl_too) =~= texts_items(t.items@)) by {
        assert forall|i: int| 0 <= i < t.items@.len() implies #[trigger] texts_erased_items(
            t.items@,
            impl_too,
        )[i] == texts_items(t.items@)[i] by {
            let item = t.items@[i];
        }
    }
}

/// A boxed method of the erased trait is declared with its boxed signature:
/// not `async`, and returning its result in a pinned box of `dyn` what it
/// returned (a future of its output, for an `async` method). In `make_dyn`'s
/// erased trait the box is `std::pin::Pin<Box<dyn ..>>` and a method's
/// default body is kept; in `dynosaur`'s it is `::core::pin::Pin<Box<dyn ..>>`
/// and the method is declared without a body.
pub proof fn law_boxed_methods_return_boxes(item: ItemDef, impl_too: bool)
    requires
        item matches ItemDef::Fn { sig, .. } && is_boxed(sig, impl_too),
    ensures
        text_erased_item(item, impl_too) == item->Fn_attrs@ + " "@ + text_boxed_sig(
            item->sig,
            impl_too,
        ) + boxed_end(item->Fn_default, impl_too),
        text_boxed_sig(item->sig, impl_too) == text_sig_with(
            item->sig,
            false,
            boxed_generics(item->sig, impl_too),
            text_inputs_with(item->sig, adds_lifetime(item->sig), boxed_lifetime(impl_too)),
            boxed_output(item->sig, impl_too),
        ),
        boxed_output(item->sig, impl_too).subrange(
            0,
            (" -> "@ + boxed_root(impl_too) + "::pin::Pin<Box<dyn "@ + boxed_ret(item->sig, impl_too)).len() as int,
        ) == " -> "@ + boxed_root(impl_too) + "::pin::Pin<Box<dyn "@ + boxed_ret(item->sig, impl_too),
        impl_too ==> boxed_end(item->Fn_default, impl_too) == ";"@,
        !impl_too ==> boxed_end(item->Fn_default, impl_too) == match item->Fn_default {
            Some(b) => " "@ + b@,
            None => ";"@,
        },
{
    let sig = item->sig;
    let prefix = " -> "@ + boxed_root(impl_too) + "::pin::Pin<Box<dyn "@ + boxed_ret(sig, impl_too);
    let bound = match boxed_bound(sig, impl_too) {
        Some(lt) => " + "@ + lt,
        None => Seq::empty(),
    };
    assert(boxed_output(sig, impl_too) == prefix + bound + ">>"@);
    assert(prefix + bound + ">>"@ == prefix + (bound + ">>"@));
    lemma_prefix(prefix, bound + ">>"@);
}

/// Whether input `j` binds its argument by a pattern other than a plain
/// binding.
pub open spec fn is_pattern_input(args: Seq<ArgDef>, j: int) -> bool {
    0 <= j < args.len() && args[j] matches ArgDef::Typed { pat: Pat::Other(_), .. }
}

/// The inputs reported for a method are exactly its inputs bound by other
/// patterns than plain bindings.
pub proof fn law_input_errors_exact(item: usize, args: Seq<ArgDef>)
    requires
        args.len() <= usize::MAX,
    ensures
        forall|k: int|
            0 <= k < input_errors(item, args).len() ==> (#[trigger] input_errors(item, args)[k]
                matches SyntaxError::PatternNotSupported { item: it, input } && it == item
                && is_pattern_input(args, input as int)),
        forall|j: int|
            is_pattern_input(args, j) ==> #[trigger] input_errors(item, args).contains(
                SyntaxError::PatternNotSupported { item, input: j as usize },
            ),
    decreases args.len(),
{
    if args.len() > 0 {
        let rest = args.drop_last();
        law_input_errors_exact(item, rest);
        assert forall|j: int| is_pattern_input(rest, j) implies is_pattern_input(args, j) by {
            assert(rest[j] == args[j]);
        }
        let re = input_errors(item, rest);
        let last = SyntaxError::PatternNotSupported { item, input: (args.len() - 1) as usize };
        if is_pattern_input(args, args.len() - 1) {
            assert(input_errors(item, args) == re + seq![last]);
        } else {
            assert(input_errors(item, args) == re + Seq::<SyntaxError>::empty());
        }
        assert forall|j: int| is_pattern_input(args, j) implies #[trigger] input_errors(
            item,
            args,
        ).contains(SyntaxError::PatternNotSupported { item, input: j as usize }) by {
            let e = SyntaxError::PatternNotSupported { item, input: j as usize };
            if j < args.len() - 1 {
                assert(rest[j] == args[j]);
                assert(is_pattern_input(rest, j));
                assert(re.contains(e));
                lemma_contains_append(re, seq![last], e);
                lemma_contains_append(re, Seq::<SyntaxError>::empty(), e);
            } else {
                assert(seq![last][0] == e);
                lemma_contains_append(re, seq![last], e);
            }
        }
        assert forall|k: int| 0 <= k < input_errors(item, args).len() implies (
        #[trigger] input_errors(item, args)[k] matches SyntaxError::PatternNotSupported {
            item: it,
            input,
        } && it == item && is_pattern_input(args, input as int)) by {
            if k < input_errors(item, rest).len() {
                let e = input_errors(item, rest)[k];
                assert(input_errors(item, args)[k] == e);
                if let SyntaxError::PatternNotSupported { item: it, input } = e {
                    assert(rest[input as int] == args[input as int]);
                }
            }
        }
    }
}

/// Whether item `i` is neither a constant, a method nor a type.
pub open spec fn is_other_item(items: Seq<ItemDef>, i: int) -> bool {
    0 <= i < items.len() && items[i] is Other
}

/// Whether item `i` is a method whose input `j` binds its argument by a
/// pattern other than a plain binding.
pub open spec fn is_pattern_input_of(items: Seq<ItemDef>, i: int, j: int) -> bool {
    0 <= i < items.len() && match items[i] {
        ItemDef::Fn { sig, .. } => is_pattern_input(sig.inputs@, j),
        _ => false,
    }
}

/// What a reported error names is refused syntax of the trait.
pub open spec fn names_refused(items: Seq<ItemDef>, e: SyntaxError) -> bool {
    match e {
        SyntaxError::UnsupportedItem { item } => is_other_item(items, item as int),
        SyntaxError::PatternNotSupported { item, input } => is_pattern_input_of(
            items,
            item as int,
            input as int,
        ),
    }
}

/// The report names exactly the items that are neither constants, methods nor
/// types, and exactly the inputs of methods that are bound by other patterns
/// than plain bindings.
pub proof fn law_syntax_errors_exact(items: Seq<ItemDef>)
    requires
        items.len() <= usize::MAX,
    ensures
        forall|k: int|
            0 <= k < syntax_errors(items).len() ==> names_refused(
                items,
                #[trigger] syntax_errors(items)[k],
            ),
        forall|i: int|
            is_other_item(items, i) ==> #[trigger] syntax_errors(items).contains(
                SyntaxError::UnsupportedItem { item: i as usize },
            ),
        forall|i: int, j: int|
            #[trigger] is_pattern_input_of(items, i, j) ==> syntax_errors(items).contains(
                SyntaxError::PatternNotSupported { item: i as usize, input: j as usize },
            ),
    decreases items.len(),
{
    if items.len() > 0 {
        let rest = items.drop_last();
        law_syntax_errors_exact(rest);
        let i = items.len() - 1;
        let sr = syntax_errors(rest);
        let se = syntax_errors(items);
        assert forall|x: int| 0 <= x < rest.len() implies rest[x] == items[x] by {}
        assert forall|e: SyntaxError| names_refused(rest, e) implies names_refused(items, e) by {
            match e {
                SyntaxError::UnsupportedItem { item } => {
                    assert(rest[item as int] == items[item as int]);
                },
                SyntaxError::PatternNotSupported { item, input } => {
                    assert(rest[item as int] == items[item as int]);
                },
            }
        }
        assert forall|x: int, j: int|
            is_pattern_input_of(items, x, j) && x < i implies is_pattern_input_of(rest, x, j) by {
            assert(rest[x] == items[x]);
        }
        assert forall|x: int| is_other_item(items, x) && x < i implies is_other_item(rest, x) by {
            assert(rest[x] == items[x]);
        }
        match items.last() {
            ItemDef::Fn { sig, .. } => {
                let ie = input_errors(i as usize, sig.inputs@);
                assert(sig.inputs.len() == sig.inputs@.len());
                law_input_errors_exact(i as usize, sig.inputs@);
                assert(se == sr + ie);
                assert forall|k: int| 0 <= k < se.len() implies names_refused(
                    items,
                    #[trigger] se[k],
                ) by {
                    if k < sr.len() {
                        assert(se[k] == sr[k]);
                    } else {
                        assert(se[k] == ie[k - sr.len()]);
                    }
                }
                assert forall|x: int| is_other_item(items, x) implies #[trigger] se.contains(
                    SyntaxError::UnsupportedItem { item: x as usize },
                ) by {
                    assert(is_other_item(rest, x));
                    assert(sr.contains(SyntaxError::UnsupportedItem { item: x as usize }));
                    lemma_contains_append(sr, ie, SyntaxError::UnsupportedItem { item: x as usize });
                }
                assert forall|x: int, j: int| #[trigger]
                    is_pattern_input_of(items, x, j) implies se.contains(
                    SyntaxError::PatternNotSupported { item: x as usize, input: j as usize },
                ) by {
                    let e = SyntaxError::PatternNotSupported { item: x as usize, input: j as usize };
                    if x == i {
                        assert(is_pattern_input(sig.inputs@, j));
                    }
                    lemma_contains_append(sr, ie, e);
                }
            },
            ItemDef::Other(_) => {
                let e0 = SyntaxError::UnsupportedItem { item: i as usize };
                assert(se == sr.push(e0));
                assert(sr.push(e0) == sr + seq![e0]);
                assert forall|k: int| 0 <= k < se.len() implies names_refused(
                    items,
                    #[trigger] se[k],
                ) by {
                    if k < sr.len() {
                        assert(se[k] == sr[k]);
                    }
                }
                assert forall|x: int| is_other_item(items, x) implies #[trigger] se.contains(
                    SyntaxError::UnsupportedItem { item: x as usize },
                ) by {
                    let e = SyntaxError::UnsupportedItem { item: x as usize };
                    if x < i {
                        assert(is_other_item(rest, x));
                        assert(sr.contains(e));
                    } else {
                        assert(seq![e0][0] == e);
                    }
                    lemma_contains_append(sr, seq![e0], e);
                }
                assert forall|x: int, j: int| #[trigger]
                    is_pattern_input_of(items, x, j) implies se.contains(
                    SyntaxError::PatternNotSupported { item: x as usize, input: j as usize },
                ) by {
                    let e = SyntaxError::PatternNotSupported { item: x as usize, input: j as usize };
                    lemma_contains_append(sr, seq![e0], e);
                }
            },
            _ => {
                assert(se == sr);
            },
        }
    }
}

/// What either part of a concatenation contains, the concatenation contains.
proof fn lemma_contains_append<A>(a: Seq<A>, b: Seq<A>, x: A)
    ensures
        a.contains(x) || b.contains(x) ==> (a + b).contains(x),
{
    if a.contains(x) {
        let w = choose|w: int| 0 <= w < a.len() && a[w] == x;
        assert((a + b)[w] == x);
    } else if b.contains(x) {
        let w = choose|w: int| 0 <= w < b.len() && b[w] == x;
        assert((a + b)[a.len() + w] == x);
    }
}

/// The associated types line up across the `Dyn` struct's three parameter
/// lists: the `i`-th entries name the same associated type, as `Name`,
/// `Name: Bounds` and `Name = Name`.
pub proof fn law_assoc_lists_line_up(items: Seq<ItemDef>)
    ensures
        assoc_texts(items, AssocForm::Bounded).len() == assoc_texts(items, AssocForm::Name).len(),
        assoc_texts(items, AssocForm::Binding).len() == assoc_texts(items, AssocForm::Name).len(),
        forall|i: int|
            0 <= i < assoc_texts(items, AssocForm::Name).len() ==> {
                let name = #[trigger] assoc_texts(items, AssocForm::Name)[i];
                &&& assoc_texts(items, AssocForm::Binding)[i] == name + " = "@ + name
                &&& assoc_texts(items, AssocForm::Bounded)[i].subrange(0, name.len() as int)
                    == name
            },
    decreases items.len(),
{
    if items.len() > 0 {
        law_assoc_lists_line_up(items.drop_last());
        let n = assoc_texts(items, AssocForm::Name);
        let b = assoc_texts(items, AssocForm::Bounded);
        assert forall|i: int| 0 <= i < n.len() implies {
            let name = #[trigger] n[i];
            &&& assoc_texts(items, AssocForm::Binding)[i] == name + " = "@ + name
            &&& b[i].subrange(0, name.len() as int) == name
        } by {
            let name = n[i];
            if b[i].len() > name.len() || b[i] != name {
                assert(b[i].subrange(0, name.len() as int) =~= name);
            }
        }
    }
}

/// The trait's arguments inside `dyn` are omitted exactly when the trait has
/// neither generic parameters nor associated types.
pub proof fn law_trait_params_empty(t: TraitDef)
    ensures
        (trait_params(t).len() == 0) <==> (t.generics.params@.len() == 0 && assoc_texts(
            t.items@,
            AssocForm::Binding,
        ).len() == 0),
{
    let parts = texts_params(t.generics.params@, ParamForm::Declared) + assoc_texts(
        t.items@,
        AssocForm::Binding,
    );
    if parts.len() != 0 {
        reveal_strlit(">");
        assert(trait_params(t).len() > 0);
    }
}

/// Whether `w` stands in `s` at index `i`.
pub open spec fn occurs_at(s: Seq<char>, w: Seq<char>, i: int) -> bool {
    0 <= i && i + w.len() <= s.len() && s.subrange(i, i + w.len()) == w
}

/// Whether `w` stands somewhere in `s`.
pub open spec fn occurs_in(s: Seq<char>, w: Seq<char>) -> bool {
    exists|i: int| occurs_at(s, w, i)
}

/// What stands in the middle of a concatenation stands in it.
proof fn lemma_occurs_mid(a: Seq<char>, w: Seq<char>, b: Seq<char>)
    ensures
        occurs_at(a + w + b, w, a.len() as int),
        occurs_in(a + w + b, w),
{
    assert((a + w + b).subrange(a.len() as int, (a.len() + w.len()) as int) =~= w);
}

/// What stands in a text stands in it with more text after it.
proof fn lemma_occurs_extend(s: Seq<char>, x: Seq<char>, w: Seq<char>)
    requires
        occurs_in(s, w),
    ensures
        occurs_in(s + x, w),
{
    let i = choose|i: int| occurs_at(s, w, i);
    assert((s + x).subrange(i, i + w.len()) =~= s.subrange(i, i + w.len()));
    assert(occurs_at(s + x, w, i));
}

/// What stands in a text stands in it with more text before it.
proof fn lemma_occurs_after(a: Seq<char>, s: Seq<char>, w: Seq<char>)
    requires
        occurs_in(s, w),
    ensures
        occurs_in(a + s, w),
{
    let i = choose|i: int| occurs_at(s, w, i);
    assert((a + s).subrange(a.len() + i, a.len() + i + w.len()) =~= s.subrange(i, i + w.len()));
    assert(occurs_at(a + s, w, a.len() + i));
}

/// What stands in a prefix stands in the whole.
proof fn lemma_occurs_prefix(s: Seq<char>, n: int, w: Seq<char>)
    requires
        0 <= n <= s.len(),
        occurs_in(s.subrange(0, n), w),
    ensures
        occurs_in(s, w),
{
    let i = choose|i: int| occurs_at(s.subrange(0, n), w, i);
    assert(s.subrange(i, i + w.len()) =~= s.subrange(0, n).subrange(i, i + w.len()));
    assert(occurs_at(s, w, i));
}

/// After `c`, a piece `l` that ends with `w`, then `x`: `w` followed by `x`
/// stands in the text.
proof fn lemma_occurs_split(c: Seq<char>, l: Seq<char>, p: Seq<char>, w: Seq<char>, x: Seq<char>)
    requires
        l == p + w,
    ensures
        occurs_in(c + l + x, w + x),
{
    assert(c + l + x =~= (c + p) + (w + x) + Seq::empty());
    lemma_occurs_mid(c + p, w + x, Seq::empty());
}

/// The first part of a joined list is its prefix.
proof fn lemma_join_first(parts: Seq<Seq<char>>, sep: Seq<char>)
    requires
        parts.len() > 0,
    ensures
        parts[0].len() <= join(parts, sep).len(),
        join(parts, sep).subrange(0, parts[0].len() as int) == parts[0],
    decreases parts.len(),
{
    if parts.len() > 1 {
        let rest = parts.drop_last();
        lemma_join_first(rest, sep);
        assert(rest[0] == parts[0]);
        let j = join(rest, sep);
        assert(join(parts, sep) == j + sep + parts.last());
        assert((j + sep + parts.last()).subrange(0, parts[0].len() as int) =~= j.subrange(
            0,
            parts[0].len() as int,
        ));
    }
}

/// An elided receiver reference that is given a lifetime keeps everything else
/// as written: its attributes, `mut` when it is mutable, and an explicit type.
pub proof fn law_lifetime_keeps_receiver(rcv: ReceiverDef, lifetime: Seq<char>)
    requires
        rcv.reference == Some(None::<String>),
    ensures
        text_arg_with(ArgDef::SelfArg(rcv), true, lifetime) == rcv.attrs@ + " "@ + "&"@ + lifetime
            + " "@ + (if rcv.mutability {
            "mut"@ + " "@
        } else {
            Seq::empty()
        }) + "self"@ + match rcv.ty {
            Some(ty) => ": "@ + ty@,
            None => Seq::empty(),
        },
{
    let lhs = text_arg_with(ArgDef::SelfArg(rcv), true, lifetime);
    let rhs = rcv.attrs@ + " "@ + "&"@ + lifetime + " "@ + (if rcv.mutability {
        "mut"@ + " "@
    } else {
        Seq::empty()
    }) + "self"@ + match rcv.ty {
        Some(ty) => ": "@ + ty@,
        None => Seq::empty(),
    };
    assert(lhs =~= rhs);
}

/// A receiver is printed with its attributes, its reference (with its
/// lifetime when named, with `lifetime` when elided and `add_lifetime`
/// holds), `mut` when it is mutable, `self`, and an explicit type.
pub proof fn law_receiver_text(rcv: ReceiverDef, add_lifetime: bool, lifetime: Seq<char>)
    ensures
        text_arg_with(ArgDef::SelfArg(rcv), add_lifetime, lifetime) == rcv.attrs@ + " "@ + match rcv.reference {
            Some(Some(l)) => "&"@ + l@ + " "@,
            Some(None) => if add_lifetime {
                "&"@ + lifetime + " "@
            } else {
                "&"@ + " "@
            },
            None => Seq::empty(),
        } + (if rcv.mutability {
            "mut"@ + " "@
        } else {
            Seq::empty()
        }) + "self"@ + match rcv.ty {
            Some(ty) => ": "@ + ty@,
            None => Seq::empty(),
        },
{
    let lhs = text_arg_with(ArgDef::SelfArg(rcv), add_lifetime, lifetime);
    let rhs = rcv.attrs@ + " "@ + match rcv.reference {
        Some(Some(l)) => "&"@ + l@ + " "@,
        Some(None) => if add_lifetime {
            "&"@ + lifetime + " "@
        } else {
            "&"@ + " "@
        },
        None => Seq::empty(),
    } + (if rcv.mutability {
        "mut"@ + " "@
    } else {
        Seq::empty()
    }) + "self"@ + match rcv.ty {
        Some(ty) => ": "@ + ty@,
        None => Seq::empty(),
    };
    assert(""@ =~= Seq::<char>::empty()) by {
        reveal_strlit("");
    }
    assert(lhs =~= rhs);
}

/// A typed input with a plain binding is forwarded by the binding's name
/// (`x` for `mut x`), and the forwarded arguments of two runs of inputs are
/// those of the first run, then those of the second.
pub proof fn law_call_args(a: Seq<ArgDef>, b: Seq<ArgDef>, attrs: String, binding: String, name: String, ty: String)
    ensures
        call_args(a + b) == call_args(a) + call_args(b),
        call_args(seq![ArgDef::Typed { attrs, pat: Pat::Ident { binding, name }, ty }]) == seq![
            name@,
        ],
    decreases b.len(),
{
    let one = seq![ArgDef::Typed { attrs, pat: Pat::Ident { binding, name }, ty }];
    assert(one.drop_last() =~= Seq::<ArgDef>::empty());
    assert(one.last() == one[0]);
    assert(call_args(Seq::<ArgDef>::empty()) == Seq::<Seq<char>>::empty());
    assert(call_args(one) == call_args(one.drop_last()).push(name@));
    assert(Seq::<Seq<char>>::empty().push(name@) =~= seq![name@]);
    if b.len() == 0 {
        assert(a + b =~= a);
        assert(call_args(a) + call_args(b) =~= call_args(a));
    } else {
        law_call_args(a, b.drop_last(), attrs, binding, name, ty);
        assert((a + b).drop_last() =~= a + b.drop_last());
        assert((a + b).last() == b.last());
        let ca = call_args(a);
        let cb = call_args(b.drop_last());
        match b.last() {
            ArgDef::SelfArg(_) => {},
            ArgDef::Typed { pat, .. } => {
                assert(ca + cb.push(crate::dyn_struct::call_arg(pat)) =~= (ca + cb).push(
                    crate::dyn_struct::call_arg(pat),
                ));
            },
        }
    }
}

/// The blanket impl forwards each method to the trait's own: its item calls
/// `<Self as Trait>::` the method with `self` first when it has a receiver,
/// then the names of the typed inputs, separated by `, `.
pub proof fn law_blanket_method_forwards(item: ItemDef, qual: Seq<char>)
    requires
        item is Fn,
    ensures
        occurs_in(
            crate::dyn_struct::blanket_item(item, qual),
            qual + item->Fn_sig.ident@ + "("@ + join(
                if crate::dyn_struct::has_receiver(item->Fn_sig.inputs@) {
                    seq!["self"@] + call_args(item->Fn_sig.inputs@)
                } else {
                    call_args(item->Fn_sig.inputs@)
                },
                ", "@,
            ) + ")"@,
        ),
{
    let sig = item->Fn_sig;
    reveal_strlit(" { Box::pin(");
    reveal_strlit(")) }");
    reveal_strlit(")");
    reveal_strlit(") }");
    assert(")) }"@ =~= ")"@ + ") }"@);
    let args = if crate::dyn_struct::has_receiver(sig.inputs@) {
        seq!["self"@] + call_args(sig.inputs@)
    } else {
        call_args(sig.inputs@)
    };
    let w = qual + sig.ident@ + "("@ + join(args, ", "@) + ")"@;
    let a = crate::dyn_struct::erased_sig(sig) + " { Box::pin("@;
    assert(crate::dyn_struct::blanket_item(item, qual) =~= a + w + ") }"@);
    lemma_occurs_mid(a, w, ") }"@);
}

/// A boxed method whose first input is an elided reference receiver declares
/// it with the new lifetime and its mutability: `&'a self` or `&'a mut self`
/// (`'dynosaur` for `dynosaur`).
pub proof fn law_boxed_sig_keeps_receiver(sig: crate::model::SigDef, impl_too: bool)
    requires
        sig.inputs@.len() > 0,
        sig.inputs@[0] matches ArgDef::SelfArg(r) && r.reference == Some(None::<String>),
    ensures
        occurs_in(
            text_boxed_sig(sig, impl_too),
            "&"@ + boxed_lifetime(impl_too) + " "@ + (if sig.inputs@[0]->SelfArg_0.mutability {
                "mut"@ + " "@
            } else {
                Seq::empty()
            }) + "self"@,
        ),
{
    let args = sig.inputs@;
    let rcv = args[0]->SelfArg_0;
    let lt = boxed_lifetime(impl_too);
    assert(is_first_receiver(args, 0));
    assert forall|c: int| is_first_receiver(args, c) implies c == 0 by {
        if c > 0 {
            assert(!(args[0] is SelfArg));
        }
    }
    assert(first_receiver(args) == Some(rcv));
    assert(adds_lifetime(sig));
    let m = if rcv.mutability {
        "mut"@ + " "@
    } else {
        Seq::<char>::empty()
    };
    let w = "&"@ + lt + " "@ + m + "self"@;
    let tail = match rcv.ty {
        Some(ty) => ": "@ + ty@,
        None => Seq::empty(),
    };
    law_lifetime_keeps_receiver(rcv, lt);
    let first = text_arg_with(args[0], true, lt);
    assert(first =~= (rcv.attrs@ + " "@) + w + tail);
    lemma_occurs_mid(rcv.attrs@ + " "@, w, tail);
    let parts = texts_args_with(args, true, lt);
    assert(parts[0] == first);
    lemma_join_first(parts, ", "@);
    let joined = join(parts, ", "@);
    lemma_occurs_prefix(joined, first.len() as int, w);
    let inputs = text_inputs_with(sig, true, lt);
    lemma_occurs_extend(joined, crate::render::text_variadic(sig), w);
    let before = crate::text::flag(sig.constness, "const"@) + crate::text::flag(false, "async"@)
        + crate::text::flag(sig.unsafety, "unsafe"@) + sig.abi@ + " fn "@ + sig.ident@
        + boxed_generics(sig, impl_too) + "("@;
    lemma_occurs_after(before, inputs, w);
    lemma_occurs_extend(before + inputs, ")"@, w);
    lemma_occurs_extend(before + inputs + ")"@, boxed_output(sig, impl_too), w);
    lemma_occurs_extend(before + inputs + ")"@ + boxed_output(sig, impl_too), " "@, w);
    lemma_occurs_extend(
        before + inputs + ")"@ + boxed_output(sig, impl_too) + " "@,
        sig.generics.where_clause@,
        w,
    );
}

/// The `Dyn` struct forwards each method to the erased trait object: its item
/// calls `self.ptr.` the method with the names of the typed inputs,
/// separated by `, `.
pub proof fn law_struct_method_forwards(item: ItemDef, qual: Seq<char>)
    requires
        item is Fn,
    ensures
        occurs_in(
            struct_item(item, qual),
            "self.ptr."@ + item->Fn_sig.ident@ + "("@ + join(call_args(item->Fn_sig.inputs@), ", "@)
                + ")"@,
        ),
{
    let sig = item->Fn_sig;
    reveal_strlit(" + '_>> = self.ptr.");
    reveal_strlit(" + '_>> = ");
    reveal_strlit("self.ptr.");
    reveal_strlit("); let fut: ::core::pin::Pin<Box<dyn ");
    reveal_strlit(")");
    reveal_strlit("; let fut: ::core::pin::Pin<Box<dyn ");
    assert(" + '_>> = self.ptr."@ =~= " + '_>> = "@ + "self.ptr."@);
    assert("); let fut: ::core::pin::Pin<Box<dyn "@ =~= ")"@ + "; let fut: ::core::pin::Pin<Box<dyn "@);
    let w = "self.ptr."@ + sig.ident@ + "("@ + join(call_args(sig.inputs@), ", "@) + ")"@;
    let a = crate::dyn_struct::struct_fn_sig(sig) + " { let fut: ::core::pin::Pin<Box<dyn "@
        + boxed_ret(sig, true) + " + '_>> = "@;
    let b = "; let fut: ::core::pin::Pin<Box<dyn "@ + boxed_ret(sig, true)
        + " + 'static>> = unsafe { ::core::mem::transmute(fut) }; fut }"@;
    assert(struct_item(item, qual) =~= a + w + b);
    lemma_occurs_mid(a, w, b);
}

/// Each constructor of the `Dyn` struct takes an implementor of the trait
/// with the argument list that the struct's `ptr: dyn` field gives the
/// erased trait: the trait's own generic arguments, then its associated
/// types.
#[verifier::rlimit(40)]
pub proof fn law_constructors_name_trait_params(name: Seq<char>, t: TraitDef)
    ensures
        occurs_in(
            text_dyn_struct(name, t),
            "dyn "@ + erased_ident(t) + trait_params(t) + " + 'dynosaur_struct"@,
        ),
        occurs_in(
            text_inherent_impl(name, t),
            "pub fn new(value: Box<impl "@ + (t.ident@ + trait_params(t) + " + 'dynosaur_struct"@),
        ),
        occurs_in(
            text_inherent_impl(name, t),
            "pub fn boxed(value: impl "@ + (t.ident@ + trait_params(t) + " + 'dynosaur_struct"@),
        ),
        occurs_in(
            text_inherent_impl(name, t),
            "pub fn from_ref(value: &(impl "@ + (t.ident@ + trait_params(t) + " + 'dynosaur_struct"@),
        ),
        occurs_in(
            text_inherent_impl(name, t),
            "pub fn from_mut(value: &mut (impl "@ + (t.ident@ + trait_params(t)
                + " + 'dynosaur_struct"@),
        ),
{
    let ty = name + struct_params(t);
    let swb = struct_with_bounds_params(t);
    let bound = t.ident@ + trait_params(t) + " + 'dynosaur_struct"@;
    let erased = erased_ident(t) + trait_params(t) + " + 'dynosaur_struct"@;
    reveal_strlit(" { ptr: dyn ");
    reveal_strlit(" { ptr: ");
    reveal_strlit("dyn ");
    reveal_strlit(" + 'dynosaur_struct }");
    reveal_strlit(" + 'dynosaur_struct");
    reveal_strlit(" }");
    let d = "#[repr(transparent)] pub struct "@ + name + swb + " { ptr: "@;
    let dw = "dyn "@ + erased_ident(t) + trait_params(t) + " + 'dynosaur_struct"@;
    assert(text_dyn_struct(name, t) =~= d + dw + " }"@);
    lemma_occurs_mid(d, dw, " }"@);
    let l_new = " { pub fn new(value: Box<impl "@;
    let l_boxed = "> = value; unsafe { ::core::mem::transmute(value) } } pub fn boxed(value: impl "@;
    let l_ref = "> { Self::new(Box::new(value)) } pub fn from_ref(value: &(impl "@;
    let l_mut = ") = &*value; unsafe { ::core::mem::transmute(value) } } pub fn from_mut(value: &mut (impl "@;
    let l_end = ") = &mut *value; unsafe { ::core::mem::transmute(value) } } }"@;
    let w_new = "pub fn new(value: Box<impl "@;
    let w_boxed = "pub fn boxed(value: impl "@;
    let w_ref = "pub fn from_ref(value: &(impl "@;
    let w_mut = "pub fn from_mut(value: &mut (impl "@;
    let p_new = " { "@;
    let p_boxed = "> = value; unsafe { ::core::mem::transmute(value) } } "@;
    let p_ref = "> { Self::new(Box::new(value)) } "@;
    let p_mut = ") = &*value; unsafe { ::core::mem::transmute(value) } } "@;
    assert(l_new == p_new + w_new) by {
        reveal_strlit(" { pub fn new(value: Box<impl ");
        reveal_strlit(" { ");
        reveal_strlit("pub fn new(value: Box<impl ");
        assert(l_new =~= p_new + w_new);
    }
    assert(l_boxed == p_boxed + w_boxed) by {
        reveal_strlit("> = value; unsafe { ::core::mem::transmute(value) } } pub fn boxed(value: impl ");
        reveal_strlit("> = value; unsafe { ::core::mem::transmute(value) } } ");
        reveal_strlit("pub fn boxed(value: impl ");
        assert(l_boxed =~= p_boxed + w_boxed);
    }
    assert(l_ref == p_ref + w_ref) by {
        reveal_strlit("> { Self::new(Box::new(value)) } pub fn from_ref(value: &(impl ");
        reveal_strlit("> { Self::new(Box::new(value)) } ");
        reveal_strlit("pub fn from_ref(value: &(impl ");
        assert(l_ref =~= p_ref + w_ref);
    }
    assert(l_mut == p_mut + w_mut) by {
        reveal_strlit(") = &*value; unsafe { ::core::mem::transmute(value) } } pub fn from_mut(value: &mut (impl ");
        reveal_strlit(") = &*value; unsafe { ::core::mem::transmute(value) } } ");
        reveal_strlit("pub fn from_mut(value: &mut (impl ");
        assert(l_mut =~= p_mut + w_mut);
    }
    let c0 = "impl"@;
    let c1 = c0 + swb;
    let c2 = c1 + " "@;
    let c3 = c2 + ty;
    let c4 = c3 + l_new;
    let c5 = c4 + bound;
    let c6 = c5 + ">) -> Box<"@;
    let c7 = c6 + ty;
    let c8 = c7 + "> { let value: Box<dyn "@;
    let c9 = c8 + erased;
    let c10 = c9 + l_boxed;
    let c11 = c10 + bound;
    let c12 = c11 + ") -> Box<"@;
    let c13 = c12 + ty;
    let c14 = c13 + l_ref;
    let c15 = c14 + bound;
    let c16 = c15 + ")) -> & "@;
    let c17 = c16 + ty;
    let c18 = c17 + " { let value: &(dyn "@;
    let c19 = c18 + erased;
    let c20 = c19 + l_mut;
    let c21 = c20 + bound;
    let c22 = c21 + ")) -> &mut "@;
    let c23 = c22 + ty;
    let c24 = c23 + " { let value: &mut (dyn "@;
    let c25 = c24 + erased;
    let c26 = c25 + l_end;
    assert(text_inherent_impl(name, t) == c26);
    lemma_occurs_split(c3, l_new, p_new, w_new, bound);
    lemma_occurs_extend(c5, ">) -> Box<"@, w_new + bound);
    lemma_occurs_extend(c6, ty, w_new + bound);
    lemma_occurs_extend(c7, "> { let value: Box<dyn "@, w_new + bound);
    lemma_occurs_extend(c8, erased, w_new + bound);
    lemma_occurs_extend(c9, l_boxed, w_new + bound);
    lemma_occurs_extend(c10, bound, w_new + bound);
    lemma_occurs_extend(c11, ") -> Box<"@, w_new + bound);
    lemma_occurs_extend(c12, ty, w_new + bound);
    lemma_occurs_extend(c13, l_ref, w_new + bound);
    lemma_occurs_extend(c14, bound, w_new + bound);
    lemma_occurs_extend(c15, ")) -> & "@, w_new + bound);
    lemma_occurs_extend(c16, ty, w_new + bound);
    lemma_occurs_extend(c17, " { let value: &(dyn "@, w_new + bound);
    lemma_occurs_extend(c18, erased, w_new + bound);
    lemma_occurs_extend(c19, l_mut, w_new + bound);
    lemma_occurs_extend(c20, bound, w_new + bound);
    lemma_occurs_extend(c21, ")) -> &mut "@, w_new + bound);
    lemma_occurs_extend(c22, ty, w_new + bound);
    lemma_occurs_extend(c23, " { let value: &mut (dyn "@, w_new + bound);
    lemma_occurs_extend(c24, erased, w_new + bound);
    lemma_occurs_extend(c25, l_end, w_new + bound);
    lemma_occurs_split(c9, l_boxed, p_boxed, w_boxed, bound);
    lemma_occurs_extend(c11, ") -> Box<"@, w_boxed + bound);
    lemma_occurs_extend(c12, ty, w_boxed + bound);
    lemma_occurs_extend(c13, l_ref, w_boxed + bound);
    lemma_occurs_extend(c14, bound, w_boxed + bound);
    lemma_occurs_extend(c15, ")) -> & "@, w_boxed + bound);
    lemma_occurs_extend(c16, ty, w_boxed + bound);
    lemma_occurs_extend(c17, " { let value: &(dyn "@, w_boxed + bound);
    lemma_occurs_extend(c18, erased, w_boxed + bound);
    lemma_occurs_extend(c19, l_mut, w_boxed + bound);
    lemma_occurs_extend(c20, bound, w_boxed + bound);
    lemma_occurs_extend(c21, ")) -> &mut "@, w_boxed + bound);
    lemma_occurs_extend(c22, ty, w_boxed + bound);
    lemma_occurs_extend(c23, " { let value: &mut (dyn "@, w_boxed + bound);
    lemma_occurs_extend(c24, erased, w_boxed + bound);
    lemma_occurs_extend(c25, l_end, w_boxed + bound);
    lemma_occurs_split(c13, l_ref, p_ref, w_ref, bound);
    lemma_occurs_extend(c15, ")) -> & "@, w_ref + bound);
    lemma_occurs_extend(c16, ty, w_ref + bound);
    lemma_occurs_extend(c17, " { let value: &(dyn "@, w_ref + bound);
    lemma_occurs_extend(c18, erased, w_ref + bound);
    lemma_occurs_extend(c19, l_mut, w_ref + bound);
    lemma_occurs_extend(c20, bound, w_ref + bound);
    lemma_occurs_extend(c21, ")) -> &mut "@, w_ref + bound);
    lemma_occurs_extend(c22, ty, w_ref + bound);
    lemma_occurs_extend(c23, " { let value: &mut (dyn "@, w_ref + bound);
    lemma_occurs_extend(c24, erased, w_ref + bound);
    lemma_occurs_extend(c25, l_end, w_ref + bound);
    lemma_occurs_split(c19, l_mut, p_mut, w_mut, bound);
    lemma_occurs_extend(c21, ")) -> &mut "@, w_mut + bound);
    lemma_occurs_extend(c22, ty, w_mut + bound);
    lemma_occurs_extend(c23, " { let value: &mut (dyn "@, w_mut + bound);
    lemma_occurs_extend(c24, erased, w_mut + bound);
    lemma_occurs_extend(c25, l_end, w_mut + bound);
}

/// Reading keeps every attribute of a style, in order: the attribute texts
/// of two runs of attributes are those of the first run, then those of the
/// second.
pub proof fn law_attr_texts_append(a: Seq<Attr>, b: Seq<Attr>, inner: bool)
    ensures
        attr_texts(a + b, inner) == attr_texts(a, inner) + attr_texts(b, inner),
    decreases b.len(),
{
    if b.len() == 0 {
        assert(a + b =~= a);
        assert(attr_texts(a, inner) + attr_texts(b, inner) =~= attr_texts(a, inner));
    } else {
        law_attr_texts_append(a, b.drop_last(), inner);
        assert((a + b).drop_last() =~= a + b.drop_last());
        assert((a + b).last() == b.last());
        if b.last().inner == inner {
            assert(attr_texts(a, inner) + attr_texts(b.drop_last(), inner).push(b.last().text@)
                =~= (attr_texts(a, inner) + attr_texts(b.drop_last(), inner)).push(b.last().text@));
        }
    }
}

/// One attribute's text is listed exactly when it has the style asked for.
pub proof fn law_attr_texts_single(x: Attr, inner: bool)
    ensures
        attr_texts(seq![x], inner) == if x.inner == inner {
            seq![x.text@]
        } else {
            Seq::<Seq<char>>::empty()
        },
{
    let one = seq![x];
    assert(one.len() == 1);
    assert(one.last() == x);
    assert(one.drop_last() =~= Seq::<Attr>::empty());
    assert(attr_texts(Seq::<Attr>::empty(), inner) == Seq::<Seq<char>>::empty());
    assert(Seq::<Seq<char>>::empty().push(x.text@) =~= seq![x.text@]);
}

/// A printed trait, as written or erased, starts with its attributes and its
/// visibility.
pub proof fn law_traits_keep_visibility(t: TraitDef, ident: Seq<char>, items: Seq<Seq<char>>, impl_too: bool)
    ensures
        text_trait_with(t, ident, items).subrange(0, (t.attrs@ + " "@ + t.vis@ + " "@).len() as int)
            == t.attrs@ + " "@ + t.vis@ + " "@,
        text_trait(t).subrange(0, (t.attrs@ + " "@ + t.vis@ + " "@).len() as int) == t.attrs@
            + " "@ + t.vis@ + " "@,
        text_erased_trait(t, impl_too).subrange(0, (t.attrs@ + " "@ + t.vis@ + " "@).len() as int)
            == t.attrs@ + " "@ + t.vis@ + " "@,
{
    let head = t.attrs@ + " "@ + t.vis@ + " "@;
    assert forall|id: Seq<char>, its: Seq<Seq<char>>|
        #[trigger] text_trait_with(t, id, its).subrange(0, head.len() as int) == head by {
        let whole = text_trait_with(t, id, its);
        let rest = whole.subrange(head.len() as int, whole.len() as int);
        assert(whole =~= head + rest);
        lemma_prefix(head, rest);
    }
    assert(text_trait(t) == text_trait_with(t, t.ident@, texts_items(t.items@)));
    assert(text_erased_trait(t, impl_too) == text_trait_with(
        t,
        erased_ident(t),
        texts_erased_items(t.items@, impl_too),
    ));
}

} // verus!

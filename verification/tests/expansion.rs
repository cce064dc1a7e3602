use dynosaur::attrs::{AttrError, AttrToken};
use dynosaur::dyn_struct::{
    dynosaur, dynosaur_module_name, invoke_fn_args, mk_dyn_struct, mk_dyn_struct_impl_item,
    mk_erased_trait_blanket_impl, mk_struct_inherent_impl, struct_trait_params, unsupported_syntax,
    SyntaxError,
};
use dynosaur::erase::{make_dyn, mk_erased_trait};
use dynosaur::model::{
    ArgDef, ParamDef, GenericsDef, Pat, ReceiverDef, OutputDef, SigDef, TraitDef, ItemDef,
};
use dynosaur::source::{dynosaur_source, make_dyn_source, trait_model, SourceError};
use proc_macro2::{Delimiter, TokenStream, TokenTree};

/// The token sequence of Rust source text, spacing ignored.
fn tokens(src: &str) -> Vec<String> {
    fn walk(ts: TokenStream, out: &mut Vec<String>) {
        for tt in ts {
            match tt {
                TokenTree::Group(g) => {
                    let (open, close) = match g.delimiter() {
                        Delimiter::Parenthesis => ("(", ")"),
                        Delimiter::Brace => ("{", "}"),
                        Delimiter::Bracket => ("[", "]"),
                        Delimiter::None => ("", ""),
                    };
                    out.push(open.to_string());
                    walk(g.stream(), out);
                    out.push(close.to_string());
                }
                TokenTree::Ident(i) => out.push(i.to_string()),
                TokenTree::Punct(p) => out.push(p.as_char().to_string()),
                TokenTree::Literal(l) => out.push(l.to_string()),
            }
        }
    }
    let mut out = Vec::new();
    walk(src.parse::<TokenStream>().unwrap(), &mut out);
    out
}

fn s(x: &str) -> String {
    x.to_string()
}

fn no_generics() -> GenericsDef {
    GenericsDef { params: vec![], where_clause: s("") }
}

fn self_ref() -> ArgDef {
    ArgDef::SelfArg(ReceiverDef { attrs: s(""), reference: Some(None), mutability: false, ty: None })
}

fn method(asyncness: bool, ident: &str, inputs: Vec<ArgDef>, output: OutputDef) -> ItemDef {
    ItemDef::Fn {
        attrs: s(""),
        sig: SigDef {
            constness: false,
            asyncness,
            unsafety: false,
            abi: s(""),
            ident: s(ident),
            generics: no_generics(),
            inputs,
            variadic: None,
            output,
        },
        default: None,
    }
}

fn assoc(ident: &str, bounds: &str) -> ItemDef {
    ItemDef::Type {
        attrs: s(""),
        ident: s(ident),
        generics: no_generics(),
        bounds: s(bounds),
        default: None,
    }
}

fn a_trait(ident: &str, generics: GenericsDef, items: Vec<ItemDef>) -> TraitDef {
    TraitDef {
        attrs: s(""),
        vis: s(""),
        unsafety: false,
        auto: false,
        ident: s(ident),
        generics,
        supertraits: s(""),
        inner_attrs: s(""),
        items,
    }
}

/// `trait MyTrait { type Item; async fn foo(&self) -> Self::Item; }`
fn my_trait() -> TraitDef {
    a_trait(
        "MyTrait",
        no_generics(),
        vec![
            assoc("Item", ""),
            method(true, "foo", vec![self_ref()], OutputDef::Type(s("Self::Item"))),
        ],
    )
}

/// `trait Next { type Item; async fn next(&self) -> Option<Self::Item>; }`
fn next_trait() -> TraitDef {
    a_trait(
        "Next",
        no_generics(),
        vec![
            assoc("Item", ""),
            method(true, "next", vec![self_ref()], OutputDef::Type(s("Option<Self::Item>"))),
        ],
    )
}

fn ident(x: &str) -> AttrToken {
    AttrToken::Ident(s(x))
}

#[test]
fn make_dyn_erases_async_methods() {
    let out = make_dyn(&vec![ident("dyn")], &my_trait()).ok().unwrap();
    assert_eq!(
        tokens(&out),
        tokens(
            "trait MyTrait { type Item; async fn foo(&self) -> Self::Item; } \
             trait ErasedMyTrait { type Item; fn foo<'a>(&'a self) \
             -> std::pin::Pin<Box<dyn std::future::Future<Output = Self::Item> + 'a>>; }"
        )
    );
    assert!(syn::parse_file(&out).is_ok());
}

#[test]
fn make_dyn_refuses_other_arguments() {
    assert!(make_dyn(&vec![ident("Foo")], &my_trait()).err() == Some(AttrError::ExpectedDyn { at: 0 }));
}

#[test]
fn erasure_of_a_trait_without_async_methods_renames_it() {
    let t = a_trait(
        "Plain",
        no_generics(),
        vec![method(false, "len", vec![self_ref()], OutputDef::Type(s("usize")))],
    );
    assert_eq!(tokens(&mk_erased_trait(&t, false)), tokens("trait ErasedPlain { fn len(&self) -> usize; }"));
}

#[test]
fn erasure_keeps_named_receiver_lifetimes_and_boxes_impl_trait() {
    let t = a_trait(
        "Stream",
        no_generics(),
        vec![
            method(
                true,
                "get",
                vec![ArgDef::SelfArg(ReceiverDef {
                    attrs: s(""),
                    reference: Some(Some(s("'s"))),
                    mutability: true,
                    ty: None,
                })],
                OutputDef::Default,
            ),
            method(false, "iter", vec![self_ref()], OutputDef::ImplTrait(s("Iterator<Item = u8>"))),
            method(true, "make", vec![], OutputDef::Type(s("u8"))),
        ],
    );
    assert_eq!(
        tokens(&mk_erased_trait(&t, true)),
        tokens(
            "trait ErasedStream { \
             fn get(&'s mut self) -> ::core::pin::Pin<Box<dyn ::core::future::Future<Output = ()> + 's>>; \
             fn iter<'dynosaur>(&'dynosaur self) -> ::core::pin::Pin<Box<dyn Iterator<Item = u8> + 'dynosaur>>; \
             fn make() -> ::core::pin::Pin<Box<dyn ::core::future::Future<Output = u8>>>; }"
        )
    );
    // `make_dyn` boxes `async` methods only.
    assert!(mk_erased_trait(&t, false).contains(" -> impl Iterator<Item = u8> "));
}

#[test]
fn dynosaur_expands_the_documented_example() {
    let exp = dynosaur(&vec![ident("DynNext")], &next_trait()).ok().unwrap();
    assert!(exp.errors.is_empty());
    let out = exp.text;
    let expected = "trait Next { type Item; async fn next(&self) -> Option<Self::Item>; } \
        mod _dynosaur_macro_dynnext { use super::*; \
        trait ErasedNext { type Item; fn next<'dynosaur>(&'dynosaur self) -> ::core::pin::Pin<Box<dyn ::core::future::Future<Output = Option<Self::Item>> + 'dynosaur>>; } \
        impl<DYNOSAUR: Next> ErasedNext for DYNOSAUR { type Item = <Self as Next>::Item; \
        fn next<'dynosaur>(&'dynosaur self) -> ::core::pin::Pin<Box<dyn ::core::future::Future<Output = Option<Self::Item>> + 'dynosaur>> { Box::pin(<Self as Next>::next(self)) } } \
        #[repr(transparent)] pub struct DynNext<'dynosaur_struct, Item: > { ptr: dyn ErasedNext<Item = Item> + 'dynosaur_struct } \
        impl<'dynosaur_struct, Item: > Next for DynNext<'dynosaur_struct, Item> { type Item = Item; \
        fn next(&self) -> impl ::core::future::Future<Output = Option<Self::Item>> { \
        let fut: ::core::pin::Pin<Box<dyn ::core::future::Future<Output = Option<Self::Item>> + '_>> = self.ptr.next(); \
        let fut: ::core::pin::Pin<Box<dyn ::core::future::Future<Output = Option<Self::Item>> + 'static>> = unsafe { ::core::mem::transmute(fut) }; fut } } \
        impl<'dynosaur_struct, Item: > DynNext<'dynosaur_struct, Item> { \
        pub fn new(value: Box<impl Next<Item = Item> + 'dynosaur_struct>) -> Box<DynNext<'dynosaur_struct, Item>> { let value: Box<dyn ErasedNext<Item = Item> + 'dynosaur_struct> = value; unsafe { ::core::mem::transmute(value) } } \
        pub fn boxed(value: impl Next<Item = Item> + 'dynosaur_struct) -> Box<DynNext<'dynosaur_struct, Item>> { Self::new(Box::new(value)) } \
        pub fn from_ref(value: &(impl Next<Item = Item> + 'dynosaur_struct)) -> & DynNext<'dynosaur_struct, Item> { let value: &(dyn ErasedNext<Item = Item> + 'dynosaur_struct) = &*value; unsafe { ::core::mem::transmute(value) } } \
        pub fn from_mut(value: &mut (impl Next<Item = Item> + 'dynosaur_struct)) -> &mut DynNext<'dynosaur_struct, Item> { let value: &mut (dyn ErasedNext<Item = Item> + 'dynosaur_struct) = &mut *value; unsafe { ::core::mem::transmute(value) } } } \
        } use _dynosaur_macro_dynnext::DynNext;";
    assert_eq!(tokens(&out), tokens(expected));
    assert!(syn::parse_file(&out).is_ok());
}

#[test]
fn dynosaur_for_another_trait_leaves_the_trait_alone() {
    let toks = vec![ident("DynSendNext"), AttrToken::Punct('='), ident("dyn"), ident("SendNext")];
    let exp = dynosaur(&toks, &next_trait()).ok().unwrap();
    assert!(exp.errors.is_empty());
    let out = exp.text;
    assert_eq!(tokens(&out), tokens("trait Next { type Item; async fn next(&self) -> Option<Self::Item>; }"));
}

#[test]
fn dynosaur_for_this_trait_expands() {
    let toks = vec![ident("DynNext"), AttrToken::Punct('='), ident("dyn"), ident("Next")];
    let named = dynosaur(&toks, &next_trait()).ok().unwrap();
    let plain = dynosaur(&vec![ident("DynNext")], &next_trait()).ok().unwrap();
    assert_eq!(named.text, plain.text);
    assert_eq!(named.errors, plain.errors);
}

#[test]
fn dynosaur_reports_argument_errors() {
    assert!(dynosaur(&vec![], &next_trait()).err() == Some(AttrError::ExpectedIdent { at: 0 }));
    assert!(dynosaur(&vec![ident("dyn")], &next_trait()).err() == Some(AttrError::KeywordIdent { at: 0 }));
}

#[test]
fn module_name_is_lower_case() {
    assert_eq!(dynosaur_module_name("DynNext"), "_dynosaur_macro_dynnext");
    assert_eq!(dynosaur_module_name("ÄBC"), "_dynosaur_macro_äbc");
}

#[test]
fn struct_params_for_a_generic_trait() {
    let generics = GenericsDef {
        params: vec![
            ParamDef::Lifetime { attrs: s(""), lifetime: s("'a"), bounds: s("") },
            ParamDef::Type { attrs: s(""), ident: s("T"), bounds: s("Clone"), default: Some(s("u8")) },
            ParamDef::Const { attrs: s(""), ident: s("N"), ty: s("usize"), default: None },
        ],
        where_clause: s("where T: Send"),
    };
    let t = a_trait(
        "Store",
        generics,
        vec![assoc("Key", "Ord"), method(true, "get", vec![self_ref()], OutputDef::Default), assoc("Val", "")],
    );
    let p = struct_trait_params(&t);
    assert_eq!(tokens(&p.struct_params), tokens("<'dynosaur_struct, 'a, T: Clone = u8, const N: usize, Key, Val>"));
    assert_eq!(
        tokens(&p.struct_with_bounds_params),
        tokens("<'dynosaur_struct, 'a, T: Clone = u8, const N: usize, Key: Ord, Val: >")
    );
    assert_eq!(tokens(&p.trait_params), tokens("<'a, T: Clone = u8, const N: usize, Key = Key, Val = Val>"));
    assert_eq!(
        tokens(&mk_dyn_struct("DynStore", &t)),
        tokens(
            "#[repr(transparent)] pub struct DynStore<'dynosaur_struct, 'a, T: Clone = u8, const N: usize, Key: Ord, Val: > \
             { ptr: dyn ErasedStore<'a, T: Clone = u8, const N: usize, Key = Key, Val = Val> + 'dynosaur_struct }"
        )
    );
    let blanket = mk_erased_trait_blanket_impl(&t);
    assert_eq!(
        tokens(&blanket),
        tokens(
            "impl<'a, T: Clone, const N: usize, DYNOSAUR: Store<'a, T, N>> ErasedStore<'a, T, N> for DYNOSAUR where T: Send { \
             type Key = <Self as Store<'a, T, N>>::Key; \
             fn get<'dynosaur>(&'dynosaur self) -> ::core::pin::Pin<Box<dyn ::core::future::Future<Output = ()> + 'dynosaur>> \
             { Box::pin(<Self as Store<'a, T, N>>::get(self)) } \
             type Val = <Self as Store<'a, T, N>>::Val; }"
        )
    );
    assert!(tokens(&mk_struct_inherent_impl("DynStore", &t)).len() > 0);
}

#[test]
fn trait_params_are_omitted_when_empty() {
    let t = a_trait("Ping", no_generics(), vec![method(true, "ping", vec![self_ref()], OutputDef::Default)]);
    let p = struct_trait_params(&t);
    assert_eq!(p.trait_params, "");
    assert_eq!(tokens(&p.struct_params), tokens("<'dynosaur_struct>"));
}

#[test]
fn forwarded_arguments() {
    let sig = SigDef {
        constness: false,
        asyncness: true,
        unsafety: false,
        abi: s(""),
        ident: s("send"),
        generics: no_generics(),
        inputs: vec![
            self_ref(),
            ArgDef::Typed { attrs: s(""), pat: Pat::Ident { binding: s("x"), name: s("x") }, ty: s("u8") },
            ArgDef::Typed { attrs: s(""), pat: Pat::Other(s("(a, b)")), ty: s("(u8, u8)") },
            ArgDef::Typed { attrs: s(""), pat: Pat::Ident { binding: s("mut y"), name: s("y") }, ty: s("u16") },
        ],
        variadic: None,
        output: OutputDef::Default,
    };
    let (receiver, args) = invoke_fn_args(&sig);
    assert!(receiver);
    assert_eq!(
        args,
        vec![
            s("x"),
            s("::core::compile_error! { \"patterns are not supported in arguments\" }"),
            s("y"),
        ]
    );
    let free = SigDef { inputs: vec![], ..sig };
    let (receiver, args) = invoke_fn_args(&free);
    assert!(!receiver);
    assert!(args.is_empty());
}

#[test]
fn unsupported_items_become_compile_errors() {
    let t = a_trait("Mac", no_generics(), vec![ItemDef::Other(s("m!();"))]);
    let blanket = mk_erased_trait_blanket_impl(&t);
    assert!(blanket.contains("::core::compile_error! { \"unsupported item type\" }"));
}

#[test]
fn constants_forward_to_the_trait() {
    let t = a_trait(
        "Sized2",
        no_generics(),
        vec![ItemDef::Const { attrs: s(""), ident: s("N"), generics: no_generics(), ty: s("usize"), default: Some(s("3")) }],
    );
    assert_eq!(
        tokens(&mk_erased_trait_blanket_impl(&t)),
        tokens("impl<DYNOSAUR: Sized2> ErasedSized2 for DYNOSAUR { const N: usize = <Self as Sized2>::N; }")
    );
    let out = make_dyn(&vec![ident("dyn")], &t).ok().unwrap();
    assert_eq!(
        tokens(&out),
        tokens("trait Sized2 { const N: usize = 3; } trait ErasedSized2 { const N: usize = 3; }")
    );
}

fn typed(binding: &str, name: &str, ty: &str) -> ArgDef {
    ArgDef::Typed { attrs: s(""), pat: Pat::Ident { binding: s(binding), name: s(name) }, ty: s(ty) }
}

#[test]
fn mut_bindings_are_forwarded_by_name() {
    let t = a_trait(
        "Put",
        no_generics(),
        vec![method(true, "put", vec![self_ref(), typed("mut x", "x", "u8")], OutputDef::Default)],
    );
    let blanket = mk_erased_trait_blanket_impl(&t);
    assert!(tokens(&blanket).join(" ").contains("> : : put ( self , x )"));
    assert!(tokens(&blanket).join(" ").contains("( & ' dynosaur self , mut x : u8 )"));
    let imp = mk_dyn_struct_impl_item("DynPut", &t);
    let toks = tokens(&imp);
    assert!(toks.join(" ").contains("self . ptr . put ( x )"));
    assert!(!toks.join(" ").contains("put ( mut x )"));
    let exp = dynosaur(&vec![ident("DynPut")], &t).ok().unwrap();
    assert!(syn::parse_file(&exp.text).is_ok());
    assert!(exp.errors.is_empty());
}

#[test]
fn lifetimes_are_printed_first() {
    let generics = GenericsDef {
        params: vec![
            ParamDef::Type { attrs: s(""), ident: s("T"), bounds: s(""), default: None },
            ParamDef::Lifetime { attrs: s(""), lifetime: s("'a"), bounds: s("") },
        ],
        where_clause: s(""),
    };
    let t = a_trait("Foo", generics, vec![]);
    let out = make_dyn(&vec![ident("dyn")], &t).ok().unwrap();
    assert_eq!(tokens(&out), tokens("trait Foo<'a, T> {} trait ErasedFoo<'a, T> {}"));
    assert_eq!(
        tokens(&mk_erased_trait_blanket_impl(&t)),
        tokens("impl<'a, T, DYNOSAUR: Foo<'a, T>> ErasedFoo<'a, T> for DYNOSAUR {}")
    );
}

#[test]
fn refused_syntax_is_reported_by_position() {
    let t = a_trait(
        "Odd",
        no_generics(),
        vec![
            assoc("Item", ""),
            method(
                false,
                "f",
                vec![
                    self_ref(),
                    ArgDef::Typed { attrs: s(""), pat: Pat::Other(s("(a, b)")), ty: s("(u8, u8)") },
                    typed("c", "c", "u8"),
                    ArgDef::Typed { attrs: s(""), pat: Pat::Other(s("[d]")), ty: s("[u8; 1]") },
                ],
                OutputDef::Default,
            ),
            ItemDef::Other(s("m!();")),
        ],
    );
    let expected = vec![
        SyntaxError::PatternNotSupported { item: 1, input: 1 },
        SyntaxError::PatternNotSupported { item: 1, input: 3 },
        SyntaxError::UnsupportedItem { item: 2 },
    ];
    assert_eq!(unsupported_syntax(&t), expected);
    let exp = dynosaur(&vec![ident("DynOdd")], &t).ok().unwrap();
    assert_eq!(exp.errors, expected);
    assert_eq!(exp.text.matches("compile_error!").count(), 2 * expected.len());
    let passed = dynosaur(
        &vec![ident("DynOdd"), AttrToken::Punct('='), ident("dyn"), ident("Other")],
        &t,
    )
    .ok()
    .unwrap();
    assert!(passed.errors.is_empty());
}

#[test]
fn plain_names_are_accepted() {
    for name in ["Next", "DynNext", "_x", "r2d2"] {
        let exp = dynosaur(&vec![ident(name)], &next_trait()).ok().unwrap();
        assert!(exp.text.ends_with(&format!("::{};", name)));
    }
    for name in ["_", "fn", "self", "async"] {
        assert!(dynosaur(&vec![ident(name)], &next_trait()).err() == Some(AttrError::KeywordIdent { at: 0 }));
    }
}

#[test]
fn make_dyn_keeps_default_bodies() {
    let mut m = method(true, "get", vec![self_ref()], OutputDef::Type(s("u8")));
    if let ItemDef::Fn { default, .. } = &mut m {
        *default = Some(s("{ 1 }"));
    }
    let t = a_trait("Get", no_generics(), vec![m]);
    assert_eq!(
        tokens(&mk_erased_trait(&t, false)),
        tokens(
            "trait ErasedGet { fn get<'a>(&'a self) \
             -> std::pin::Pin<Box<dyn std::future::Future<Output = u8> + 'a>> { 1 } }"
        )
    );
    assert_eq!(
        tokens(&mk_erased_trait(&t, true)),
        tokens(
            "trait ErasedGet { fn get<'dynosaur>(&'dynosaur self) \
             -> ::core::pin::Pin<Box<dyn ::core::future::Future<Output = u8> + 'dynosaur>>; }"
        )
    );
}

fn src_tokens(src: &str) -> TokenStream {
    src.parse::<TokenStream>().unwrap()
}

#[test]
fn dynosaur_from_source_tokens() {
    let out = dynosaur_source(
        &vec![ident("DynNext")],
        src_tokens("trait Next { type Item; async fn next(&self) -> Option<Self::Item>; }"),
    );
    let x = match out {
        Ok(x) => x,
        Err(_) => panic!("expected an expansion"),
    };
    let model = dynosaur(&vec![ident("DynNext")], &next_trait()).ok().unwrap();
    assert_eq!(tokens(&x.expansion.text), tokens(&model.text));
    assert_eq!(tokens(&x.expansion.generated), tokens(&model.generated));
    assert!(x.expansion.text.ends_with(&x.expansion.generated));
    assert!(x.error_spans.is_empty());
}

#[test]
fn source_items_that_are_not_traits_are_refused() {
    let out = dynosaur_source(&vec![ident("DynNext")], src_tokens("struct Next;"));
    assert!(matches!(out, Err(SourceError::NotATrait(_))));
    let out = make_dyn_source(&vec![ident("dyn")], src_tokens("fn next() {}"));
    assert!(matches!(out, Err(SourceError::NotATrait(_))));
}

#[test]
fn source_arguments_are_checked_first() {
    let out = dynosaur_source(&vec![], src_tokens("struct Next;"));
    assert!(matches!(out, Err(SourceError::Attr(AttrError::ExpectedIdent { at: 0 }))));
    let out = make_dyn_source(&vec![ident("foo")], src_tokens("struct Next;"));
    assert!(matches!(out, Err(SourceError::Attr(AttrError::ExpectedDyn { at: 0 }))));
}

#[test]
fn make_dyn_from_source_tokens() {
    let out = make_dyn_source(
        &vec![ident("dyn")],
        src_tokens("trait MyTrait { type Item; async fn foo(&self) -> Self::Item; }"),
    );
    let x = match out {
        Ok(x) => x,
        Err(_) => panic!("expected an expansion"),
    };
    let text = x.text;
    assert_eq!(
        tokens(&x.generated),
        tokens(
            "trait ErasedMyTrait { type Item; fn foo<'a>(&'a self) \
             -> std::pin::Pin<Box<dyn std::future::Future<Output = Self::Item> + 'a>>; }"
        )
    );
    assert_eq!(
        tokens(&text),
        tokens(
            "trait MyTrait { type Item; async fn foo(&self) -> Self::Item; } \
             trait ErasedMyTrait { type Item; fn foo<'a>(&'a self) \
             -> std::pin::Pin<Box<dyn std::future::Future<Output = Self::Item> + 'a>>; }"
        )
    );
}

#[test]
fn source_reads_mut_bindings_patterns_and_attributes() {
    let t = syn::parse_str::<syn::ItemTrait>(
        "#[doc = \"x\"] pub trait Put<'a, T> where T: Send { \
         #![allow(unused)] \
         async fn put(&self, mut x: u8, (a, b): (u8, u8)) { #![allow(unused)] let _ = x; } \
         m!(); }",
    )
    .unwrap();
    let model = trait_model(&t);
    assert_eq!(model.ident, "Put");
    assert_eq!(tokens(&model.attrs), tokens("#[doc = \"x\"]"));
    assert_eq!(tokens(&model.inner_attrs), tokens("#![allow(unused)]"));
    assert_eq!(model.generics.params.len(), 2);
    assert_eq!(model.items.len(), 2);
    match &model.items[0] {
        ItemDef::Fn { sig, default, .. } => {
            assert!(sig.asyncness);
            assert_eq!(sig.inputs.len(), 3);
            match &sig.inputs[1] {
                ArgDef::Typed { pat: Pat::Ident { binding, name }, .. } => {
                    assert_eq!(tokens(binding), tokens("mut x"));
                    assert_eq!(name, "x");
                }
                _ => panic!("expected a plain binding"),
            }
            assert!(matches!(&sig.inputs[2], ArgDef::Typed { pat: Pat::Other(_), .. }));
            assert_eq!(
                tokens(default.as_ref().unwrap()),
                tokens("{ #![allow(unused)] let _ = x; }")
            );
        }
        _ => panic!("expected a method"),
    }
    assert!(matches!(&model.items[1], ItemDef::Other(_)));
    let exp = dynosaur_source(
        &vec![ident("DynPut")],
        src_tokens(
            "trait Put { async fn put(&self, (a, b): (u8, u8)); m!(); }",
        ),
    );
    match exp {
        Ok(x) => {
            assert_eq!(
                x.expansion.errors,
                vec![
                    SyntaxError::PatternNotSupported { item: 0, input: 1 },
                    SyntaxError::UnsupportedItem { item: 1 },
                ]
            );
            assert_eq!(x.error_spans.len(), 2);
        }
        Err(_) => panic!("expected an expansion"),
    }
}

use dynosaur::attrs::{parse_dynosaur_attrs, parse_make_dyn_attrs, AttrError, AttrToken};

fn ident(s: &str) -> AttrToken {
    AttrToken::Ident(s.to_string())
}

#[test]
fn make_dyn_accepts_dyn_alone() {
    assert!(parse_make_dyn_attrs(&vec![ident("dyn")]) == Ok(()));
}

#[test]
fn make_dyn_refuses_anything_else() {
    assert!(parse_make_dyn_attrs(&vec![]) == Err(AttrError::ExpectedDyn { at: 0 }));
    assert!(parse_make_dyn_attrs(&vec![ident("Dyn")]) == Err(AttrError::ExpectedDyn { at: 0 }));
    assert!(parse_make_dyn_attrs(&vec![ident("r#dyn")]) == Err(AttrError::ExpectedDyn { at: 0 }));
    assert!(
        parse_make_dyn_attrs(&vec![ident("dyn"), ident("dyn")])
            == Err(AttrError::UnexpectedToken { at: 1 })
    );
}

#[test]
fn dynosaur_name_alone() {
    let a = parse_dynosaur_attrs(&vec![ident("DynNext")]).ok().unwrap();
    assert_eq!(a.ident, "DynNext");
    assert!(a.target.is_none());
}

#[test]
fn dynosaur_name_and_trait() {
    let toks = vec![ident("DynNext"), AttrToken::Punct('='), ident("dyn"), ident("Next")];
    let a = parse_dynosaur_attrs(&toks).ok().unwrap();
    assert_eq!(a.ident, "DynNext");
    assert_eq!(a.target, Some("Next".to_string()));
}

#[test]
fn dynosaur_raw_identifier_is_a_name() {
    let a = parse_dynosaur_attrs(&vec![ident("r#dyn")]).ok().unwrap();
    assert_eq!(a.ident, "r#dyn");
}

#[test]
fn dynosaur_keywords_are_not_names() {
    for kw in ["dyn", "fn", "_", "self", "Self", "trait", "async"] {
        assert!(parse_dynosaur_attrs(&vec![ident(kw)]).err() == Some(AttrError::KeywordIdent { at: 0 }));
    }
    let toks = vec![ident("A"), AttrToken::Punct('='), ident("dyn"), ident("impl")];
    assert!(parse_dynosaur_attrs(&toks).err() == Some(AttrError::KeywordIdent { at: 3 }));
}

#[test]
fn dynosaur_errors() {
    let err = |toks: Vec<AttrToken>| parse_dynosaur_attrs(&toks).err();
    assert!(err(vec![]) == Some(AttrError::ExpectedIdent { at: 0 }));
    assert!(err(vec![AttrToken::Literal("1".to_string())]) == Some(AttrError::ExpectedIdent { at: 0 }));
    assert!(err(vec![ident("A"), ident("B")]) == Some(AttrError::UnexpectedToken { at: 1 }));
    assert!(err(vec![ident("A"), AttrToken::Punct('=')]) == Some(AttrError::ExpectedDyn { at: 2 }));
    assert!(
        err(vec![ident("A"), AttrToken::Punct('='), ident("Next")])
            == Some(AttrError::ExpectedDyn { at: 2 })
    );
    assert!(
        err(vec![ident("A"), AttrToken::Punct('='), ident("dyn")])
            == Some(AttrError::ExpectedIdent { at: 3 })
    );
    assert!(
        err(vec![ident("A"), AttrToken::Punct('='), ident("dyn"), AttrToken::Group("(X)".to_string())])
            == Some(AttrError::ExpectedIdent { at: 3 })
    );
    assert!(
        err(vec![ident("A"), AttrToken::Punct('='), ident("dyn"), ident("B"), AttrToken::Punct(',')])
            == Some(AttrError::UnexpectedToken { at: 4 })
    );
    assert!(err(vec![ident("A"), AttrToken::Punct(':')]) == Some(AttrError::UnexpectedToken { at: 1 }));
}

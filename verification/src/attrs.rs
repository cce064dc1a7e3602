//! The arguments of the two attribute macros.
//!
//! `make_dyn` takes exactly the keyword `dyn`. `dynosaur` takes the name of
//! the struct to create, optionally followed by `= dyn Trait`, which selects the
//! trait that the attribute applies to.
use vstd::prelude::*;

verus! {

/// One token of an attribute's argument list. `Ident` holds the identifier as
/// it is written (a raw identifier keeps its `r#` prefix).
pub enum AttrToken {
    Ident(String),
    Punct(char),
    Literal(String),
    Group(String),
}

/// The arguments of `dynosaur`: the struct's name, and the trait that the
/// attribute is meant for when it was given as `= dyn Trait`.
pub struct DynosaurAttrs {
    pub ident: String,
    pub target: Option<String>,
}

/// Why an argument list was refused; `at` is the index of the offending token,
/// equal to the number of tokens when the input ended too early.
#[derive(PartialEq, Eq, Structural)]
pub enum AttrError {
    /// An identifier was expected.
    ExpectedIdent { at: usize },
    /// An identifier was expected, and a keyword stands there.
    KeywordIdent { at: usize },
    /// The keyword `dyn` was expected.
    ExpectedDyn { at: usize },
    /// The argument list goes on after its end.
    UnexpectedToken { at: usize },
}

/// The words that `syn::Ident`'s parser refuses: `_` and the keywords.
pub open spec fn syn_reserved(s: Seq<char>) -> bool {
    s == "_"@
        || s == "abstract"@
        || s == "as"@
        || s == "async"@
        || s == "await"@
        || s == "become"@
        || s == "box"@
        || s == "break"@
        || s == "const"@
        || s == "continue"@
        || s == "crate"@
        || s == "do"@
        || s == "dyn"@
        || s == "else"@
        || s == "enum"@
        || s == seq!['e', 'x', 't', 'e', 'r', 'n']
        || s == "false"@
        || s == "final"@
        || s == "fn"@
        || s == "for"@
        || s == "if"@
        || s == "impl"@
        || s == "in"@
        || s == "let"@
        || s == "loop"@
        || s == "macro"@
        || s == "match"@
        || s == "mod"@
        || s == "move"@
        || s == "mut"@
        || s == "override"@
        || s == "priv"@
        || s == "pub"@
        || s == "ref"@
        || s == "return"@
        || s == "Self"@
        || s == "self"@
        || s == "static"@
        || s == "struct"@
        || s == "super"@
        || s == "trait"@
        || s == "true"@
        || s == "try"@
        || s == "type"@
        || s == "typeof"@
        || s == "unsafe"@
        || s == "unsized"@
        || s == "use"@
        || s == "virtual"@
        || s == "where"@
        || s == "while"@
        || s == "yield"@
}

/// Whether `c` is an ASCII letter.
pub open spec fn is_ascii_letter(c: char) -> bool {
    ('a' <= c && c <= 'z') || ('A' <= c && c <= 'Z')
}

/// Whether `s` is a plain ASCII identifier: an ASCII letter or `_`, then ASCII
/// letters, digits and `_`.
pub open spec fn is_ascii_ident(s: Seq<char>) -> bool {
    &&& s.len() > 0
    &&& is_ascii_letter(s[0]) || s[0] == '_'
    &&& forall|i: int|
        1 <= i < s.len() ==> is_ascii_letter(#[trigger] s[i]) || ('0' <= s[i] && s[i] <= '9')
            || s[i] == '_'
}

/// `syn`'s answer for the token at index `at`: `answers[at]`, or `false` past
/// the end of `answers`.
pub open spec fn answer_at(answers: Seq<bool>, at: int) -> bool {
    if 0 <= at < answers.len() {
        answers[at]
    } else {
        false
    }
}

/// Calls `syn::parse_str::<syn::Ident>` on one identifier's text. For a plain
/// ASCII identifier, `syn` refuses exactly `_` and its list of keywords. For
/// any other text nothing is stated: `proc_macro2` lexes it with the
/// compiler's tables inside a procedural macro and with its own elsewhere,
/// and the two may differ on recent Unicode letters.
#[verifier::external_body]
fn accepts_as_ident(s: &str) -> (b: bool)
    ensures
        is_ascii_ident(s@) ==> (b <==> !syn_reserved(s@)),
{
    syn::parse_str::<syn::Ident>(s).is_ok()
}

/// Whether `answers` can be `syn`'s answers for the tokens: one per token,
/// and for a plain ASCII identifier, acceptance exactly when it is neither
/// `_` nor a keyword.
pub open spec fn answers_consistent(toks: Seq<AttrToken>, answers: Seq<bool>) -> bool {
    &&& answers.len() == toks.len()
    &&& forall|i: int| 0 <= i < toks.len() ==> answer_fits(#[trigger] toks[i], answers[i])
}

/// Whether `answer` can be `syn`'s answer for the token: for a plain ASCII
/// identifier, acceptance exactly when it is neither `_` nor a keyword.
pub open spec fn answer_fits(t: AttrToken, answer: bool) -> bool {
    match t {
        AttrToken::Ident(s) => is_ascii_ident(s@) ==> (answer <==> !syn_reserved(s@)),
        _ => true,
    }
}

/// Asks `syn` about every identifier among the tokens: entry `i` is its
/// answer for token `i` (`false` for a token that is no identifier).
pub fn ident_answers(toks: &Vec<AttrToken>) -> (r: Vec<bool>)
    ensures
        answers_consistent(toks@, r@),
{
    let mut r: Vec<bool> = Vec::new();
    let n = toks.len();
    for i in 0..n
        invariant
            n == toks@.len(),
            r@.len() == i,
            forall|j: int| 0 <= j < i ==> answer_fits(#[trigger] toks@[j], r@[j]),
    {
        let b = match &toks[i] {
            AttrToken::Ident(s) => accepts_as_ident(s.as_str()),
            _ => false,
        };
        r.push(b);
    }
    r
}

/// Whether the token is the keyword `dyn`.
pub open spec fn is_dyn(t: AttrToken) -> bool {
    t matches AttrToken::Ident(s) && s@ == "dyn"@
}

/// Whether the token is `=`.
pub open spec fn is_eq(t: AttrToken) -> bool {
    t matches AttrToken::Punct(c) && c == '='
}

/// The identifier at index `at`, or the error that `syn` reports there, given
/// `syn`'s answers for the tokens.
pub open spec fn spec_ident_at(toks: Seq<AttrToken>, answers: Seq<bool>, at: int) -> Result<
    Seq<char>,
    AttrError,
> {
    if 0 <= at < toks.len() && toks[at] is Ident {
        let s = toks[at]->Ident_0@;
        if answer_at(answers, at) {
            Ok(s)
        } else {
            Err(AttrError::KeywordIdent { at: at as usize })
        }
    } else {
        Err(AttrError::ExpectedIdent { at: at as usize })
    }
}

/// The argument list of `make_dyn`: the keyword `dyn` and nothing else.
pub open spec fn spec_make_dyn_attrs(toks: Seq<AttrToken>) -> Result<(), AttrError> {
    if toks.len() == 0 || !is_dyn(toks[0]) {
        Err(AttrError::ExpectedDyn { at: 0 })
    } else if toks.len() > 1 {
        Err(AttrError::UnexpectedToken { at: 1 })
    } else {
        Ok(())
    }
}

/// The argument list of `dynosaur`: `Name` or `Name = dyn Trait`, and nothing
/// after it, given `syn`'s answers for the tokens. The result is the name and
/// the optional trait.
pub open spec fn spec_dynosaur_attrs(toks: Seq<AttrToken>, answers: Seq<bool>) -> Result<
    (Seq<char>, Option<Seq<char>>),
    AttrError,
> {
    match spec_ident_at(toks, answers, 0) {
        Err(e) => Err(e),
        Ok(name) => if toks.len() > 1 && is_eq(toks[1]) {
            if toks.len() <= 2 || !is_dyn(toks[2]) {
                Err(AttrError::ExpectedDyn { at: 2 })
            } else {
                match spec_ident_at(toks, answers, 3) {
                    Err(e) => Err(e),
                    Ok(target) => if toks.len() > 4 {
                        Err(AttrError::UnexpectedToken { at: 4 })
                    } else {
                        Ok((name, Some(target)))
                    },
                }
            }
        } else if toks.len() > 1 {
            Err(AttrError::UnexpectedToken { at: 1 })
        } else {
            Ok((name, None))
        },
    }
}

/// The model of a parsed `dynosaur` argument list.
pub open spec fn attrs_model(a: DynosaurAttrs) -> (Seq<char>, Option<Seq<char>>) {
    (
        a.ident@,
        match a.target {
            Some(t) => Some(t@),
            None => None,
        },
    )
}

fn token_is_dyn(t: &AttrToken) -> (b: bool)
    ensures
        b == is_dyn(*t),
{
    match t {
        AttrToken::Ident(s) => *s == "dyn".to_owned(),
        _ => false,
    }
}

fn ident_at(toks: &Vec<AttrToken>, answers: &Vec<bool>, at: usize) -> (r: Result<String, AttrError>)
    ensures
        match (r, spec_ident_at(toks@, answers@, at as int)) {
            (Ok(s), Ok(t)) => s@ == t,
            (Err(e), Err(f)) => e == f,
            _ => false,
        },
{
    if at < toks.len() {
        match &toks[at] {
            AttrToken::Ident(s) => {
                if at < answers.len() && answers[at] {
                    Ok(s.clone())
                } else {
                    Err(AttrError::KeywordIdent { at })
                }
            },
            _ => Err(AttrError::ExpectedIdent { at }),
        }
    } else {
        Err(AttrError::ExpectedIdent { at })
    }
}

/// Parses the argument list of `make_dyn`, which must be the keyword `dyn`
/// alone.
pub fn parse_make_dyn_attrs(toks: &Vec<AttrToken>) -> (r: Result<(), AttrError>)
    ensures
        r == spec_make_dyn_attrs(toks@),
{
    if toks.len() == 0 || !token_is_dyn(&toks[0]) {
        Err(AttrError::ExpectedDyn { at: 0 })
    } else if toks.len() > 1 {
        Err(AttrError::UnexpectedToken { at: 1 })
    } else {
        Ok(())
    }
}

/// Whether a parse result agrees with the model of the argument list.
pub open spec fn attrs_agree(
    r: Result<DynosaurAttrs, AttrError>,
    m: Result<(Seq<char>, Option<Seq<char>>), AttrError>,
) -> bool {
    match (r, m) {
        (Ok(a), Ok(m)) => attrs_model(a) == m,
        (Err(e), Err(f)) => e == f,
        _ => false,
    }
}

/// Parses the argument list of `dynosaur` (`Name` or `Name = dyn Trait`),
/// asking `syn` about each identifier.
pub fn parse_dynosaur_attrs(toks: &Vec<AttrToken>) -> (r: Result<DynosaurAttrs, AttrError>)
    ensures
        exists|answers: Seq<bool>|
            answers_consistent(toks@, answers) && attrs_agree(
                r,
                spec_dynosaur_attrs(toks@, answers),
            ),
{
    let answers = ident_answers(toks);
    parse_dynosaur_attrs_with(toks, &answers)
}

/// Parses the argument list of `dynosaur` (`Name` or `Name = dyn Trait`),
/// given `syn`'s answers for its tokens.
pub fn parse_dynosaur_attrs_with(toks: &Vec<AttrToken>, answers: &Vec<bool>) -> (r: Result<
    DynosaurAttrs,
    AttrError,
>)
    ensures
        attrs_agree(r, spec_dynosaur_attrs(toks@, answers@)),
{
    let ident = match ident_at(toks, answers, 0) {
        Ok(s) => s,
        Err(e) => return Err(e),
    };
    let is_eq_next = toks.len() > 1 && match &toks[1] {
        AttrToken::Punct(c) => *c == '=',
        _ => false,
    };
    if is_eq_next {
        if toks.len() <= 2 || !token_is_dyn(&toks[2]) {
            return Err(AttrError::ExpectedDyn { at: 2 });
        }
        let target = match ident_at(toks, answers, 3) {
            Ok(s) => s,
            Err(e) => return Err(e),
        };
        if toks.len() > 4 {
            return Err(AttrError::UnexpectedToken { at: 4 });
        }
        Ok(DynosaurAttrs { ident, target: Some(target) })
    } else if toks.len() > 1 {
        Err(AttrError::UnexpectedToken { at: 1 })
    } else {
        Ok(DynosaurAttrs { ident, target: None })
    }
}

} // verus!

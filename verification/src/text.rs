//! Source text: joining pieces, and the text of the model's leaves.
use vstd::prelude::*;
use vstd::string::StringExecFns;

verus! {

/// `parts` joined by `sep`.
pub open spec fn join(parts: Seq<Seq<char>>, sep: Seq<char>) -> Seq<char>
    decreases parts.len(),
{
    if parts.len() == 0 {
        Seq::empty()
    } else if parts.len() == 1 {
        parts[0]
    } else {
        join(parts.drop_last(), sep) + sep + parts.last()
    }
}

/// The characters of each string.
pub open spec fn strs(v: Seq<String>) -> Seq<Seq<char>> {
    Seq::new(v.len(), |i: int| v[i]@)
}

/// `parts` between angle brackets, or nothing when there are no parts.
pub open spec fn angle(parts: Seq<Seq<char>>) -> Seq<char> {
    if parts.len() == 0 {
        Seq::empty()
    } else {
        "<"@ + join(parts, ", "@) + ">"@
    }
}

/// `word` and a space when `b` holds, else nothing.
pub open spec fn flag(b: bool, word: Seq<char>) -> Seq<char> {
    if b {
        word + " "@
    } else {
        Seq::empty()
    }
}

/// `prefix` and the text when there is one, else nothing.
pub open spec fn opt_text(prefix: Seq<char>, o: Option<String>) -> Seq<char> {
    match o {
        Some(t) => prefix + t@,
        None => Seq::empty(),
    }
}

/// `prefix` and `t` when `t` is not empty, else nothing.
pub open spec fn nonempty_text(prefix: Seq<char>, t: Seq<char>) -> Seq<char> {
    if t.len() == 0 {
        Seq::empty()
    } else {
        prefix + t
    }
}

/// Joins `parts` with `sep`.
pub fn join_strings(parts: &Vec<String>, sep: &str) -> (r: String)
    ensures
        r@ == join(strs(parts@), sep@),
{
    let mut r = String::new();
    let n = parts.len();
    let mut i: usize = 0;
    while i < n
        invariant
            n == parts@.len(),
            i <= n,
            r@ == join(strs(parts@).take(i as int), sep@),
        decreases n - i,
    {
        let ghost prev = strs(parts@).take(i as int);
        if i > 0 {
            r.append(sep);
        }
        r.append(parts[i].as_str());
        proof {
            let next = strs(parts@).take(i + 1);
            assert(next.drop_last() =~= prev);
            if i == 0 {
                assert(r@ =~= next[0]);
            }
        }
        i = i + 1;
    }
    proof {
        assert(strs(parts@).take(n as int) =~= strs(parts@));
    }
    r
}

/// `a` followed by `b`.
pub fn concat_vecs(a: Vec<String>, b: Vec<String>) -> (r: Vec<String>)
    ensures
        strs(r@) == strs(a@) + strs(b@),
{
    let mut r = a;
    let ghost start = r@;
    let n = b.len();
    for i in 0..n
        invariant
            n == b@.len(),
            r@.len() == start.len() + i,
            forall|j: int| 0 <= j < start.len() ==> #[trigger] r@[j] == start[j],
            forall|j: int| 0 <= j < i ==> #[trigger] r@[start.len() + j] == b@[j],
    {
        r.push(b[i].clone());
    }
    proof {
        let want = strs(start) + strs(b@);
        assert forall|k: int| 0 <= k < want.len() implies #[trigger] strs(r@)[k] == want[k] by {
            if k >= start.len() {
                let j = k - start.len();
                assert(r@[start.len() + j] == b@[j]);
            }
        }
        assert(strs(r@) =~= want);
    }
    r
}

/// `parts` between angle brackets, or nothing when there are no parts.
pub fn angle_strings(parts: &Vec<String>) -> (r: String)
    ensures
        r@ == angle(strs(parts@)),
{
    if parts.len() == 0 {
        String::new()
    } else {
        let mut r = "<".to_owned();
        let j = join_strings(parts, ", ");
        r.append(j.as_str());
        r.append(">");
        r
    }
}

/// Appends `word` and a space when `b` holds.
pub fn push_flag(r: &mut String, b: bool, word: &str)
    ensures
        final(r)@ == old(r)@ + flag(b, word@),
{
    if b {
        r.append(word);
        r.append(" ");
    } else {
        proof {
            assert(old(r)@ + flag(b, word@) =~= old(r)@);
        }
    }
}

/// Appends `prefix` and the text when there is one.
pub fn push_opt(r: &mut String, prefix: &str, o: &Option<String>)
    ensures
        final(r)@ == old(r)@ + opt_text(prefix@, *o),
{
    match o {
        Some(t) => {
            r.append(prefix);
            r.append(t.as_str());
        },
        None => {
            proof {
                assert(old(r)@ + opt_text(prefix@, *o) =~= old(r)@);
            }
        },
    }
}

/// Appends `prefix` and `t` when `t` is not empty.
pub fn push_nonempty(r: &mut String, prefix: &str, t: &String)
    ensures
        final(r)@ == old(r)@ + nonempty_text(prefix@, t@),
{
    if t.as_str().is_empty() {
        proof {
            assert(old(r)@ + nonempty_text(prefix@, t@) =~= old(r)@);
        }
    } else {
        r.append(prefix);
        r.append(t.as_str());
    }
}

} // verus!

//! Text values and their mathematical views.
use vstd::prelude::*;

verus! {

/// The character sequences of a sequence of strings.
pub open spec fn texts(s: Seq<String>) -> Seq<Seq<char>> {
    s.map_values(|x: String| x@)
}

/// The character sequence of an optional string.
pub open spec fn opt_text(o: Option<String>) -> Option<Seq<char>> {
    match o {
        Some(s) => Some(s@),
        None => None,
    }
}

/// Whether two strings hold the same characters.
pub fn same_text(a: &String, b: &String) -> (r: bool)
    ensures
        r == (a@ == b@),
{
    *a == *b
}

/// Whether two optional strings are both missing or hold the same characters.
pub fn same_opt_text(a: &Option<String>, b: &Option<String>) -> (r: bool)
    ensures
        r == (opt_text(*a) == opt_text(*b)),
{
    match (a, b) {
        (Some(x), Some(y)) => same_text(x, y),
        (None, None) => true,
        _ => false,
    }
}

/// Whether an optional string is present and holds the characters of `b`.
pub fn opt_text_is(a: &Option<String>, b: &String) -> (r: bool)
    ensures
        r == (opt_text(*a) == Some(b@)),
{
    match a {
        Some(x) => same_text(x, b),
        None => false,
    }
}

/// Whether `v` holds a string with the characters of `s`.
pub fn contains_text(v: &Vec<String>, s: &String) -> (r: bool)
    ensures
        r == texts(v@).contains(s@),
{
    let mut i: usize = 0;
    while i < v.len()
        invariant
            i <= v.len(),
            forall|k: int| 0 <= k < i ==> texts(v@)[k] != s@,
        decreases v.len() - i,
    {
        if same_text(&v[i], s) {
            assert(texts(v@)[i as int] == s@);
            return true;
        }
        i += 1;
    }
    false
}

/// A copy of an optional string.
pub fn copy_opt_text(a: &Option<String>) -> (r: Option<String>)
    ensures
        opt_text(r) == opt_text(*a),
{
    match a {
        Some(x) => Some(x.clone()),
        None => None,
    }
}

/// A copy of a list of strings.
pub fn copy_texts(v: &Vec<String>) -> (r: Vec<String>)
    ensures
        texts(r@) == texts(v@),
{
    let mut out: Vec<String> = Vec::new();
    let mut i: usize = 0;
    while i < v.len()
        invariant
            i <= v.len(),
            out@.len() == i,
            forall|k: int| 0 <= k < i ==> out@[k]@ == v@[k]@,
        decreases v.len() - i,
    {
        out.push(v[i].clone());
        i += 1;
    }
    assert(texts(out@) =~= texts(v@));
    out
}

/// Appends `s` to `v` unless `v` already holds a string with its characters.
pub fn push_unique(v: &mut Vec<String>, s: &String)
    ensures
        texts(old(v)@).no_duplicates() ==> texts(final(v)@).no_duplicates(),
        forall|x: Seq<char>| #[trigger]
            texts(final(v)@).contains(x) <==> texts(old(v)@).contains(x) || x == s@,
        texts(old(v)@).contains(s@) ==> texts(final(v)@) == texts(old(v)@),
        !texts(old(v)@).contains(s@) ==> texts(final(v)@) == texts(old(v)@).push(s@),
{
    if !contains_text(v, s) {
        let ghost before = texts(v@);
        v.push(s.clone());
        assert(texts(v@) =~= before.push(s@));
        assert forall|x: Seq<char>| #[trigger] texts(v@).contains(x) <==> before.contains(x) || x == s@ by {
            if before.push(s@).contains(x) {
                let k = choose|k: int| 0 <= k < before.push(s@).len() && before.push(s@)[k] == x;
                if k < before.len() {
                    assert(before[k] == x);
                }
            }
            if before.contains(x) {
                let k = choose|k: int| 0 <= k < before.len() && before[k] == x;
                assert(before.push(s@)[k] == x);
            }
            if x == s@ {
                assert(before.push(s@)[before.len() as int] == x);
            }
        }
    }
}

} // verus!

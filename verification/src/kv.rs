//! Plain-value helpers shared by the recipe and fingerprint modules:
//! equality and copying for lists of strings and of key-value pairs, stated
//! against their sequence-of-characters models.

use vstd::prelude::*;

verus! {

/// Model of a string list: the sequence of character sequences.
pub open spec fn strings_model(s: Seq<String>) -> Seq<Seq<char>> {
    s.map_values(|x: String| x@)
}

/// Model of a key-value list: the sequence of character-sequence pairs.
pub open spec fn pairs_model(s: Seq<(String, String)>) -> Seq<(Seq<char>, Seq<char>)> {
    s.map_values(|p: (String, String)| p@)
}

/// Equality of two string lists, decided element by element, exactly when
/// their models are equal.
pub fn eq_strings(a: &Vec<String>, b: &Vec<String>) -> (r: bool)
    ensures
        r == (strings_model(a@) == strings_model(b@)),
{
    if a.len() != b.len() {
        assert(strings_model(a@).len() != strings_model(b@).len());
        return false;
    }
    let n = a.len();
    let mut i: usize = 0;
    while i < n
        invariant
            n == a.len() == b.len(),
            0 <= i <= n,
            forall|j: int| 0 <= j < i ==> strings_model(a@)[j] == strings_model(b@)[j],
        decreases n - i,
    {
        if !(a[i] == b[i]) {
            assert(strings_model(a@)[i as int] != strings_model(b@)[i as int]);
            return false;
        }
        i += 1;
    }
    proof {
        assert(strings_model(a@) =~= strings_model(b@));
    }
    true
}

/// Equality of two key-value lists, decided pair by pair, exactly when their
/// models are equal.
pub fn eq_pairs(a: &Vec<(String, String)>, b: &Vec<(String, String)>) -> (r: bool)
    ensures
        r == (pairs_model(a@) == pairs_model(b@)),
{
    if a.len() != b.len() {
        assert(pairs_model(a@).len() != pairs_model(b@).len());
        return false;
    }
    let n = a.len();
    let mut i: usize = 0;
    while i < n
        invariant
            n == a.len() == b.len(),
            0 <= i <= n,
            forall|j: int| 0 <= j < i ==> pairs_model(a@)[j] == pairs_model(b@)[j],
        decreases n - i,
    {
        if !(a[i].0 == b[i].0) {
            assert(pairs_model(a@)[i as int] != pairs_model(b@)[i as int]);
            return false;
        }
        if !(a[i].1 == b[i].1) {
            assert(pairs_model(a@)[i as int] != pairs_model(b@)[i as int]);
            return false;
        }
        i += 1;
    }
    proof {
        assert(pairs_model(a@) =~= pairs_model(b@));
    }
    true
}

/// First value bound to a key in a key-value list, if any.
pub open spec fn spec_lookup(s: Seq<(Seq<char>, Seq<char>)>, k: Seq<char>) -> Option<Seq<char>>
    decreases s.len(),
{
    if s.len() == 0 {
        None
    } else if s[0].0 == k {
        Some(s[0].1)
    } else {
        spec_lookup(s.drop_first(), k)
    }
}

/// Looks a key up in a key-value list; returns the first value bound to it.
pub fn lookup(v: &Vec<(String, String)>, k: &String) -> (r: Option<String>)
    ensures
        match r {
            Some(x) => spec_lookup(pairs_model(v@), k@) == Some(x@),
            None => spec_lookup(pairs_model(v@), k@) is None,
        },
{
    let n = v.len();
    proof {
        assert(pairs_model(v@).subrange(0, n as int) =~= pairs_model(v@));
    }
    let mut i: usize = 0;
    while i < n
        invariant
            n == v.len(),
            0 <= i <= n,
            spec_lookup(pairs_model(v@).subrange(i as int, n as int), k@) == spec_lookup(
                pairs_model(v@),
                k@,
            ),
        decreases n - i,
    {
        let ghost tail = pairs_model(v@).subrange(i as int, n as int);
        if v[i].0 == *k {
            proof {
                assert(tail[0].0 == k@);
            }
            return Some(v[i].1.clone());
        }
        proof {
            assert(tail[0].0 != k@);
            assert(tail.drop_first() =~= pairs_model(v@).subrange(i + 1, n as int));
        }
        i += 1;
    }
    proof {
        assert(pairs_model(v@).subrange(n as int, n as int).len() == 0);
    }
    None
}

/// A copy of a string list whose model equals the original's.
pub fn copy_strings(a: &Vec<String>) -> (r: Vec<String>)
    ensures
        strings_model(r@) == strings_model(a@),
{
    let mut out: Vec<String> = Vec::new();
    let n = a.len();
    let mut i: usize = 0;
    while i < n
        invariant
            n == a.len(),
            0 <= i <= n,
            out@.len() == i,
            forall|j: int| 0 <= j < i ==> strings_model(out@)[j] == strings_model(a@)[j],
        decreases n - i,
    {
        out.push(a[i].clone());
        i += 1;
    }
    proof {
        assert(strings_model(out@) =~= strings_model(a@));
    }
    out
}

/// A copy of a key-value list whose model equals the original's.
pub fn copy_pairs(a: &Vec<(String, String)>) -> (r: Vec<(String, String)>)
    ensures
        pairs_model(r@) == pairs_model(a@),
{
    let mut out: Vec<(String, String)> = Vec::new();
    let n = a.len();
    let mut i: usize = 0;
    while i < n
        invariant
            n == a.len(),
            0 <= i <= n,
            out@.len() == i,
            forall|j: int| 0 <= j < i ==> pairs_model(out@)[j] == pairs_model(a@)[j],
        decreases n - i,
    {
        let pair = (a[i].0.clone(), a[i].1.clone());
        out.push(pair);
        i += 1;
    }
    proof {
        assert(pairs_model(out@) =~= pairs_model(a@));
    }
    out
}

} // verus!

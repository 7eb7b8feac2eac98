use vstd::prelude::*;

use crate::decl::{EnumDecl, decl_names};

verus! {

/// What the generated display impl renders variant `i` as: the literal
/// text of its own identifier.
pub open spec fn display_spec(d: EnumDecl, i: int) -> Seq<char> {
    decl_names(d)[i]
}

/// The sequence one full run of the generated iteration yields: every
/// variant's identifier, in declaration order.
pub open spec fn iteration_spec(d: EnumDecl) -> Seq<Seq<char>> {
    decl_names(d)
}

/// What the generated parse-from-string lookup returns: the first
/// declared index whose identifier equals the key, if any.
pub open spec fn first_match(names: Seq<Seq<char>>, key: Seq<char>) -> Option<int>
    decreases names.len(),
{
    if names.len() == 0 {
        None
    } else if names[0] == key {
        Some(0)
    } else {
        match first_match(names.skip(1), key) {
            Some(i) => Some(i + 1),
            None => None,
        }
    }
}

/// The display text of variant `i`: its identifier, unchanged.
pub fn display_text(d: &EnumDecl, i: usize) -> (r: &String)
    requires
        i < d.variants@.len(),
    ensures
        r@ == display_spec(*d, i as int),
{
    &d.variants[i]
}

/// One full run of the generated iteration: every variant identifier,
/// in declaration order, with no gaps, duplicates or omissions. The
/// result is pinned by the declaration alone, so repeated runs yield
/// the same full sequence.
pub fn iteration_sequence(d: &EnumDecl) -> (r: Vec<String>)
    ensures
        r@.map_values(|s: String| s@) == iteration_spec(*d),
        r@.len() == d.variants@.len(),
{
    let mut out: Vec<String> = Vec::new();
    let mut i: usize = 0;
    while i < d.variants.len()
        invariant
            i <= d.variants@.len(),
            out@.len() == i,
            forall|j: int| 0 <= j < i ==> out@[j]@ == d.variants@[j]@,
        decreases d.variants@.len() - i,
    {
        out.push(d.variants[i].clone());
        i += 1;
    }
    proof {
        assert(out@.map_values(|s: String| s@) =~= iteration_spec(*d));
    }
    out
}

/// A scan that found no match before `i` and a match at `i` returns
/// `Some(i)`.
proof fn lemma_first_match_found(names: Seq<Seq<char>>, key: Seq<char>, i: int)
    requires
        0 <= i < names.len(),
        names[i] == key,
        forall|j: int| 0 <= j < i ==> names[j] != key,
    ensures
        first_match(names, key) == Some(i),
    decreases i,
{
    if i == 0 {
    } else {
        assert(names[0] != key);
        lemma_first_match_found(names.skip(1), key, i - 1);
    }
}

/// A scan over names none of which equals the key returns `None`.
proof fn lemma_first_match_none(names: Seq<Seq<char>>, key: Seq<char>)
    requires
        forall|j: int| 0 <= j < names.len() ==> names[j] != key,
    ensures
        first_match(names, key) is None,
    decreases names.len(),
{
    if names.len() == 0 {
    } else {
        lemma_first_match_none(names.skip(1), key);
    }
}

/// The generated lookup: scan the iteration sequence in declaration
/// order and return the index of the first variant whose identifier
/// equals `key` exactly, or `None` when none does.
pub fn parse_from_string(d: &EnumDecl, key: &str) -> (r: Option<usize>)
    ensures
        match r {
            Some(i) => {
                &&& i < d.variants@.len()
                &&& decl_names(*d)[i as int] == key@
                &&& forall|j: int| 0 <= j < i ==> decl_names(*d)[j] != key@
                &&& first_match(decl_names(*d), key@) == Some(i as int)
            },
            None => {
                &&& forall|j: int| 0 <= j < decl_names(*d).len() ==> decl_names(*d)[j] != key@
                &&& first_match(decl_names(*d), key@) is None
            },
        },
{
    let k: String = key.to_owned();
    let mut i: usize = 0;
    while i < d.variants.len()
        invariant
            i <= d.variants@.len(),
            k@ == key@,
            forall|j: int| 0 <= j < i ==> decl_names(*d)[j] != key@,
        decreases d.variants@.len() - i,
    {
        if d.variants[i] == k {
            proof {
                assert(decl_names(*d)[i as int] == key@);
                lemma_first_match_found(decl_names(*d), key@, i as int);
            }
            return Some(i);
        }
        proof {
            assert(decl_names(*d)[i as int] == d.variants@[i as int]@);
        }
        i += 1;
    }
    proof {
        lemma_first_match_none(decl_names(*d), key@);
    }
    None
}

/// Law: the display capability is injective up to identifier text: two
/// variants render to the same text only when their identifiers are
/// textually identical.
pub proof fn lemma_display_injective(d: EnumDecl, i: int, j: int)
    requires
        0 <= i < decl_names(d).len(),
        0 <= j < decl_names(d).len(),
        display_spec(d, i) == display_spec(d, j),
    ensures
        decl_names(d)[i] == decl_names(d)[j],
{
}

/// Law: iteration is restartable: any two full runs over the same
/// declaration yield the same complete sequence, not a continuation.
pub proof fn lemma_iteration_restartable(d: EnumDecl, r1: Seq<Seq<char>>, r2: Seq<Seq<char>>)
    requires
        r1 == iteration_spec(d),
        r2 == iteration_spec(d),
    ensures
        r1 == r2,
{
}

/// Law: round trip: parsing the display text of a declared variant
/// yields that very variant, given that identifiers are distinct
/// within a declaration (the host language's own rule).
pub proof fn lemma_round_trip(d: EnumDecl, i: int)
    requires
        0 <= i < decl_names(d).len(),
        forall|p: int, q: int|
            0 <= p < decl_names(d).len() && 0 <= q < decl_names(d).len() && p != q
                ==> decl_names(d)[p] != decl_names(d)[q],
    ensures
        first_match(decl_names(d), display_spec(d, i)) == Some(i),
{
    lemma_first_match_found(decl_names(d), decl_names(d)[i], i);
}

/// Law: miss: a key that equals no variant's display text parses to
/// `None`.
pub proof fn lemma_parse_miss(d: EnumDecl, key: Seq<char>)
    requires
        forall|j: int| 0 <= j < decl_names(d).len() ==> decl_names(d)[j] != key,
    ensures
        first_match(decl_names(d), key) is None,
{
    lemma_first_match_none(decl_names(d), key);
}

/// Law: the empty declaration: iteration yields the empty sequence,
/// and every key misses.
pub proof fn lemma_empty_decl(d: EnumDecl, key: Seq<char>)
    requires
        decl_names(d).len() == 0,
    ensures
        iteration_spec(d).len() == 0,
        first_match(decl_names(d), key) is None,
{
}

} // verus!

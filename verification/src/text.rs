//! Character-sequence utilities shared by the response builders: substring
//! containment and its concatenation laws, and the two bridges between
//! `String` and `Vec<char>`.
use vstd::prelude::*;

verus! {

/// `needle` occurs contiguously somewhere in `hay`.
pub open spec fn has_sub(hay: Seq<char>, needle: Seq<char>) -> bool {
    exists|i: int|
        0 <= i && i + needle.len() <= hay.len() && #[trigger] hay.subrange(
            i,
            i + needle.len() as int,
        ) == needle
}

/// Every sequence contains what it ends with.
pub proof fn lemma_has_sub_suffix(a: Seq<char>, n: Seq<char>)
    ensures
        has_sub(a + n, n),
{
    let i = a.len() as int;
    assert((a + n).subrange(i, i + n.len() as int) =~= n);
}

/// Containment survives appending on the right.
pub proof fn lemma_has_sub_concat_left(a: Seq<char>, b: Seq<char>, n: Seq<char>)
    requires
        has_sub(a, n),
    ensures
        has_sub(a + b, n),
{
    let i = choose|i: int|
        0 <= i && i + n.len() <= a.len() && #[trigger] a.subrange(i, i + n.len() as int) == n;
    assert((a + b).subrange(i, i + n.len() as int) =~= a.subrange(i, i + n.len() as int));
}

/// Containment survives prepending on the left.
pub proof fn lemma_has_sub_concat_right(a: Seq<char>, b: Seq<char>, n: Seq<char>)
    requires
        has_sub(b, n),
    ensures
        has_sub(a + b, n),
{
    let i = choose|i: int|
        0 <= i && i + n.len() <= b.len() && #[trigger] b.subrange(i, i + n.len() as int) == n;
    let j = a.len() + i;
    assert((a + b).subrange(j, j + n.len() as int) =~= b.subrange(i, i + n.len() as int));
}

/// Relies on `str::chars` and `Iterator::collect`: the characters of the
/// string, in order.
#[verifier::external_body]
pub(crate) fn str_chars(s: &str) -> (r: Vec<char>)
    ensures
        r@ == s@,
{
    s.chars().collect()
}

/// Relies on `String`'s `FromIterator<char>`: the string made of exactly
/// these characters, in order.
#[verifier::external_body]
pub(crate) fn chars_string(v: &Vec<char>) -> (r: String)
    ensures
        r@ == v@,
{
    v.iter().collect()
}

} // verus!

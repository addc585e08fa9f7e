use vstd::prelude::*;

verus! {

/// Whether `a` comes no later than `b` in the order of `str`: character by
/// character by code point, a prefix before what extends it.
pub open spec fn text_le(a: Seq<char>, b: Seq<char>) -> bool
    decreases a.len(),
{
    if a.len() == 0 {
        true
    } else if b.len() == 0 {
        false
    } else if a[0] != b[0] {
        (a[0] as u32) < (b[0] as u32)
    } else {
        text_le(a.drop_first(), b.drop_first())
    }
}

/// The texts of a sequence of strings.
pub open spec fn texts(v: Seq<String>) -> Seq<Seq<char>> {
    v.map_values(|s: String| s@)
}

/// The texts appear in the order of `str`.
pub open spec fn texts_sorted(v: Seq<Seq<char>>) -> bool {
    forall|i: int, j: int| 0 <= i < j < v.len() ==> text_le(#[trigger] v[i], #[trigger] v[j])
}

/// Relies on `slice::sort` over `String`: the same strings, in the order of
/// `str`, which compares code points one by one.
#[verifier::external_body]
pub(crate) fn sort_strings(v: &mut Vec<String>)
    ensures
        final(v)@.len() == old(v)@.len(),
        texts(final(v)@).to_multiset() == texts(old(v)@).to_multiset(),
        texts_sorted(texts(final(v)@)),
{
    v.sort();
}

} // verus!

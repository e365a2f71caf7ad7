//! What keeping the elements of a sequence that satisfy a condition gives.
use vstd::prelude::*;

verus! {

/// Keeping the elements of `s` that satisfy `p`: every kept element
/// satisfies `p` and is an element of `s`, every element of `s` that
/// satisfies `p` is kept, and something is kept exactly when some element
/// of `s` satisfies `p`.
pub proof fn lemma_filter_selects<A>(s: Seq<A>, p: spec_fn(A) -> bool)
    ensures
        forall|i: int|
            0 <= i < s.filter(p).len() ==> p(#[trigger] s.filter(p)[i]) && s.contains(
                s.filter(p)[i],
            ),
        forall|i: int| 0 <= i < s.len() && p(s[i]) ==> #[trigger] s.filter(p).contains(s[i]),
        s.filter(p).len() > 0 <==> exists|k: int| 0 <= k < s.len() && p(#[trigger] s[k]),
{
    broadcast use vstd::seq_lib::group_filter_ensures;

    let f = s.filter(p);
    assert forall|i: int| 0 <= i < f.len() implies p(#[trigger] f[i]) && s.contains(f[i]) by {
        assert(f.contains(f[i]));
        s.lemma_filter_contains_rev(p, f[i]);
    }
    if f.len() > 0 {
        assert(f.contains(f[0]));
        s.lemma_filter_contains_rev(p, f[0]);
        let k = choose|k: int| 0 <= k < s.len() && s[k] == f[0];
        assert(p(s[k]));
    }
    if exists|k: int| 0 <= k < s.len() && p(#[trigger] s[k]) {
        let k = choose|k: int| 0 <= k < s.len() && p(#[trigger] s[k]);
        assert(f.contains(s[k]));
    }
}

} // verus!

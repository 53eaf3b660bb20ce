use vstd::prelude::*;

verus! {

/// `source` is the first pair whose key equals the key of pair `i`.
pub open spec fn is_first_with_key(keys: Seq<u32>, i: int, source: int) -> bool {
    &&& 0 <= source <= i
    &&& keys[source] == keys[i]
    &&& forall|j: int| 0 <= j < source ==> keys[j] != keys[i]
}

/// Plans the absorption profiles of a point: pairs that share a frequency
/// share one profile, computed for the first of them.
///
/// `keys[i]` identifies the frequency of pair `i` (two pairs share a
/// frequency exactly when their keys are equal). Entry `i` of the result is
/// the pair whose profile pair `i` uses: the first pair with the same key.
/// A profile is computed exactly for the pairs that are their own source.
pub fn absorption_sources(keys: &[u32]) -> (r: Vec<usize>)
    ensures
        r@.len() == keys@.len(),
        forall|i: int| 0 <= i < keys@.len() ==> is_first_with_key(keys@, i, #[trigger] r@[i] as int),
        forall|i: int| 0 <= i < keys@.len() ==> r@[#[trigger] r@[i] as int] == r@[i],
        forall|i: int, k: int|
            0 <= i < keys@.len() && 0 <= k < keys@.len() && keys@[k] == keys@[i] ==> #[trigger] r@[k]
                == #[trigger] r@[i],
{
    let mut r: Vec<usize> = Vec::with_capacity(keys.len());
    let mut i: usize = 0;
    while i < keys.len()
        invariant
            i <= keys@.len(),
            r@.len() == i,
            forall|k: int| 0 <= k < i ==> is_first_with_key(keys@, k, #[trigger] r@[k] as int),
        decreases keys@.len() - i,
    {
        let mut j: usize = 0;
        while keys[j] != keys[i]
            invariant
                i < keys@.len(),
                j <= i,
                forall|m: int| 0 <= m < j ==> keys@[m] != keys@[i as int],
            decreases i - j,
        {
            j = j + 1;
        }
        r.push(j);
        i = i + 1;
    }
    assert forall|i: int| 0 <= i < keys@.len() implies r@[#[trigger] r@[i] as int] == r@[i]
        && forall|k: int| 0 <= k < keys@.len() && keys@[k] == keys@[i] ==> #[trigger] r@[k]
        == r@[i] by {
        lemma_sources_agree(keys@, r@, i);
    }
    r
}

/// Pairs with equal keys have the same source, and a source is its own source.
proof fn lemma_sources_agree(keys: Seq<u32>, sources: Seq<usize>, i: int)
    requires
        sources.len() == keys.len(),
        forall|k: int| 0 <= k < keys.len() ==> is_first_with_key(keys, k, #[trigger] sources[k] as int),
        0 <= i < keys.len(),
    ensures
        sources[sources[i] as int] == sources[i],
        forall|k: int| 0 <= k < keys.len() && keys[k] == keys[i] ==> #[trigger] sources[k] == sources[i],
{
    let s = sources[i] as int;
    assert(is_first_with_key(keys, s, sources[s] as int));
    assert forall|k: int| 0 <= k < keys.len() && keys[k] == keys[i] implies #[trigger] sources[k]
        == sources[i] by {
        assert(is_first_with_key(keys, k, sources[k] as int));
        if sources[k] < sources[i] {
            assert(keys[sources[k] as int] == keys[i]);
        } else if sources[k] > sources[i] {
            assert(keys[sources[i] as int] == keys[k]);
        }
    }
}

} // verus!

use vstd::prelude::*;
use crate::error::RtmError;

verus! {

/// Input parameters for the RTM that are constant over a batch: pairs of
/// microwave frequency (GHz) and Earth incidence angle (degrees), paired by
/// index.
///
/// The values are of any `Copy` type: this type only keeps them, hands them
/// back, and guarantees the pairing.
pub struct RtmParameters<T> {
    frequency: Vec<T>,
    incidence: Vec<T>,
}

/// Two sequences can be paired up as frequency/incidence pairs: they have the
/// same length and are not empty.
pub open spec fn pairable<T>(freqs: Seq<T>, eia: Seq<T>) -> bool {
    freqs.len() == eia.len() && freqs.len() > 0
}

/// Copies a slice into a new vector.
fn copy_slice<T: Copy>(s: &[T]) -> (r: Vec<T>)
    ensures
        r@ == s@,
{
    let mut r: Vec<T> = Vec::with_capacity(s.len());
    let mut i: usize = 0;
    while i < s.len()
        invariant
            i <= s@.len(),
            r@ == s@.subrange(0, i as int),
        decreases s@.len() - i,
    {
        r.push(s[i]);
        assert(s@.subrange(0, i + 1) =~= s@.subrange(0, i as int).push(s@[i as int]));
        i = i + 1;
    }
    assert(s@.subrange(0, i as int) =~= s@);
    r
}

impl<T> RtmParameters<T> {
    #[verifier::type_invariant]
    spec fn inv(&self) -> bool {
        pairable(self.frequency@, self.incidence@)
    }

    /// The frequencies, in pair order.
    pub closed spec fn frequencies(&self) -> Seq<T> {
        self.frequency@
    }

    /// The incidence angles, in pair order.
    pub closed spec fn incidences(&self) -> Seq<T> {
        self.incidence@
    }

    /// Pairs up frequencies and incidence angles; they must have the same,
    /// non-zero length.
    pub fn new(freqs: &[T], eia: &[T]) -> (r: Result<Self, RtmError>)
        where
            T: Copy,
        ensures
            r is Ok <==> pairable(freqs@, eia@),
            r is Err ==> r->Err_0 == RtmError::InconsistentInputs,
            r is Ok ==> r->Ok_0.frequencies() == freqs@ && r->Ok_0.incidences() == eia@,
    {
        if freqs.len() != eia.len() || freqs.len() == 0 {
            return Err(RtmError::InconsistentInputs);
        }
        Ok(RtmParameters { frequency: copy_slice(freqs), incidence: copy_slice(eia) })
    }

    /// The number of frequency/incidence pairs.
    pub fn num_pairs(&self) -> (r: usize)
        ensures
            r == self.frequencies().len(),
            r == self.incidences().len(),
            r > 0,
    {
        proof {
            use_type_invariant(self);
        }
        self.frequency.len()
    }

    /// The frequencies, in pair order.
    pub fn frequency(&self) -> (r: &[T])
        ensures
            r@ == self.frequencies(),
    {
        self.frequency.as_slice()
    }

    /// The incidence angles, in pair order.
    pub fn incidence(&self) -> (r: &[T])
        ensures
            r@ == self.incidences(),
    {
        self.incidence.as_slice()
    }
}

} // verus!

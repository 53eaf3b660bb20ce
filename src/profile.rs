use vstd::prelude::*;
use crate::error::RtmError;

verus! {

/// `i` is the first level at or below the surface: `at_or_below[i]` holds
/// and no earlier level has it.
pub open spec fn is_first_at_or_below(at_or_below: Seq<bool>, i: int) -> bool {
    &&& 0 <= i < at_or_below.len()
    &&& at_or_below[i]
    &&& forall|j: int| 0 <= j < i ==> !at_or_below[j]
}

/// Some level lies at or below the surface.
pub open spec fn has_surface(at_or_below: Seq<bool>) -> bool {
    exists|i: int| 0 <= i < at_or_below.len() && at_or_below[i]
}

/// Locates the surface index among the pressure levels.
///
/// `at_or_below[i]` tells whether level `i` has a pressure at most the
/// surface pressure; levels are ordered from the top of the atmosphere down
/// to the ground. The surface index is the first level for which this holds.
pub fn find_surface_index(at_or_below: &[bool]) -> (r: Result<usize, RtmError>)
    ensures
        at_or_below@.len() == 0 <==> r == Err::<usize, RtmError>(RtmError::InconsistentInputs),
        at_or_below@.len() > 0 && !has_surface(at_or_below@) <==> r == Err::<usize, RtmError>(
            RtmError::NoSurface,
        ),
        r is Ok <==> has_surface(at_or_below@),
        r is Ok ==> is_first_at_or_below(at_or_below@, r->Ok_0 as int),
{
    if at_or_below.len() == 0 {
        return Err(RtmError::InconsistentInputs);
    }
    let mut i: usize = 0;
    while i < at_or_below.len()
        invariant
            i <= at_or_below@.len(),
            forall|j: int| 0 <= j < i ==> !at_or_below@[j],
        decreases at_or_below@.len() - i,
    {
        if at_or_below[i] {
            return Ok(i);
        }
        i = i + 1;
    }
    Err(RtmError::NoSurface)
}

/// A level profile extended by one slot in front, with the slot at
/// `surface_index` then overwritten by the surface value.
pub open spec fn prepended<T>(data: Seq<T>, first: T, surface_value: T, surface_index: int) -> Seq<T> {
    seq![first].add(data).update(surface_index, surface_value)
}

/// Builds a profile of `data.len() + 1` levels: `first` goes in front of
/// `data`, and the slot at `surface_index` is then given `surface_value`.
pub fn prepend_with<T: Copy>(data: &[T], first: T, surface_value: T, surface_index: usize) -> (r: Vec<T>)
    requires
        surface_index <= data@.len(),
        data@.len() < usize::MAX,
    ensures
        r@ == prepended(data@, first, surface_value, surface_index as int),
        r@.len() == data@.len() + 1,
        r@[surface_index as int] == surface_value,
        forall|i: int| 1 <= i <= data@.len() && i != surface_index ==> r@[i] == data@[i - 1],
        surface_index != 0 ==> r@[0] == first,
{
    let mut r: Vec<T> = Vec::with_capacity(data.len() + 1);
    r.push(first);
    let mut i: usize = 0;
    while i < data.len()
        invariant
            i <= data@.len(),
            r@ == seq![first].add(data@.subrange(0, i as int)),
        decreases data@.len() - i,
    {
        r.push(data[i]);
        assert(data@.subrange(0, i + 1) =~= data@.subrange(0, i as int).push(data@[i as int]));
        i = i + 1;
    }
    assert(data@.subrange(0, i as int) =~= data@);
    r.set(surface_index, surface_value);
    r
}

} // verus!

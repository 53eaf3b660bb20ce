use vstd::prelude::*;
use crate::error::RtmError;

verus! {

/// Every length in `lens` equals `expected`.
pub open spec fn all_equal_to(lens: Seq<usize>, expected: usize) -> bool {
    forall|i: int| 0 <= i < lens.len() ==> lens[i] == expected
}

/// Every `(rows, columns)` pair in `dims` equals `(rows, columns)`.
pub open spec fn all_dims_equal_to(dims: Seq<(usize, usize)>, rows: usize, columns: usize) -> bool {
    forall|i: int| 0 <= i < dims.len() ==> dims[i] == (rows, columns)
}

/// Checks that a group of arrays all have the length `expected`.
pub fn check_lengths(lens: &[usize], expected: usize) -> (r: Result<(), RtmError>)
    ensures
        r is Ok <==> all_equal_to(lens@, expected),
        r is Err ==> r == Err::<(), RtmError>(RtmError::InconsistentInputs),
{
    let mut i: usize = 0;
    while i < lens.len()
        invariant
            i <= lens@.len(),
            all_equal_to(lens@.subrange(0, i as int), expected),
        decreases lens@.len() - i,
    {
        if lens[i] != expected {
            return Err(RtmError::InconsistentInputs);
        }
        assert(lens@.subrange(0, i + 1) =~= lens@.subrange(0, i as int).push(lens@[i as int]));
        i = i + 1;
    }
    assert(lens@.subrange(0, i as int) =~= lens@);
    Ok(())
}

/// Checks that a group of two-dimensional arrays all have the shape
/// `(rows, columns)`.
pub fn check_dims(dims: &[(usize, usize)], rows: usize, columns: usize) -> (r: Result<(), RtmError>)
    ensures
        r is Ok <==> all_dims_equal_to(dims@, rows, columns),
        r is Err ==> r == Err::<(), RtmError>(RtmError::InconsistentInputs),
{
    let mut i: usize = 0;
    while i < dims.len()
        invariant
            i <= dims@.len(),
            all_dims_equal_to(dims@.subrange(0, i as int), rows, columns),
        decreases dims@.len() - i,
    {
        let (r0, c0) = dims[i];
        if r0 != rows || c0 != columns {
            return Err(RtmError::InconsistentInputs);
        }
        assert(dims@.subrange(0, i + 1) =~= dims@.subrange(0, i as int).push(dims@[i as int]));
        i = i + 1;
    }
    assert(dims@.subrange(0, i as int) =~= dims@);
    Ok(())
}

/// The shapes of a batch call are consistent: every per-point profile has
/// shape `(num_points, num_levels)`, every per-point scalar array has
/// `num_points` entries and every per-pair array has `num_pairs` entries.
pub open spec fn batch_shape_consistent(
    num_points: usize,
    num_levels: usize,
    num_pairs: usize,
    profile_dims: Seq<(usize, usize)>,
    point_lens: Seq<usize>,
    pair_lens: Seq<usize>,
) -> bool {
    &&& all_dims_equal_to(profile_dims, num_points, num_levels)
    &&& all_equal_to(point_lens, num_points)
    &&& all_equal_to(pair_lens, num_pairs)
}

/// Validates the shapes of all arrays handed to a batch call.
pub fn check_batch_shape(
    num_points: usize,
    num_levels: usize,
    num_pairs: usize,
    profile_dims: &[(usize, usize)],
    point_lens: &[usize],
    pair_lens: &[usize],
) -> (r: Result<(), RtmError>)
    ensures
        r is Ok <==> batch_shape_consistent(
            num_points,
            num_levels,
            num_pairs,
            profile_dims@,
            point_lens@,
            pair_lens@,
        ),
        r is Err ==> r == Err::<(), RtmError>(RtmError::InconsistentInputs),
{
    check_dims(profile_dims, num_points, num_levels)?;
    check_lengths(point_lens, num_points)?;
    check_lengths(pair_lens, num_pairs)
}

} // verus!

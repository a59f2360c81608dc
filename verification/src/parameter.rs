//! Parameter buffers: how one value per sample is read from a buffer that
//! holds none, one for the whole block, or one for each sample.

use vstd::prelude::*;

verus! {

/// The widest magnitude that a parameter value keeps: anything beyond it is
/// brought back to it.
pub const PARAMETER_LIMIT: i64 = 1_000_000_000;

/// The least number of clock edges that a divider threshold can ask for.
pub const MIN_THRESHOLD: i64 = 1;

/// `value` brought into the range from `min_value` to `max_value`. The lower
/// bound is tested first, so it wins where the two bounds cross.
pub open spec fn clamped(min_value: int, max_value: int, value: int) -> int {
    if value < min_value {
        min_value
    } else if value > max_value {
        max_value
    } else {
        value
    }
}

/// Whether a buffer of `len` values can be read at every sample of a block of
/// `render_quantum_samples`: it is empty, holds a single value, or holds one
/// value for each sample.
pub open spec fn fits_quantum(len: nat, render_quantum_samples: nat) -> bool {
    len <= 1 || len == render_quantum_samples
}

/// The value that a buffer holds for the sample at `index`, before clamping:
/// zero for an empty buffer, the one value of a buffer of length one, and the
/// value at `index` otherwise.
pub open spec fn raw_parameter(param: Seq<i64>, index: int) -> int {
    if param.len() > 1 {
        param[index] as int
    } else if param.len() == 0 {
        0
    } else {
        param[0] as int
    }
}

/// The value of a parameter for the sample at `index`, clamped.
pub open spec fn parameter_value(
    param: Seq<i64>,
    min_value: int,
    max_value: int,
    index: int,
) -> int {
    clamped(min_value, max_value, raw_parameter(param, index))
}

/// Brings `value` into the range from `min_value` to `max_value`.
pub fn clamp(min_value: i64, max_value: i64, value: i64) -> (r: i64)
    ensures
        r == clamped(min_value as int, max_value as int, value as int),
{
    if value < min_value {
        min_value
    } else if value > max_value {
        max_value
    } else {
        value
    }
}

/// Reads the parameter for the sample at `index` and clamps it.
pub fn get_parameter(param: &Vec<i64>, min_value: i64, max_value: i64, index: usize) -> (r: i64)
    requires
        param.len() > 1 ==> index < param.len(),
    ensures
        r == parameter_value(param@, min_value as int, max_value as int, index as int),
{
    if param.len() > 1 {
        clamp(min_value, max_value, param[index])
    } else if param.len() == 0 {
        clamp(min_value, max_value, 0)
    } else {
        clamp(min_value, max_value, param[0])
    }
}

/// A clamped value lies between the bounds, wherever the bounds are in order,
/// and is the value itself wherever that already lies between them.
pub proof fn lemma_clamped_in_range(min_value: int, max_value: int, value: int)
    requires
        min_value <= max_value,
    ensures
        min_value <= clamped(min_value, max_value, value) <= max_value,
        min_value <= value <= max_value ==> clamped(min_value, max_value, value) == value,
{
}

/// Clamping to a range that holds zero and something above it keeps the sign
/// that a gate is read by: the clamped value is greater than zero exactly if
/// the value is.
pub proof fn lemma_clamped_keeps_level(min_value: int, max_value: int, value: int)
    requires
        min_value <= 0 < max_value,
    ensures
        clamped(min_value, max_value, value) > 0 <==> value > 0,
{
}

} // verus!

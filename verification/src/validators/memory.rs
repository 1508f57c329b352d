//! Check of memory types: their limits must fit the 65536-page bound.

use vstd::prelude::*;
use crate::types::{Limits, MemoryType};

verus! {

#[derive(PartialEq, Eq, Structural, Clone, Copy, Debug)]
pub enum MemoryLimitsValidationError {
    InvalidMemoryLimits,
}

/// Limits lie within `range`: the minimum does, and the maximum, when
/// present, does too and is at least the minimum.
pub open spec fn spec_limits_in_range(limits: Limits, range: u32) -> bool {
    &&& limits.min <= range
    &&& match limits.max {
        Some(max) => max <= range && limits.min <= max,
        None => true,
    }
}

/// Whether limits lie within `range`.
pub fn limits_in_range(limits: &Limits, range: u32) -> (r: bool)
    ensures
        r == spec_limits_in_range(*limits, range),
{
    let min_ok = limits.min <= range;
    min_ok && (match limits.max {
        Some(max) => max <= range && limits.min <= max,
        None => true,
    })
}

/// Accepts exactly the memory types whose limits fit 65536 pages.
pub fn validate_memory_type(memory: &MemoryType) -> (r: Result<(), MemoryLimitsValidationError>)
    ensures
        r is Ok <==> spec_limits_in_range(memory.limits, 65536),
        r is Err ==> r == Err::<(), MemoryLimitsValidationError>(
            MemoryLimitsValidationError::InvalidMemoryLimits,
        ),
{
    if !limits_in_range(&memory.limits, 65536) {
        return Err(MemoryLimitsValidationError::InvalidMemoryLimits);
    }
    Ok(())
}

} // verus!

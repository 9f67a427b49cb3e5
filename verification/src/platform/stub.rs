//! Fallback implementation for unsupported targets.
use vstd::prelude::*;

use crate::CoreId;

verus! {

/// Stub implementation for unsupported targets; always returns `None`.
pub fn get_core_ids() -> (res: Option<Vec<CoreId>>)
    ensures
        res is None,
{
    None
}

/// Stub implementation for unsupported targets; always returns `false`.
pub fn set_for_current(core_id: CoreId) -> (res: bool)
    ensures
        !res,
{
    false
}

} // verus!

//! Parameter validation for indicator constructors.

use vstd::prelude::*;

verus! {

/// Checks that a look-back period can be used by an indicator: it must be positive.
pub fn is_valid_period(period: usize) -> (valid: bool)
    ensures
        valid <==> period > 0,
{
    period > 0
}

} // verus!

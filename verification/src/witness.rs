//! A marker for the values that a condition speaks about.

use vstd::prelude::*;

verus! {

/// Names the values that a condition of the form "there are values such
/// that" is about: to show such a condition, name the values with it.
pub open spec fn witness<A>(a: A) -> bool {
    true
}

} // verus!

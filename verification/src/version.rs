//! The version that the session reports.

use vstd::prelude::*;

verus! {

/// The version of this package.
pub fn current_version() -> (version: &'static str)
    ensures
        version@ == "0.1.0"@,
{
    "0.1.0"
}

} // verus!

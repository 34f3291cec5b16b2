//! The earlier description of module information files, which also said
//! whether reading goes on past errors.

use vstd::prelude::*;

verus! {

/// Module information files (`.inf`), as first described.
#[derive(Debug)]
pub struct Inf;

impl core::default::Default for Inf {
    fn default() -> (r: Inf)
        ensures
            r == Inf,
    {
        Inf
    }
}

impl Inf {
    /// Module information files hold no conditional directives.
    pub fn has_conditionals(&self) -> (r: bool)
        ensures
            !r,
    {
        false
    }

    /// Reading module information files stops at the first error.
    pub fn no_fail_mode(&self) -> (r: bool)
        ensures
            !r,
    {
        false
    }
}

} // verus!

//! Host-side core of a pluggable cloud controller: the capability-mediated
//! bridge that lets sandboxed driver code manage OS processes and scoped
//! filesystem locations, and the backend-resolution protocol that turns a
//! driver's symbolic configuration into validated numeric identities.

use vstd::prelude::*;

pub mod backend;
pub mod driver;
pub mod json;
pub mod process;

verus! {

/// Command-line switches accepted by the controller binary.
pub struct Arguments {
    pub debug: bool,
}

impl Arguments {
    /// A default argument set: debug mode off.
    pub fn new() -> (r: Arguments)
        ensures
            r.debug == false,
    {
        Arguments { debug: false }
    }
}

} // verus!

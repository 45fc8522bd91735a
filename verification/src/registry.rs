//! Registry of the function-binding generator: the typed view over what the
//! parser reads out of the specification document. Not exercised by the
//! runtime path.

use vstd::prelude::*;

verus! {

/// The collected registry.
#[derive(Debug)]
pub struct Registry {}

impl Registry {
    /// An empty registry.
    pub fn new() -> (r: Self)
        ensures
            r == (Registry {  }),
    {
        Registry {  }
    }
}

} // verus!

//! Front end of the function-binding generator: turns a vendor
//! specification document into a stream of parse events for the registry.
//! Not exercised by the runtime path, which needs only proc-address lookup
//! from the context.

use vstd::prelude::*;

verus! {

/// The specification-document reader.
#[derive(Debug)]
pub struct Parser {}

} // verus!

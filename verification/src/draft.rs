//! The draft text a client saves for later.

use vstd::prelude::*;

verus! {

/// The body of a draft-save request.
#[derive(Debug)]
pub struct DraftCourier {
    pub text: String,
}

} // verus!

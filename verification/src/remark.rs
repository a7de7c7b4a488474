//! The remark a client submits under a parent item.

use vstd::prelude::*;

verus! {

/// The body of a remark-creation request: the parent item's key and the
/// remark text.
#[derive(Debug)]
pub struct RemarkCourier {
    pub parent: i64,
    pub content: String,
}

} // verus!

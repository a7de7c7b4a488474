//! The user-profile lookup bodies.

use vstd::prelude::*;

verus! {

/// A batch lookup request: the keys of the accounts wanted.
#[derive(Debug)]
pub struct UserQuery {
    pub user_ids: Vec<i64>,
}

/// The slice of a profile that other users may see.
#[derive(Debug)]
pub struct UserPublicCourier {
    pub username: String,
    pub avatar_url: Option<String>,
}

} // verus!

//! The wish a client submits, and its input validation.

use vstd::prelude::*;
use crate::errors::BizKind;
use crate::errors::Kind;
use crate::errors::ServiceError;

verus! {

/// The body of a wish-creation request.
#[derive(Debug)]
pub struct WishJson {
    pub content: String,
}

impl WishJson {
    /// Rejects an empty wish as `ValidationFailed`; any non-empty content
    /// passes.
    pub fn validate(&self) -> (r: Result<(), ServiceError>)
        ensures
            match r {
                Ok(_) => self.content@.len() > 0,
                Err(e) => self.content@.len() == 0 && e.kind == Kind::BizError(
                    BizKind::ValidationFailed,
                ) && e.message@ == "Wish content is empty"@,
            },
    {
        if self.content.as_str().is_empty() {
            Err(
                ServiceError::build().belong(Kind::BizError(BizKind::ValidationFailed)).message(
                    "Wish content is empty",
                ).done(),
            )
        } else {
            Ok(())
        }
    }
}

} // verus!

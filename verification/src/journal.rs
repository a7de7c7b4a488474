//! The journal entry a client submits, and its input validation.

use vstd::prelude::*;
use crate::errors::BizKind;
use crate::errors::Kind;
use crate::errors::ServiceError;

verus! {

/// The body of a journal-creation request.
#[derive(Debug)]
pub struct JournalJson {
    pub title: String,
    pub content: String,
    pub images: Vec<String>,
}

/// The page parameters the journal list endpoint accepts.
#[derive(Debug, PartialEq, Eq, Structural, Clone, Copy)]
pub struct WishQuery {
    pub page_number: i64,
    pub page_size: i64,
}

impl JournalJson {
    /// Rejects an entry whose title or content is empty as
    /// `ValidationFailed`; any entry with both non-empty passes.
    pub fn validate(&self) -> (r: Result<(), ServiceError>)
        ensures
            match r {
                Ok(_) => self.title@.len() > 0 && self.content@.len() > 0,
                Err(e) => (self.title@.len() == 0 || self.content@.len() == 0) && e.kind
                    == Kind::BizError(BizKind::ValidationFailed) && e.message@
                    == "Journal content or title is empty"@,
            },
    {
        if self.content.as_str().is_empty() || self.title.as_str().is_empty() {
            Err(
                ServiceError::build().belong(Kind::BizError(BizKind::ValidationFailed)).message(
                    "Journal content or title is empty",
                ).done(),
            )
        } else {
            Ok(())
        }
    }
}

} // verus!

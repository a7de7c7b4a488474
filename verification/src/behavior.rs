//! The behavior log a client submits, and its input validation.

use vstd::prelude::*;
use crate::errors::BizKind;
use crate::errors::Kind;
use crate::errors::ServiceError;

verus! {

/// One day's behavior record. The two clock times are seconds into the
/// day; the record date is days since the Unix epoch.
#[derive(Debug, PartialEq, Eq, Structural, Clone, Copy)]
pub struct Behavior {
    pub wake_up_time: i64,
    pub sleep_time: i64,
    pub diaper_changes: i32,
    pub naps: i32,
    pub crying_episodes: i32,
    pub duration_outdoor: i32,
    pub record_date: i64,
}

impl Behavior {
    /// Rejects any negative count as `ValidationFailed`, naming the first
    /// offending field; a record with all counts non-negative passes.
    pub fn validate(&self) -> (r: Result<(), ServiceError>)
        ensures
            match r {
                Ok(_) => self.diaper_changes >= 0 && self.naps >= 0 && self.crying_episodes >= 0
                    && self.duration_outdoor >= 0,
                Err(e) => e.kind == Kind::BizError(BizKind::ValidationFailed)
                    && if self.diaper_changes < 0 {
                    e.message@ == "diaper_changes must be greater than zero"@
                } else if self.naps < 0 {
                    e.message@ == "naps must be greater than zero"@
                } else if self.crying_episodes < 0 {
                    e.message@ == "crying_episodes must be greater than zero"@
                } else {
                    self.duration_outdoor < 0 && e.message@
                        == "outdoor_time must be greater than zero"@
                },
            },
    {
        if self.diaper_changes < 0 {
            return Err(
                ServiceError::build().belong(Kind::BizError(BizKind::ValidationFailed)).message(
                    "diaper_changes must be greater than zero",
                ).done(),
            );
        }
        if self.naps < 0 {
            return Err(
                ServiceError::build().belong(Kind::BizError(BizKind::ValidationFailed)).message(
                    "naps must be greater than zero",
                ).done(),
            );
        }
        if self.crying_episodes < 0 {
            return Err(
                ServiceError::build().belong(Kind::BizError(BizKind::ValidationFailed)).message(
                    "crying_episodes must be greater than zero",
                ).done(),
            );
        }
        if self.duration_outdoor < 0 {
            return Err(
                ServiceError::build().belong(Kind::BizError(BizKind::ValidationFailed)).message(
                    "outdoor_time must be greater than zero",
                ).done(),
            );
        }
        Ok(())
    }
}

} // verus!

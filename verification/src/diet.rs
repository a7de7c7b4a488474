//! The diet log a client submits, and its input validation.

use vstd::prelude::*;
use crate::errors::BizKind;
use crate::errors::Kind;
use crate::errors::ServiceError;

verus! {

/// One day's diet record: serving counts per food group, and the day it
/// belongs to as days since the Unix epoch.
#[derive(Debug, PartialEq, Eq, Structural, Clone, Copy)]
pub struct DietJson {
    pub milk: i32,
    pub meat: i32,
    pub egg: i32,
    pub vegetable: i32,
    pub fruit: i32,
    pub grain: i32,
    pub record_date: i64,
}

impl DietJson {
    /// Rejects any negative serving count as `ValidationFailed`, naming the
    /// first offending field; a record with all counts non-negative passes.
    pub fn validate(&self) -> (r: Result<(), ServiceError>)
        ensures
            match r {
                Ok(_) => self.milk >= 0 && self.meat >= 0 && self.egg >= 0 && self.vegetable >= 0
                    && self.fruit >= 0 && self.grain >= 0,
                Err(e) => e.kind == Kind::BizError(BizKind::ValidationFailed) && if self.milk < 0 {
                    e.message@ == "milk must be greater than zero"@
                } else if self.meat < 0 {
                    e.message@ == "meat must be greater than zero"@
                } else if self.egg < 0 {
                    e.message@ == "egg must be greater than zero"@
                } else if self.vegetable < 0 {
                    e.message@ == "vegetable must be greater than zero"@
                } else if self.fruit < 0 {
                    e.message@ == "fruit must be greater than zero"@
                } else {
                    self.grain < 0 && e.message@ == "grain must be greater than zero"@
                },
            },
    {
        if self.milk < 0 {
            return Err(
                ServiceError::build().belong(Kind::BizError(BizKind::ValidationFailed)).message(
                    "milk must be greater than zero",
                ).done(),
            );
        }
        if self.meat < 0 {
            return Err(
                ServiceError::build().belong(Kind::BizError(BizKind::ValidationFailed)).message(
                    "meat must be greater than zero",
                ).done(),
            );
        }
        if self.egg < 0 {
            return Err(
                ServiceError::build().belong(Kind::BizError(BizKind::ValidationFailed)).message(
                    "egg must be greater than zero",
                ).done(),
            );
        }
        if self.vegetable < 0 {
            return Err(
                ServiceError::build().belong(Kind::BizError(BizKind::ValidationFailed)).message(
                    "vegetable must be greater than zero",
                ).done(),
            );
        }
        if self.fruit < 0 {
            return Err(
                ServiceError::build().belong(Kind::BizError(BizKind::ValidationFailed)).message(
                    "fruit must be greater than zero",
                ).done(),
            );
        }
        if self.grain < 0 {
            return Err(
                ServiceError::build().belong(Kind::BizError(BizKind::ValidationFailed)).message(
                    "grain must be greater than zero",
                ).done(),
            );
        }
        Ok(())
    }
}

} // verus!

//! Classification of storage-driver failures, per the collaborator
//! contract: the driver surfaces a distinguishable "no rows" condition,
//! which is reclassified as the business error `DataNotFound`; every other
//! driver failure is infrastructure.

use vstd::prelude::*;
use crate::errors::BizKind;
use crate::errors::Kind;
use crate::errors::ServiceError;
use crate::errors::classify_storage;

verus! {

#[verifier::external_type_specification]
#[verifier::external_body]
pub struct ExPgError(tokio_postgres::Error);

/// Relies on tokio_postgres::Error::code and SqlState::NO_DATA_FOUND for
/// the "no rows" signal, and on the error's display form for the detail.
/// Nothing is promised of either: the classification below states what
/// holds for every signal.
#[verifier::external_body]
fn storage_error_signal(e: &tokio_postgres::Error) -> (r: (bool, String)) {
    let no_rows = e.code() == Some(&tokio_postgres::error::SqlState::NO_DATA_FOUND);
    (no_rows, format!("{}", e))
}

/// Turns a storage driver error into a classified service error: the
/// driver's "no rows" signal becomes `DataNotFound`, anything else an
/// infrastructure failure, with the driver's detail kept server-side
/// either way.
pub fn from_storage_error(e: tokio_postgres::Error) -> (r: ServiceError)
    ensures
        r.kind == Kind::BizError(BizKind::DataNotFound) || r.kind == Kind::InfraError,
        r.because is Storage,
{
    let (no_rows, detail) = storage_error_signal(&e);
    classify_storage(no_rows, detail)
}

/// The rule for a list query that owes data: an empty result set is the
/// business error `DataNotFound` with the given message; a non-empty one
/// passes through unchanged.
pub fn require_rows<T>(rows: Vec<T>, message: &str) -> (r: Result<Vec<T>, ServiceError>)
    ensures
        match r {
            Ok(v) => v == rows && rows@.len() > 0,
            Err(e) => rows@.len() == 0 && e.kind == Kind::BizError(BizKind::DataNotFound)
                && e.message@ == message@,
        },
{
    if rows.is_empty() {
        Err(
            ServiceError::build().belong(Kind::BizError(BizKind::DataNotFound)).message(
                message,
            ).done(),
        )
    } else {
        Ok(rows)
    }
}

} // verus!

//! The guards every resource handler runs before touching storage:
//! pagination bounds, and the identity a handler may demand.

use vstd::prelude::*;
use vstd::arithmetic::div_mod::lemma_fundamental_div_mod;
use vstd::arithmetic::mul::lemma_mul_inequality;
use vstd::arithmetic::mul::lemma_mul_nonnegative;
use crate::errors::BizKind;
use crate::errors::Kind;
use crate::errors::ServiceError;
use crate::errors::status_of;
use crate::jwt::RequestContext;

verus! {

pub const MIN_PAGE_SIZE: i64 = 10;

pub const MAX_PAGE_SIZE: i64 = 20;

/// The highest page number a list of `total` records admits for a page
/// size: the ceiling of `total / size`. Page numbers are zero-based, so the
/// last partial page sits at this index.
pub open spec fn page_limit(total: int, size: int) -> int
    recommends
        size > 0,
{
    (total + size - 1) / size
}

/// The pagination precondition check, run before any storage call for the
/// page is issued. Rejects a page size outside the fixed bounds and a page
/// number beyond the last page (or below zero, which the page model
/// excludes), each as `ValidationFailed`; otherwise converts the page
/// parameters to the storage offset `page_number * page_size`.
pub fn guard_pagination(page_number: i64, page_size: i64, total_records: i64) -> (r: Result<
    i64,
    ServiceError,
>)
    requires
        0 <= total_records <= i64::MAX - MAX_PAGE_SIZE,
    ensures
        match r {
            Ok(offset) => MIN_PAGE_SIZE <= page_size <= MAX_PAGE_SIZE && 0 <= page_number
                <= page_limit(total_records as int, page_size as int) && offset == page_number
                * page_size,
            Err(e) => e.kind == Kind::BizError(BizKind::ValidationFailed) && if page_size
                < MIN_PAGE_SIZE {
                e.message@ == "Page size is too small"@
            } else if page_size > MAX_PAGE_SIZE {
                e.message@ == "Page size is too big"@
            } else if page_number < 0 {
                e.message@ == "Page number is negative"@
            } else {
                page_number > page_limit(total_records as int, page_size as int) && e.message@
                    == "Page number is too big"@
            },
        },
{
    if page_size < MIN_PAGE_SIZE {
        return Err(
            ServiceError::build().belong(Kind::BizError(BizKind::ValidationFailed)).message(
                "Page size is too small",
            ).done(),
        );
    }
    if page_size > MAX_PAGE_SIZE {
        return Err(
            ServiceError::build().belong(Kind::BizError(BizKind::ValidationFailed)).message(
                "Page size is too big",
            ).done(),
        );
    }
    if page_number < 0 {
        return Err(
            ServiceError::build().belong(Kind::BizError(BizKind::ValidationFailed)).message(
                "Page number is negative",
            ).done(),
        );
    }
    let limit = (total_records + page_size - 1) / page_size;
    if page_number > limit {
        return Err(
            ServiceError::build().belong(Kind::BizError(BizKind::ValidationFailed)).message(
                "Page number is too big",
            ).done(),
        );
    }
    proof {
        let total = total_records as int;
        let size = page_size as int;
        let reach = total + size - 1;
        lemma_fundamental_div_mod(reach, size);
        lemma_mul_inequality(page_number as int, reach / size, size);
        lemma_mul_nonnegative(page_number as int, size);
    }
    Ok(page_number * page_size)
}

/// The subject id attached by a successful interception. A handler invoked
/// with no claims in its request context fails with `ClaimsNotFound`, per
/// the collaborator contract for handlers that need an identity.
pub fn extract_user_id(ctx: &RequestContext) -> (r: Result<i64, ServiceError>)
    ensures
        match ctx.claims {
            Some(c) => r matches Ok(id) && id == c.sub,
            None => r matches Err(e) && e.kind == Kind::BizError(BizKind::ClaimsNotFound),
        },
{
    match ctx.claims() {
        Some(claims) => Ok(claims.sub),
        None => Err(
            ServiceError::build().belong(Kind::BizError(BizKind::ClaimsNotFound)).done(),
        ),
    }
}

/// Missing identity: the failure `extract_user_id` owes a request with no
/// attached claims is `ClaimsNotFound`, and the response table maps that
/// kind to 401.
pub proof fn lemma_missing_identity_unauthorized()
    ensures
        status_of(Kind::BizError(BizKind::ClaimsNotFound)) == 401,
{
}

} // verus!

use family_api::errors::BizKind;
use family_api::errors::Cause;
use family_api::errors::Kind;
use family_api::errors::ServiceError;
use family_api::errors::classify_hashing;
use family_api::errors::classify_storage;
use family_api::internal::extract_user_id;
use family_api::jwt::RequestContext;

fn status_for(kind: Kind) -> u16 {
    ServiceError::build().belong(kind).done().error_response().0
}

#[test]
fn every_kind_maps_to_exactly_one_status() {
    assert_eq!(status_for(Kind::BizError(BizKind::DataNotFound)), 404);
    assert_eq!(status_for(Kind::BizError(BizKind::ClaimsNotFound)), 401);
    assert_eq!(status_for(Kind::BizError(BizKind::TokenInvalid)), 401);
    assert_eq!(status_for(Kind::BizError(BizKind::AuthorizationFailed)), 401);
    assert_eq!(status_for(Kind::BizError(BizKind::ValidationFailed)), 400);
    assert_eq!(status_for(Kind::BizError(BizKind::Other)), 500);
    assert_eq!(status_for(Kind::InfraError), 500);
}

#[test]
fn business_messages_are_safe_and_fixed() {
    let (status, body) = ServiceError::build()
        .belong(Kind::BizError(BizKind::DataNotFound))
        .done()
        .error_response();
    assert_eq!(status, 404);
    assert_eq!(body.message, "Data is not found");

    let (_, body) = ServiceError::build()
        .belong(Kind::BizError(BizKind::AuthorizationFailed))
        .done()
        .error_response();
    assert_eq!(body.message, "Password or username is incorrect");

    let (status, body) = ServiceError::build()
        .belong(Kind::BizError(BizKind::ValidationFailed))
        .message("naps must be greater than zero")
        .done()
        .error_response();
    assert_eq!(status, 400);
    assert_eq!(body.message, "naps must be greater than zero");
}

#[test]
fn infrastructure_detail_never_reaches_the_client() {
    let err = ServiceError::build()
        .belong(Kind::InfraError)
        .because(Cause::Storage("connection refused at 10.0.0.3:5432".to_string()))
        .message("connection refused at 10.0.0.3:5432")
        .done();
    let (status, body) = err.error_response();
    assert_eq!(status, 500);
    assert_eq!(body.message, "Internal server error due to an unknown reason");
    assert_eq!(err.because().describe(), "connection refused at 10.0.0.3:5432");
}

#[test]
fn builder_fixes_kind_and_cause_once() {
    let err = ServiceError::build()
        .belong(Kind::BizError(BizKind::TokenInvalid))
        .because(Cause::Token("bad signature".to_string()))
        .message("ignored for this kind")
        .done();
    assert_eq!(err.kind(), &Kind::BizError(BizKind::TokenInvalid));
    assert_eq!(err.biz_kind(), Some(BizKind::TokenInvalid));
    assert_eq!(err.who(), &None);
    assert_eq!(err.message(), "ignored for this kind");
    assert_eq!(err.because().describe(), "bad signature");

    let infra = ServiceError::build().done();
    assert_eq!(infra.kind(), &Kind::InfraError);
    assert_eq!(infra.biz_kind(), None);
    assert_eq!(infra.because().describe(), "unknown");
}

#[test]
fn storage_no_rows_becomes_data_not_found() {
    let err = classify_storage(true, "query returned no rows".to_string());
    assert_eq!(err.kind(), &Kind::BizError(BizKind::DataNotFound));
    assert_eq!(err.error_response().0, 404);

    let err = classify_storage(false, "deadlock detected".to_string());
    assert_eq!(err.kind(), &Kind::InfraError);
    assert_eq!(err.message(), "deadlock detected");
    assert_eq!(err.error_response().0, 500);
}

#[test]
fn hashing_failures_are_infrastructure() {
    let err = classify_hashing("cost out of range".to_string());
    assert_eq!(err.kind(), &Kind::InfraError);
    assert_eq!(err.because().describe(), "cost out of range");
    assert_eq!(err.error_response().0, 500);
}

#[test]
fn empty_result_sets_become_data_not_found() {
    let err = family_api::storage::require_rows(Vec::<i64>::new(), "No remark yet")
        .expect_err("an empty result set owes an error");
    assert_eq!(err.kind(), &Kind::BizError(BizKind::DataNotFound));
    assert_eq!(err.message(), "No remark yet");

    let rows = family_api::storage::require_rows(vec![3, 1, 4], "").unwrap();
    assert_eq!(rows, vec![3, 1, 4]);
}

#[test]
fn every_cause_describes_itself() {
    assert_eq!(Cause::Unknown.describe(), "unknown");
    assert_eq!(Cause::Storage("s".to_string()).describe(), "s");
    assert_eq!(Cause::Hashing("h".to_string()).describe(), "h");
    assert_eq!(Cause::Token("t".to_string()).describe(), "t");
    assert_eq!(Cause::Downstream("d".to_string()).describe(), "d");
}

#[test]
fn missing_identity_fails_with_claims_not_found() {
    let ctx = RequestContext::new();
    let err = extract_user_id(&ctx).expect_err("no claims were attached");
    assert_eq!(err.kind(), &Kind::BizError(BizKind::ClaimsNotFound));
    let (status, body) = err.error_response();
    assert_eq!(status, 401);
    assert_eq!(body.message, "Authentication required");
}

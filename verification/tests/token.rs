use family_api::account::generate_cookie;
use family_api::errors::BizKind;
use family_api::errors::Kind;
use family_api::jwt::AuthOutcome;
use family_api::jwt::Claims;
use family_api::jwt::JWT_AUTH_KEY;
use family_api::jwt::RequestContext;
use family_api::jwt::TokenCodec;

const NOW: i64 = 1_700_000_000;

fn codec() -> TokenCodec {
    TokenCodec::new(b"a process-wide signing secret".to_vec())
}

#[test]
fn token_round_trip() {
    let codec = codec();
    let token = codec.issue(42, 3_600, NOW);
    let claims = codec.verify(&token, NOW).expect("a fresh token must verify");
    assert_eq!(claims, Claims { sub: 42, exp: NOW + 3_600 });
}

#[test]
fn token_round_trip_is_deterministic() {
    let codec = codec();
    let first = codec.issue(7, 60, NOW);
    let second = codec.issue(7, 60, NOW);
    assert_eq!(first, second);
}

#[test]
fn token_with_non_positive_ttl_is_rejected() {
    let codec = codec();
    let token = codec.issue(42, 0, NOW);
    let err = codec.verify(&token, NOW).expect_err("an already-expired token must fail");
    assert!(matches!(err.kind(), Kind::BizError(BizKind::TokenInvalid)));

    let token = codec.issue(42, -10, NOW);
    let err = codec.verify(&token, NOW).expect_err("a negative ttl must fail");
    assert!(matches!(err.kind(), Kind::BizError(BizKind::TokenInvalid)));
}

#[test]
fn token_claims_survive_even_out_of_range_expiries() {
    // An expiry before the epoch is negative; decoding must still return
    // the claims as issued, and only the expiry comparison rejects them.
    let codec = codec();
    let token = codec.issue(42, -NOW - 50, NOW);
    let claims = codec.verify(&token, -100).expect("the clock sits before the expiry");
    assert_eq!(claims, Claims { sub: 42, exp: -50 });
    assert!(codec.verify(&token, -50).is_err());
}

#[test]
fn token_expires_when_clock_advances() {
    let codec = codec();
    let token = codec.issue(42, 3_600, NOW);
    assert!(codec.verify(&token, NOW + 3_599).is_ok());
    let err = codec.verify(&token, NOW + 3_600).expect_err("expiry moment must fail");
    assert!(matches!(err.kind(), Kind::BizError(BizKind::TokenInvalid)));
}

#[test]
fn token_verify_with_wrong_secret_fails() {
    let codec = codec();
    let other = TokenCodec::new(b"a different secret".to_vec());
    let token = codec.issue(42, 3_600, NOW);
    let err = other.verify(&token, NOW).expect_err("wrong secret must fail");
    assert!(matches!(err.kind(), Kind::BizError(BizKind::TokenInvalid)));
}

#[test]
fn flipping_any_byte_invalidates_the_token() {
    let codec = codec();
    let token = codec.issue(42, 3_600, NOW);
    let bytes = token.as_bytes();
    for i in 0..bytes.len() {
        let mut tampered = bytes.to_vec();
        tampered[i] = if tampered[i] == b'A' { b'B' } else { b'A' };
        if tampered == bytes {
            continue;
        }
        let tampered = String::from_utf8(tampered).unwrap();
        match codec.verify(&tampered, NOW) {
            Ok(claims) => panic!(
                "tampered byte {} still verified, and returned claims {:?}",
                i, claims
            ),
            Err(err) => {
                assert!(matches!(err.kind(), Kind::BizError(BizKind::TokenInvalid)));
            }
        }
    }
}

#[test]
fn garbage_tokens_are_rejected() {
    let codec = codec();
    for junk in ["", ".", "..", "not a token", "a.b.c"] {
        let err = codec.verify(junk, NOW).expect_err("junk must fail");
        assert!(matches!(err.kind(), Kind::BizError(BizKind::TokenInvalid)));
    }
}

#[test]
fn intercept_without_cookie_is_anonymous() {
    let codec = codec();
    assert!(matches!(family_api::jwt::intercept(&codec, None, NOW), AuthOutcome::Anonymous));
}

#[test]
fn intercept_with_valid_cookie_authenticates() {
    let codec = codec();
    let token = codec.issue(9, 3_600, NOW);
    match family_api::jwt::intercept(&codec, Some(&token), NOW) {
        AuthOutcome::Authenticated(claims) => {
            assert_eq!(claims.sub, 9);
            assert_eq!(claims.exp, NOW + 3_600);
        }
        other => panic!("expected authentication, got {:?}", discriminant_name(&other)),
    }
}

#[test]
fn intercept_with_bad_cookie_rejects() {
    let codec = codec();
    let bogus = "tampered".to_string();
    match family_api::jwt::intercept(&codec, Some(&bogus), NOW) {
        AuthOutcome::Rejected(err) => {
            assert!(matches!(err.kind(), Kind::BizError(BizKind::TokenInvalid)));
        }
        other => panic!("expected rejection, got {:?}", discriminant_name(&other)),
    }
}

fn discriminant_name(outcome: &AuthOutcome) -> &'static str {
    match outcome {
        AuthOutcome::Anonymous => "Anonymous",
        AuthOutcome::Authenticated(_) => "Authenticated",
        AuthOutcome::Rejected(_) => "Rejected",
    }
}

#[test]
fn request_context_attaches_once() {
    let mut ctx = RequestContext::new();
    assert!(ctx.claims().is_none());
    ctx.attach(Claims { sub: 5, exp: NOW });
    assert_eq!(ctx.claims(), Some(Claims { sub: 5, exp: NOW }));
}

#[test]
fn session_cookie_attributes() {
    let cookie = generate_cookie("tok".to_string(), NOW);
    assert_eq!(cookie.name, JWT_AUTH_KEY);
    assert_eq!(cookie.value, "tok");
    assert_eq!(cookie.expires_at, NOW);
    assert_eq!(cookie.domain, "127.0.0.1");
    assert_eq!(cookie.path, "/");
    assert!(cookie.secure && cookie.http_only && cookie.same_site_none);
}

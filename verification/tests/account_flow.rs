use family_api::account::Account;
use family_api::account::LoginOutcome;
use family_api::account::RegisterStep;
use family_api::account::TOKEN_TTL_SECONDS;
use family_api::account::decide_login;
use family_api::account::prepare_register;
use family_api::errors::BizKind;
use family_api::errors::Kind;
use family_api::jwt::TokenCodec;

const NOW: i64 = 1_700_000_000;

fn codec() -> TokenCodec {
    TokenCodec::new(b"a process-wide signing secret".to_vec())
}

fn registered(username: &str, password: &str) -> Account {
    match prepare_register(username, password, false).unwrap() {
        RegisterStep::Insert { username, password_hash } => {
            Account { id: 1, username, password: password_hash }
        }
        RegisterStep::Conflict => panic!("a free name must not conflict"),
    }
}

#[test]
fn register_then_login_round_trip() {
    let account = registered("ada", "correct horse");
    assert_eq!(account.username, "ada");
    let codec = codec();
    match decide_login(&codec, Some(&account), "correct horse", NOW) {
        LoginOutcome::Granted { token, expires_at } => {
            assert_eq!(expires_at, NOW + TOKEN_TTL_SECONDS);
            let claims = codec.verify(&token, NOW).expect("granted token must verify");
            assert_eq!(claims.sub, 1);
            assert_eq!(claims.exp, expires_at);
        }
        LoginOutcome::Denied { error } | LoginOutcome::Failed { error } => {
            panic!("correct password was refused: {}", error.message());
        }
    }
}

#[test]
fn login_with_wrong_password_is_denied() {
    let account = registered("ada", "correct horse");
    match decide_login(&codec(), Some(&account), "wrong horse", NOW) {
        LoginOutcome::Denied { error } => {
            assert_eq!(error.kind(), &Kind::BizError(BizKind::AuthorizationFailed));
            assert_eq!(error.error_response().0, 401);
        }
        _ => panic!("a wrong password must be denied"),
    }
}

#[test]
fn login_for_unknown_user_is_denied() {
    match decide_login(&codec(), None, "whatever", NOW) {
        LoginOutcome::Denied { error } => {
            assert_eq!(error.kind(), &Kind::BizError(BizKind::AuthorizationFailed));
            assert_eq!(error.message(), "User does not exist");
        }
        _ => panic!("an unknown user must be denied"),
    }
}

#[test]
fn login_with_unreadable_stored_hash_is_an_infrastructure_failure() {
    let account = Account {
        id: 1,
        username: "ada".to_string(),
        password: "not a bcrypt hash".to_string(),
    };
    match decide_login(&codec(), Some(&account), "anything", NOW) {
        LoginOutcome::Failed { error } => {
            assert_eq!(error.kind(), &Kind::InfraError);
            assert_eq!(error.error_response().0, 500);
        }
        _ => panic!("an unreadable hash is not the client's fault"),
    }
}

#[test]
fn register_taken_name_conflicts() {
    match prepare_register("ada", "pw", true).unwrap() {
        RegisterStep::Conflict => {}
        RegisterStep::Insert { .. } => panic!("a taken name must conflict"),
    }
}

#[test]
fn register_hashes_never_store_the_password() {
    let account = registered("ada", "correct horse");
    assert_ne!(account.password, "correct horse");
    let again = registered("ada", "correct horse");
    // Fresh salt every call: equal passwords do not share a hash.
    assert_ne!(account.password, again.password);
}

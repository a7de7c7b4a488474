//! Signed, self-contained identity tokens, and the request-pipeline stage
//! that turns an inbound cookie into a per-request identity.
//!
//! A token carries `{subject id, expiry}` and is tamper-evident: the
//! signature check precedes any use of the decoded fields, and every
//! verification failure — bad signature, malformed encoding, or expiry — is
//! the business error `TokenInvalid`, never an infrastructure failure.

use vstd::prelude::*;
use crate::errors::BizKind;
use crate::errors::Cause;
use crate::errors::Kind;
use crate::errors::ServiceError;

verus! {

/// The decoded identity payload of a verified token: subject id and expiry
/// in epoch seconds.
#[derive(Debug, PartialEq, Eq, Structural, Clone, Copy)]
pub struct Claims {
    pub sub: i64,
    pub exp: i64,
}

/// The name of the cookie that transports the identity token.
pub const JWT_AUTH_KEY: &'static str = "auth_token";

/// The token that signing produces for a subject, expiry and secret: a pure
/// function of the three, left unspecified because spelling out the encoding
/// and signature would state nothing checkable.
pub uninterp spec fn token_of(sub: int, exp: int, secret: Seq<u8>) -> Seq<char>;

/// What signature checking and decoding yield for a token and secret: the
/// embedded claims when the signature and the encoding check out, nothing
/// otherwise. Expiry plays no part here; it is judged against a clock
/// reading afterwards.
pub uninterp spec fn decoded_of(token: Seq<char>, secret: Seq<u8>) -> Option<(int, int)>;

/// Relies on jsonwebtoken::encode with the default HS256 header and an HMAC
/// secret: the token is a function of the claims and the secret alone (the
/// claims map is ordered, so the serialized payload is canonical), and
/// decoding it with the same secret yields the claims back. Per its source,
/// encoding cannot fail for an HMAC key with these plain integer claims.
#[verifier::external_body]
fn encode_claims(sub: i64, exp: i64, secret: &[u8]) -> (r: String)
    ensures
        r@ == token_of(sub as int, exp as int, secret@),
        decoded_of(r@, secret@) == Some((sub as int, exp as int)),
{
    let mut claims = std::collections::BTreeMap::new();
    claims.insert("sub", sub);
    claims.insert("exp", exp);
    jsonwebtoken::encode(
        &jsonwebtoken::Header::default(),
        &claims,
        &jsonwebtoken::EncodingKey::from_secret(secret),
    ).expect("HMAC signing of plain integer claims cannot fail")
}

/// Relies on jsonwebtoken::decode with HS256 and an HMAC secret, with its
/// expiry validation and required-claim checks turned off, so that the
/// outcome is a function of the token and the secret alone: the embedded
/// claims when the signature matches and the payload has the expected
/// shape, nothing otherwise. Expiry is judged by the verified caller.
#[verifier::external_body]
fn decode_claims(token: &str, secret: &[u8]) -> (r: Option<(i64, i64)>)
    ensures
        match (r, decoded_of(token@, secret@)) {
            (Some((s, e)), Some((ds, de))) => s == ds && e == de,
            (None, None) => true,
            _ => false,
        },
{
    let mut validation = jsonwebtoken::Validation::new(jsonwebtoken::Algorithm::HS256);
    validation.validate_exp = false;
    validation.required_spec_claims = std::collections::HashSet::new();
    let key = jsonwebtoken::DecodingKey::from_secret(secret);
    match jsonwebtoken::decode::<std::collections::BTreeMap<String, i64>>(token, &key, &validation)
    {
        Ok(data) => match (data.claims.get("sub"), data.claims.get("exp")) {
            (Some(&s), Some(&e)) => Some((s, e)),
            _ => None,
        },
        Err(_) => None,
    }
}

/// What verification owes for a token, secret and clock reading: the
/// decoded claims while they are unexpired, a refusal otherwise.
pub open spec fn verify_outcome(token: Seq<char>, secret: Seq<u8>, now: int) -> Option<(int, int)> {
    match decoded_of(token, secret) {
        Some((sub, exp)) => if now < exp {
            Some((sub, exp))
        } else {
            None
        },
        None => None,
    }
}

/// Issues and verifies identity tokens with one process-wide signing
/// secret, handed in at construction.
pub struct TokenCodec {
    pub secret: Vec<u8>,
}

impl TokenCodec {
    pub fn new(secret: Vec<u8>) -> (r: Self)
        ensures
            r.secret == secret,
    {
        TokenCodec { secret }
    }

    /// Produces the tamper-evident token for `subject_id` expiring `ttl`
    /// seconds after `now`. Deterministic given identical inputs; no side
    /// effects beyond the computation.
    pub fn issue(&self, subject_id: i64, ttl: i64, now: i64) -> (r: String)
        requires
            i64::MIN <= now + ttl <= i64::MAX,
        ensures
            r@ == token_of(subject_id as int, now + ttl, self.secret@),
            decoded_of(r@, self.secret@) == Some((subject_id as int, now + ttl)),
    {
        let expires_at = now + ttl;
        encode_claims(subject_id, expires_at, self.secret.as_slice())
    }

    /// Verifies a token against the secret and the given clock reading. The
    /// signature check precedes any use of the decoded fields, and every
    /// failure — mismatched signature, malformed encoding, or expiry — is
    /// `TokenInvalid`.
    pub fn verify(&self, token: &str, now: i64) -> (r: Result<Claims, ServiceError>)
        ensures
            match r {
                Ok(c) => verify_outcome(token@, self.secret@, now as int) == Some(
                    (c.sub as int, c.exp as int),
                ),
                Err(e) => verify_outcome(token@, self.secret@, now as int) is None && e.kind
                    == Kind::BizError(BizKind::TokenInvalid),
            },
    {
        match decode_claims(token, self.secret.as_slice()) {
            Some((sub, exp)) => if now < exp {
                Ok(Claims { sub, exp })
            } else {
                Err(
                    ServiceError::build().belong(Kind::BizError(BizKind::TokenInvalid)).because(
                        Cause::Token("token expired".to_owned()),
                    ).done(),
                )
            },
            None => Err(
                ServiceError::build().belong(Kind::BizError(BizKind::TokenInvalid)).because(
                    Cause::Token("signature or encoding rejected".to_owned()),
                ).done(),
            ),
        }
    }
}

/// Round trip: a token that decodes to `(sub, exp)` — as every token from
/// `issue` does, by its postcondition — verifies to exactly those claims
/// while the clock has not reached the expiry.
pub proof fn lemma_token_round_trip(
    token: Seq<char>,
    secret: Seq<u8>,
    sub: int,
    exp: int,
    now: int,
)
    ensures
        decoded_of(token, secret) == Some((sub, exp)) && now < exp ==> verify_outcome(
            token,
            secret,
            now,
        ) == Some((sub, exp)),
{
}

/// Expiry: once the clock reaches a token's expiry — in particular for any
/// token issued with a non-positive time to live — verification refuses it.
pub proof fn lemma_token_expiry(token: Seq<char>, secret: Seq<u8>, sub: int, exp: int, now: int)
    ensures
        decoded_of(token, secret) == Some((sub, exp)) && exp <= now ==> verify_outcome(
            token,
            secret,
            now,
        ) is None,
        decoded_of(token, secret) is None ==> verify_outcome(token, secret, now) is None,
{
}

/// A token issued with a non-positive time to live — so that its expiry
/// `issued_at + ttl` does not lie after the moment of issue — is refused at
/// that moment and at every later clock reading.
pub proof fn lemma_non_positive_ttl_rejected(
    token: Seq<char>,
    secret: Seq<u8>,
    sub: int,
    issued_at: int,
    ttl: int,
    now: int,
)
    ensures
        decoded_of(token, secret) == Some((sub, issued_at + ttl)) && ttl <= 0 && issued_at <= now
            ==> verify_outcome(token, secret, now) is None,
{
}

/// Verification never trusts an unverified payload: whatever claims it
/// accepts are exactly what the token itself decodes to under the secret,
/// so a token that decodes differently — or not at all — can never come
/// back as someone else's claims.
pub proof fn lemma_verify_trusts_only_decoding(
    token: Seq<char>,
    secret: Seq<u8>,
    now: int,
    sub: int,
    exp: int,
)
    ensures
        verify_outcome(token, secret, now) == Some((sub, exp)) ==> decoded_of(token, secret)
            == Some((sub, exp)),
{
    if decoded_of(token, secret) is Some {
        let (dsub, dexp) = decoded_of(token, secret)->Some_0;
        if now < dexp {
            assert(verify_outcome(token, secret, now) == Some((dsub, dexp)));
        }
    }
}

/// What interception decided for one request.
pub enum AuthOutcome {
    /// No token in the transport cookie: the request proceeds with no
    /// identity attached.
    Anonymous,
    /// The token verified; these claims are attached for the handler.
    Authenticated(Claims),
    /// A token was present but failed verification: the pipeline
    /// short-circuits and the handler is never invoked.
    Rejected(ServiceError),
}

/// The per-request authentication stage. States: no cookie leaves the
/// request anonymous; a cookie moves it to token-present, where
/// verification either attaches the claims or rejects the request outright.
/// No work beyond the verification computation happens here.
pub fn intercept(codec: &TokenCodec, cookie: Option<&String>, now: i64) -> (r: AuthOutcome)
    ensures
        match cookie {
            None => r is Anonymous,
            Some(t) => match verify_outcome(t@, codec.secret@, now as int) {
                Some((sub, exp)) => r matches AuthOutcome::Authenticated(c) && c.sub == sub
                    && c.exp == exp,
                None => r matches AuthOutcome::Rejected(e) && e.kind == Kind::BizError(
                    BizKind::TokenInvalid,
                ),
            },
        },
{
    match cookie {
        None => AuthOutcome::Anonymous,
        Some(token) => match codec.verify(token.as_str(), now) {
            Ok(claims) => AuthOutcome::Authenticated(claims),
            Err(e) => AuthOutcome::Rejected(e),
        },
    }
}

/// The identity slot of one request's execution context: empty until a
/// successful interception attaches claims, exactly once, for the one
/// downstream consumer.
pub struct RequestContext {
    pub claims: Option<Claims>,
}

impl RequestContext {
    /// A fresh, unauthenticated request context.
    pub fn new() -> (r: Self)
        ensures
            r.claims is None,
    {
        RequestContext { claims: None }
    }

    /// Attaches verified claims; allowed exactly once per request.
    pub fn attach(&mut self, claims: Claims)
        requires
            old(self).claims is None,
        ensures
            final(self).claims == Some(claims),
    {
        self.claims = Some(claims);
    }

    /// The claims attached earlier in the pipeline, if any.
    pub fn claims(&self) -> (r: Option<Claims>)
        ensures
            r == self.claims,
    {
        self.claims
    }
}

} // verus!

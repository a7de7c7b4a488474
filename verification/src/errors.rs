//! The classified error type raised at every fallible boundary, and its
//! deterministic mapping to an HTTP status and a client-safe envelope.
//!
//! Failures are split into business errors — expected, attributable to the
//! client — and infrastructure errors, which are unexpected. The cause chain
//! stays server-side; only a short, safe message ever reaches the client.

use vstd::prelude::*;
use crate::clock::now_seconds;
use crate::courier::Courier;
use crate::courier::SadCourier;

verus! {

/// The business-level (client-attributable) error categories.
#[derive(Debug, PartialEq, Eq, Structural, Clone, Copy)]
pub enum BizKind {
    Other,
    DataNotFound,
    ClaimsNotFound,
    TokenInvalid,
    AuthorizationFailed,
    ValidationFailed,
}

/// The coarse classification: a business error with its category, or an
/// infrastructure failure.
#[derive(Debug, PartialEq, Eq, Structural, Clone, Copy)]
pub enum Kind {
    BizError(BizKind),
    InfraError,
}

/// The origin of a failure, tagged by the boundary that raised it. The
/// detail string is kept for local diagnostics only and is never sent to the
/// client.
#[derive(Debug)]
pub enum Cause {
    /// No cause was supplied; the placeholder every error falls back to.
    Unknown,
    /// The storage layer: driver, pool, or row mapping.
    Storage(String),
    /// The password hashing routine.
    Hashing(String),
    /// Token issuing or verification.
    Token(String),
    /// A downstream HTTP service.
    Downstream(String),
}

impl Cause {
    /// The diagnostic detail carried by this cause, for local logging.
    pub fn describe(&self) -> (r: String)
        ensures
            r@ == match *self {
                Cause::Unknown => "unknown"@,
                Cause::Storage(ref d) => d@,
                Cause::Hashing(ref d) => d@,
                Cause::Token(ref d) => d@,
                Cause::Downstream(ref d) => d@,
            },
    {
        match self {
            Cause::Unknown => "unknown".to_owned(),
            Cause::Storage(d) => d.clone(),
            Cause::Hashing(d) => d.clone(),
            Cause::Token(d) => d.clone(),
            Cause::Downstream(d) => d.clone(),
        }
    }
}

/// A classified, causal service failure: its kind is fixed at construction
/// and never mutated; the cause is always present.
#[derive(Debug)]
pub struct ServiceError {
    pub kind: Kind,
    pub who: Option<i64>,
    pub occurred_at: i64,
    pub because: Cause,
    pub message: String,
}

/// The HTTP status owed to each error kind; a total function, so no kind is
/// left unmapped.
pub open spec fn status_of(kind: Kind) -> u16 {
    match kind {
        Kind::BizError(BizKind::DataNotFound) => 404u16,
        Kind::BizError(BizKind::ClaimsNotFound) => 401u16,
        Kind::BizError(BizKind::TokenInvalid) => 401u16,
        Kind::BizError(BizKind::AuthorizationFailed) => 401u16,
        Kind::BizError(BizKind::ValidationFailed) => 400u16,
        Kind::BizError(BizKind::Other) => 500u16,
        Kind::InfraError => 500u16,
    }
}

/// The client-visible message owed to each error kind. Validation failures
/// carry their own descriptive message; every other business kind has a
/// fixed safe phrase; infrastructure failures never leak detail.
pub open spec fn client_message_of(kind: Kind, message: Seq<char>) -> Seq<char> {
    match kind {
        Kind::BizError(BizKind::DataNotFound) => "Data is not found"@,
        Kind::BizError(BizKind::ClaimsNotFound) => "Authentication required"@,
        Kind::BizError(BizKind::TokenInvalid) => "Token is invalid"@,
        Kind::BizError(BizKind::AuthorizationFailed) => "Password or username is incorrect"@,
        Kind::BizError(BizKind::ValidationFailed) => message,
        Kind::BizError(BizKind::Other) => "Internal server error due to an unknown reason"@,
        Kind::InfraError => "Internal server error due to an unknown reason"@,
    }
}

impl ServiceError {
    /// Starts a builder whose kind defaults to an infrastructure failure and
    /// whose cause defaults to the unknown placeholder.
    pub fn build() -> (r: ServerErrorBuilder)
        ensures
            r.kind == Kind::InfraError,
            r.because is Unknown,
            r.who is None,
            r.message@ == Seq::<char>::empty(),
    {
        ServerErrorBuilder::default()
    }

    /// The coarse classification this error was constructed with.
    pub fn kind(&self) -> (r: &Kind)
        ensures
            *r == self.kind,
    {
        &self.kind
    }

    /// The subject the failure is attributed to, when one was known.
    pub fn who(&self) -> (r: &Option<i64>)
        ensures
            *r == self.who,
    {
        &self.who
    }

    /// Epoch seconds at which the error was constructed.
    pub fn occurred_at(&self) -> (r: i64)
        ensures
            r == self.occurred_at,
    {
        self.occurred_at
    }

    /// The cause this error carries for local diagnostics.
    pub fn because(&self) -> (r: &Cause)
        ensures
            *r == self.because,
    {
        &self.because
    }

    /// The stored message.
    pub fn message(&self) -> (r: &String)
        ensures
            *r == self.message,
    {
        &self.message
    }

    /// The concrete business category, or none for an infrastructure error.
    pub fn biz_kind(&self) -> (r: Option<BizKind>)
        ensures
            r == match self.kind {
                Kind::BizError(b) => Some(b),
                Kind::InfraError => None::<BizKind>,
            },
    {
        match self.kind {
            Kind::BizError(b) => Some(b),
            Kind::InfraError => None,
        }
    }

    /// The wire reply owed to this error: the status from the fixed table
    /// and a failure envelope whose message never exposes the cause.
    pub fn error_response(&self) -> (r: (u16, Courier<String, String>))
        ensures
            r.0 == status_of(self.kind),
            r.1.message@ == client_message_of(self.kind, self.message@),
            r.1.data@ == Seq::<char>::empty(),
            r.1.extra is None,
    {
        let status: u16 = match self.kind {
            Kind::BizError(BizKind::DataNotFound) => 404,
            Kind::BizError(BizKind::ClaimsNotFound) => 401,
            Kind::BizError(BizKind::TokenInvalid) => 401,
            Kind::BizError(BizKind::AuthorizationFailed) => 401,
            Kind::BizError(BizKind::ValidationFailed) => 400,
            Kind::BizError(BizKind::Other) => 500,
            Kind::InfraError => 500,
        };
        let body = match self.kind {
            Kind::BizError(BizKind::DataNotFound) => SadCourier::brief("Data is not found"),
            Kind::BizError(BizKind::ClaimsNotFound) => SadCourier::brief("Authentication required"),
            Kind::BizError(BizKind::TokenInvalid) => SadCourier::brief("Token is invalid"),
            Kind::BizError(BizKind::AuthorizationFailed) => SadCourier::brief(
                "Password or username is incorrect",
            ),
            Kind::BizError(BizKind::ValidationFailed) => SadCourier::brief(self.message.as_str()),
            Kind::BizError(BizKind::Other) => SadCourier::sorry(),
            Kind::InfraError => SadCourier::sorry(),
        };
        (status, body)
    }
}

/// Every `BizKind` variant and the infrastructure kind map to exactly one
/// HTTP status, per the fixed table: not-found to 404; missing claims,
/// invalid token and failed authorization to 401; failed validation to 400;
/// everything else to 500.
pub proof fn lemma_classification_total(kind: Kind)
    ensures
        status_of(kind) == 404 <==> kind == Kind::BizError(BizKind::DataNotFound),
        status_of(kind) == 400 <==> kind == Kind::BizError(BizKind::ValidationFailed),
        status_of(kind) == 401 <==> (kind == Kind::BizError(BizKind::ClaimsNotFound) || kind
            == Kind::BizError(BizKind::TokenInvalid) || kind == Kind::BizError(
            BizKind::AuthorizationFailed,
        )),
        status_of(kind) == 500 <==> (kind == Kind::BizError(BizKind::Other) || kind
            == Kind::InfraError),
        status_of(kind) == 400 || status_of(kind) == 401 || status_of(kind) == 404 || status_of(
            kind,
        ) == 500,
{
}

/// Accumulates the fields of a [`ServiceError`]; `done` seals it.
#[derive(Debug)]
pub struct ServerErrorBuilder {
    pub kind: Kind,
    pub because: Cause,
    pub who: Option<i64>,
    pub occurred_at: i64,
    pub message: String,
}

impl Default for ServerErrorBuilder {
    /// The starting state: an infrastructure failure with the unknown
    /// placeholder cause, no subject, an empty message, and the present
    /// moment as its timestamp.
    fn default() -> (r: Self)
        ensures
            r.kind == Kind::InfraError,
            r.because is Unknown,
            r.who is None,
            r.message@ == Seq::<char>::empty(),
    {
        Self {
            kind: Kind::InfraError,
            because: Cause::Unknown,
            who: None,
            occurred_at: now_seconds(),
            message: String::new(),
        }
    }
}

impl ServerErrorBuilder {
    /// Fixes the classification; the other fields are untouched.
    pub fn belong(self, kind: Kind) -> (r: Self)
        ensures
            r.kind == kind,
            r.because == self.because,
            r.who == self.who,
            r.occurred_at == self.occurred_at,
            r.message == self.message,
    {
        Self { kind, ..self }
    }

    /// Replaces the cause; the other fields are untouched.
    pub fn because(self, cause: Cause) -> (r: Self)
        ensures
            r.kind == self.kind,
            r.because == cause,
            r.who == self.who,
            r.occurred_at == self.occurred_at,
            r.message == self.message,
    {
        Self { because: cause, ..self }
    }

    /// Replaces the message; the other fields are untouched.
    pub fn message(self, message: &str) -> (r: Self)
        ensures
            r.kind == self.kind,
            r.because == self.because,
            r.who == self.who,
            r.occurred_at == self.occurred_at,
            r.message@ == message@,
    {
        Self { message: message.to_owned(), ..self }
    }

    /// Seals the builder; the kind is set exactly once here and never
    /// mutated afterwards.
    pub fn done(self) -> (r: ServiceError)
        ensures
            r.kind == self.kind,
            r.because == self.because,
            r.who == self.who,
            r.occurred_at == self.occurred_at,
            r.message == self.message,
    {
        ServiceError {
            kind: self.kind,
            because: self.because,
            who: self.who,
            occurred_at: self.occurred_at,
            message: self.message,
        }
    }
}

/// The classification rule at the storage boundary: a "no rows" signal is
/// the business error `DataNotFound`; every other storage failure is
/// infrastructure, with its detail kept server-side.
pub fn classify_storage(no_rows_found: bool, detail: String) -> (r: ServiceError)
    ensures
        r.kind == if no_rows_found {
            Kind::BizError(BizKind::DataNotFound)
        } else {
            Kind::InfraError
        },
        r.because == Cause::Storage(detail),
        no_rows_found ==> r.message@ == Seq::<char>::empty(),
        !no_rows_found ==> r.message@ == detail@,
{
    if no_rows_found {
        ServiceError::build().belong(Kind::BizError(BizKind::DataNotFound)).because(
            Cause::Storage(detail),
        ).done()
    } else {
        let msg = detail.clone();
        ServiceError::build().belong(Kind::InfraError).because(Cause::Storage(detail)).message(
            msg.as_str(),
        ).done()
    }
}

/// The classification rule at the hashing boundary: hashing failures are
/// always infrastructure.
pub fn classify_hashing(detail: String) -> (r: ServiceError)
    ensures
        r.kind == Kind::InfraError,
        r.because == Cause::Hashing(detail),
        r.message@ == Seq::<char>::empty(),
{
    ServiceError::build().belong(Kind::InfraError).because(Cause::Hashing(detail)).done()
}

} // verus!

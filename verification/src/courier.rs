//! The uniform `{message, data, extra}` response envelope.
//!
//! Every reply, success or failure, is carried by a [`Courier`]: a short
//! client-safe `message`, a `data` payload (an empty placeholder when there is
//! nothing to return), and an optional `extra` payload that paginated list
//! replies use for the total record count.

use vstd::prelude::*;

verus! {

/// The finished envelope, as it goes over the wire.
#[derive(Debug)]
pub struct Courier<D, O> {
    pub message: String,
    pub data: D,
    pub extra: Option<O>,
}

/// Accumulates the fields of a [`Courier`]; `done` seals it.
#[derive(Debug)]
pub struct CourierBuilder<D, O> {
    pub message: String,
    pub data: D,
    pub extra: Option<O>,
}

/// Placeholder for an envelope that carries no data payload.
#[derive(Debug, PartialEq, Eq, Structural, Clone, Copy)]
pub struct EmptyData;

/// Placeholder for an envelope that carries no extra payload.
#[derive(Debug, PartialEq, Eq, Structural, Clone, Copy)]
pub struct EmptyExtra;

impl Default for EmptyData {
    fn default() -> (r: Self)
        ensures
            r == EmptyData,
    {
        EmptyData
    }
}

impl Default for EmptyExtra {
    fn default() -> (r: Self)
        ensures
            r == EmptyExtra,
    {
        EmptyExtra
    }
}

/// An envelope that reports a failure: no payloads, only a message.
pub type SadCourier = Courier<EmptyData, EmptyExtra>;

/// An envelope that reports a success with a data payload and no extra.
pub type HappyCourier<D> = Courier<D, EmptyExtra>;

impl SadCourier {
    /// A failure envelope holding only the given message.
    pub fn brief(message: &str) -> (r: Courier<String, String>)
        ensures
            r.message@ == message@,
            r.data@ == Seq::<char>::empty(),
            r.extra is None,
    {
        Courier::build().message(message).done()
    }

    /// The generic failure envelope used when no safer message exists, so
    /// that infrastructure causes never leak to the client.
    pub fn sorry() -> (r: Courier<String, String>)
        ensures
            r.message@ == "Internal server error due to an unknown reason"@,
            r.data@ == Seq::<char>::empty(),
            r.extra is None,
    {
        Courier::build().message("Internal server error due to an unknown reason").done()
    }
}

impl<D: Default, O: Default> Courier<D, O> {
    /// Starts an envelope with an empty message, the data type's default
    /// value, and no extra payload.
    pub fn build() -> (r: CourierBuilder<D, O>)
        ensures
            r.message@ == Seq::<char>::empty(),
            call_ensures(D::default, (), r.data),
            r.extra is None,
    {
        CourierBuilder::default()
    }
}

impl<D: Default, O: Default> CourierBuilder<D, O> {
    /// The starting state of the builder: empty message, default data, no
    /// extra.
    pub fn default() -> (r: Self)
        ensures
            r.message@ == Seq::<char>::empty(),
            call_ensures(D::default, (), r.data),
            r.extra is None,
    {
        Self { message: String::new(), data: D::default(), extra: None }
    }

    /// Replaces the message; the other fields are untouched.
    pub fn message(self, message: &str) -> (r: Self)
        ensures
            r.message@ == message@,
            r.data == self.data,
            r.extra == self.extra,
    {
        Self { message: message.to_owned(), ..self }
    }

    /// Replaces the data payload; the other fields are untouched.
    pub fn data(self, data: D) -> (r: Self)
        ensures
            r.message == self.message,
            r.data == data,
            r.extra == self.extra,
    {
        Self { data, ..self }
    }

    /// Sets the extra payload; the other fields are untouched.
    pub fn extra(self, extra: O) -> (r: Self)
        ensures
            r.message == self.message,
            r.data == self.data,
            r.extra == Some(extra),
    {
        Self { extra: Some(extra), ..self }
    }

    /// Seals the builder into an envelope with exactly the fields set so far.
    pub fn done(self) -> (r: Courier<D, O>)
        ensures
            r == sealed(self),
            r.message == self.message,
            r.data == self.data,
            r.extra == self.extra,
    {
        Courier { message: self.message, data: self.data, extra: self.extra }
    }
}

/// The envelope a builder seals into: the fields carried over unchanged.
pub open spec fn sealed<D, O>(b: CourierBuilder<D, O>) -> Courier<D, O> {
    Courier { message: b.message, data: b.data, extra: b.extra }
}

/// Envelope default: a builder in its starting state — as `build` leaves
/// it — seals into an envelope with an empty message, the data type's own
/// default value, and no extra payload.
pub proof fn lemma_envelope_default<D: Default, O: Default>(b: CourierBuilder<D, O>)
    ensures
        b.message@ == Seq::<char>::empty() && call_ensures(D::default, (), b.data) && b.extra
            is None ==> sealed(b).message@ == Seq::<char>::empty() && call_ensures(
            D::default,
            (),
            sealed(b).data,
        ) && sealed(b).extra is None,
{
}

/// The page parameters every list endpoint accepts.
#[derive(Debug, PartialEq, Eq, Structural, Clone, Copy)]
pub struct PaginateQuery {
    pub page_number: i64,
    pub page_size: i64,
}

} // verus!

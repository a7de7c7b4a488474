//! The account-facing twin of the [`crate::courier`] envelope, kept with
//! the same `{message, data, extra}` shape and builder.

use vstd::prelude::*;

verus! {

/// The finished envelope, as it goes over the wire.
#[derive(Debug)]
pub struct Communicator<D, O> {
    pub message: String,
    pub data: D,
    pub extra: Option<O>,
}

/// Accumulates the fields of a [`Communicator`]; `done` seals it.
#[derive(Debug)]
pub struct CommunicatorBuilder<D, O> {
    pub message: String,
    pub data: D,
    pub extra: Option<O>,
}

/// Placeholder for an envelope that carries no payload.
#[derive(Debug, PartialEq, Eq, Structural, Clone, Copy)]
pub struct Empty;

impl Default for Empty {
    fn default() -> (r: Self)
        ensures
            r == Empty,
    {
        Empty
    }
}

/// An envelope that reports a failure: no payloads, only a message.
pub type SadCommunicator = Communicator<String, String>;

/// An envelope that reports a success with a data payload and no extra.
pub type JoyfulCommunicator<D> = Communicator<D, String>;

impl SadCommunicator {
    /// A failure envelope holding only the given message.
    pub fn brief(message: &str) -> (r: Communicator<String, String>)
        ensures
            r.message@ == message@,
            r.data@ == Seq::<char>::empty(),
            r.extra is None,
    {
        Communicator::build().message(message).done()
    }

    /// The generic failure envelope used when no safer message exists.
    pub fn sorry() -> (r: Communicator<String, String>)
        ensures
            r.message@ == "Internal server error due to an unknown reason"@,
            r.data@ == Seq::<char>::empty(),
            r.extra is None,
    {
        Communicator::build().message("Internal server error due to an unknown reason").done()
    }
}

impl<D: Default, O: Default> Communicator<D, O> {
    /// Starts an envelope with an empty message, the data type's default
    /// value, and no extra payload.
    pub fn build() -> (r: CommunicatorBuilder<D, O>)
        ensures
            r.message@ == Seq::<char>::empty(),
            call_ensures(D::default, (), r.data),
            r.extra is None,
    {
        CommunicatorBuilder::default()
    }
}

impl<D: Default, O: Default> CommunicatorBuilder<D, O> {
    /// The starting state of the builder: empty message, default data, no
    /// extra.
    pub fn default() -> (r: Self)
        ensures
            r.message@ == Seq::<char>::empty(),
            call_ensures(D::default, (), r.data),
            r.extra is None,
    {
        Self { message: String::new(), data: D::default(), extra: None }
    }

    /// Replaces the message; the other fields are untouched.
    pub fn message(self, message: &str) -> (r: Self)
        ensures
            r.message@ == message@,
            r.data == self.data,
            r.extra == self.extra,
    {
        Self { message: message.to_owned(), ..self }
    }

    /// Replaces the data payload; the other fields are untouched.
    pub fn data(self, data: D) -> (r: Self)
        ensures
            r.message == self.message,
            r.data == data,
            r.extra == self.extra,
    {
        Self { data, ..self }
    }

    /// Sets the extra payload; the other fields are untouched.
    pub fn extra(self, extra: O) -> (r: Self)
        ensures
            r.message == self.message,
            r.data == self.data,
            r.extra == Some(extra),
    {
        Self { extra: Some(extra), ..self }
    }

    /// Seals the builder into an envelope with exactly the fields set so
    /// far.
    pub fn done(self) -> (r: Communicator<D, O>)
        ensures
            r.message == self.message,
            r.data == self.data,
            r.extra == self.extra,
    {
        Communicator { message: self.message, data: self.data, extra: self.extra }
    }
}

} // verus!

//! The ways in which an operation of the client can fail.

use vstd::prelude::*;

verus! {

/// Why a response body could not be turned into the expected value.
#[derive(Debug, Clone, Copy, PartialEq, Eq, Structural)]
pub enum DecodeFault {
    /// The body is not a JSON document.
    Malformed,
    /// The body is a JSON document of another shape than the one expected.
    Mismatch,
}

/// A failed operation.
#[derive(Debug, PartialEq, Eq)]
pub enum ZuoraError {
    /// The exchange with the remote service did not take place; the text is
    /// the transport's account of it.
    Transport(String),
    /// No usable token could be had; the cause is inside.
    Auth(Box<ZuoraError>),
    /// The service answered with a status outside the success range.
    Api { status: u16, body: String },
    /// The service answered with success and a body that cannot be used.
    Decode(DecodeFault),
    /// The request cannot be written down.
    Serialization,
    /// Every permitted attempt failed in a way that allows another one; the
    /// failure of the last attempt is inside.
    RetryExhausted(Box<ZuoraError>),
    /// The caller gave the operation up.
    Cancelled,
}

/// What a [`ZuoraError`] says, with texts as sequences of characters.
pub enum Failure {
    Transport(Seq<char>),
    Auth(Box<Failure>),
    Api { status: u16, body: Seq<char> },
    Decode(DecodeFault),
    Serialization,
    RetryExhausted(Box<Failure>),
    Cancelled,
}

impl View for ZuoraError {
    type V = Failure;

    open spec fn view(&self) -> Failure {
        self.failure()
    }
}

impl ZuoraError {
    /// The failure that this error reports; `@` is short for it.
    pub open spec fn failure(&self) -> Failure
        decreases self,
    {
        match self {
            ZuoraError::Transport(reason) => Failure::Transport(reason@),
            ZuoraError::Auth(cause) => Failure::Auth(Box::new(cause.failure())),
            ZuoraError::Api { status, body } => Failure::Api { status: *status, body: body@ },
            ZuoraError::Decode(fault) => Failure::Decode(*fault),
            ZuoraError::Serialization => Failure::Serialization,
            ZuoraError::RetryExhausted(last) => Failure::RetryExhausted(Box::new(last.failure())),
            ZuoraError::Cancelled => Failure::Cancelled,
        }
    }

    /// The failure of acquiring a token, whatever stopped it.
    pub fn auth(cause: ZuoraError) -> (r: ZuoraError)
        ensures
            r@ == Failure::Auth(Box::new(cause@)),
    {
        ZuoraError::Auth(Box::new(cause))
    }

    /// The failure of the last of all permitted attempts.
    pub fn exhausted(last: ZuoraError) -> (r: ZuoraError)
        ensures
            r@ == Failure::RetryExhausted(Box::new(last@)),
    {
        ZuoraError::RetryExhausted(Box::new(last))
    }
}

} // verus!

//! Model of the outgoing response, as far as the drainer touches it.
//!
//! The only part of a response this crate ever reads or writes is its
//! connection-directive header, so the model carries exactly that.  The
//! error path of the pipeline wraps a response together with the error value
//! being propagated; [`ErrorResponse`] models that pair, with a plain code
//! standing for the error value, which the drainer must never alter.

use vstd::prelude::*;

verus! {

/// The connection-directive header of a response: absent, `keep-alive`, or
/// `close`.  The drainer only ever sets it to `Close` — it never clears a
/// close directive that the handler already set.
#[derive(Clone, Copy, Debug, PartialEq, Eq, Structural)]
pub enum ConnectionDirective {
    /// No connection header has been set.
    Unset,
    /// The connection may be kept open for the next request.
    KeepAlive,
    /// The connection must be closed once the response is sent.
    Close,
}

/// The slice of an outgoing response that the drainer may mutate: its
/// connection-directive header.
#[derive(Clone, Copy, Debug, PartialEq, Eq, Structural)]
pub struct ResponseHead {
    /// The connection-directive header.
    pub connection: ConnectionDirective,
}

impl ResponseHead {
    /// A response on which no connection directive has been set yet.
    pub fn new() -> (r: ResponseHead)
        ensures
            r.connection == ConnectionDirective::Unset,
    {
        ResponseHead { connection: ConnectionDirective::Unset }
    }

    /// A response whose connection directive is already `directive`.
    pub fn with_directive(directive: ConnectionDirective) -> (r: ResponseHead)
        ensures
            r.connection == directive,
    {
        ResponseHead { connection: directive }
    }

    /// Direct the transport to close the connection once this response has
    /// been sent, whatever the directive was before.
    pub fn set_close(&mut self)
        ensures
            final(self).connection == ConnectionDirective::Close,
    {
        self.connection = ConnectionDirective::Close;
    }
}

/// An error travelling outward through the pipeline, carrying the response
/// that will be serialised for it.  `code` stands for the error value itself:
/// the drainer may set the close directive on the carried response but must
/// pass the error on otherwise unmodified.
#[derive(Clone, Copy, Debug, PartialEq, Eq, Structural)]
pub struct ErrorResponse {
    /// Stands for the error value being propagated; never altered here.
    pub code: u64,
    /// The response that will be sent for the error.
    pub response: ResponseHead,
}

impl ErrorResponse {
    /// Wrap an error code together with the response prepared for it.
    pub fn new(code: u64, response: ResponseHead) -> (e: ErrorResponse)
        ensures
            e.code == code,
            e.response == response,
    {
        ErrorResponse { code, response }
    }
}

} // verus!

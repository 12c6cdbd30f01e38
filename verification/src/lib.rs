//! Connection hygiene for a keep-alive HTTP server.
//!
//! A server that reuses sockets between requests must not leave unread bytes
//! of a request body in the network buffer: the next request on the same
//! socket would be corrupted by them.  [`Drain`] is the policy that prevents
//! this.  After a request has been handled — successfully or not — it consumes
//! the unread remainder of the body, up to a configured limit, and then probes
//! for one more byte.  If the body ends cleanly within the limit, the socket
//! stays eligible for reuse; if bytes remain, or any read fails, the outgoing
//! response is marked so that the transport closes the socket instead.
//!
//! The enclosing request/response pipeline is a black box to this crate: it
//! supplies the body stream and the mutable response, and calls the drain hook
//! exactly once per request.  The crate models both collaborators with plain
//! types — [`BodyStream`] for the forward-only byte source and
//! [`ResponseHead`] for the connection directive on the response — and the
//! whole drain-or-close decision is carried out and specified on those models.
//! A host that drives real socket reads itself can instead report what it
//! observed and take the verdict from [`must_close`].

use vstd::prelude::*;

mod response;
mod stream;

pub use response::ConnectionDirective;
pub use response::ErrorResponse;
pub use response::ResponseHead;
pub use stream::BodyStream;
pub use stream::StreamError;

verus! {

/// The number of body bytes a default-constructed [`Drain`] consumes before
/// it gives up and closes the connection: one mebibyte.
pub const DEFAULT_LIMIT: u64 = 1048576;

/// What the 1-byte probe read that follows a successful bounded copy came
/// back with.  A host that performs the reads itself reports its observation
/// in these terms and takes the verdict from [`must_close`].
#[derive(Clone, Copy, Debug, PartialEq, Eq, Structural)]
pub enum ProbeOutcome {
    /// The read succeeded and returned no byte: a clean end of stream.
    Eof,
    /// The read succeeded and returned a byte: leftover data past the limit.
    Data,
    /// The read itself failed.
    Failed,
}

/// The drain-or-close verdict, given what consuming the leftover body showed:
/// whether the bounded copy succeeded and, only then, what the 1-byte probe
/// found.  The connection may be reused exactly when the copy went through
/// and the probe saw a clean end of stream; leftover data, a failed copy, or
/// a failed probe all force a close.
pub fn must_close(copy_ok: bool, probe: Option<ProbeOutcome>) -> (close: bool)
    ensures
        close <==> !(copy_ok && probe == Some(ProbeOutcome::Eof)),
{
    if copy_ok {
        match probe {
            Some(ProbeOutcome::Eof) => false,
            _ => true,
        }
    } else {
        true
    }
}

/// Connection-hygiene policy: read at most `limit` unread body bytes after a
/// request, then close the connection unless the body has ended.
///
/// The value is immutable configuration, created once at server setup and
/// shared read-only by every request.
pub struct Drain {
    limit: u64,
}

impl Drain {
    /// The configured bound on how many leftover body bytes one request may
    /// have before its connection is closed rather than reused.
    pub closed spec fn spec_limit(self) -> u64 {
        self.limit
    }

    /// Create a `Drain` with the default limit of [`DEFAULT_LIMIT`] bytes.
    pub fn new() -> (d: Drain)
        ensures
            d.spec_limit() == DEFAULT_LIMIT,
    {
        Drain::with_limit(DEFAULT_LIMIT)
    }

    /// Create a `Drain` with a custom limit.  `limit == 0` is legal and means
    /// that any leftover byte at all forces the connection to close.
    pub fn with_limit(limit: u64) -> (d: Drain)
        ensures
            d.spec_limit() == limit,
    {
        Drain { limit }
    }

    /// The configured limit, for a host that performs the bounded copy itself.
    pub fn limit(&self) -> (n: u64)
        ensures
            n == self.spec_limit(),
    {
        self.limit
    }

    /// Whether draining `body` confirms a clean end of stream within the
    /// limit, so that the connection stays eligible for reuse: the whole
    /// unread remainder fits within the limit, and the transport survives at
    /// least one read past its last byte (the probe's end-of-stream read).
    pub open spec fn drain_keeps(self, body: BodyStream) -> bool {
        &&& body.unread <= self.spec_limit()
        &&& match body.fail_after {
            Some(f) => body.unread < f,
            None => true,
        }
    }

    /// The transport fails at some point while the drain runs: during the
    /// bounded copy, or at the 1-byte probe read that follows it.
    pub open spec fn drain_hits_failure(self, body: BodyStream) -> bool {
        ||| body.copy_fails(self.spec_limit())
        ||| body.after_copy(self.spec_limit()).broken()
    }

    /// The body stream as the drain leaves it: past the bounded copy and —
    /// when the copy succeeded — past the 1-byte probe, which consumes a byte
    /// exactly when it finds one.
    pub open spec fn after_drain(self, body: BodyStream) -> BodyStream {
        let rest = body.after_copy(self.spec_limit());
        if body.copy_fails(self.spec_limit()) {
            rest
        } else if rest.broken() || rest.unread == 0 {
            rest
        } else {
            rest.consumed(1)
        }
    }

    /// Consume the unread remainder of `body`, up to the configured limit,
    /// and decide the connection's fate on `resp`: if the body ends cleanly
    /// within the limit the response is left untouched, and otherwise — on
    /// leftover data as well as on any read failure — its connection
    /// directive is set to close.  No error ever reaches the caller.
    pub fn drain(&self, body: &mut BodyStream, resp: &mut ResponseHead)
        ensures
            *final(body) == self.after_drain(*old(body)),
            final(resp).connection == (if self.drain_keeps(*old(body)) {
                old(resp).connection
            } else {
                ConnectionDirective::Close
            }),
    {
        let copy_ok = body.copy_discard(self.limit).is_ok();
        let probe = if copy_ok {
            Some(
                match body.read_one() {
                    Ok(0) => ProbeOutcome::Eof,
                    Ok(_) => ProbeOutcome::Data,
                    Err(_) => ProbeOutcome::Failed,
                },
            )
        } else {
            None
        };
        if must_close(copy_ok, probe) {
            resp.set_close();
        }
    }

    /// Success-path hook: runs once for every request whose handler produced
    /// a response, after the handler and before the response is sent.  It is
    /// the drain itself, on the response about to go out.
    pub fn after(&self, body: &mut BodyStream, resp: &mut ResponseHead)
        ensures
            *final(body) == self.after_drain(*old(body)),
            final(resp).connection == (if self.drain_keeps(*old(body)) {
                old(resp).connection
            } else {
                ConnectionDirective::Close
            }),
    {
        self.drain(body, resp);
    }

    /// Error-path hook: runs once for every request whose handling failed,
    /// before the error is serialised.  It drains into the response carried
    /// by the error and passes the error value itself on unmodified: only the
    /// connection directive of the carried response may change.
    pub fn catch(&self, body: &mut BodyStream, err: &mut ErrorResponse)
        ensures
            final(err).code == old(err).code,
            *final(body) == self.after_drain(*old(body)),
            final(err).response.connection == (if self.drain_keeps(*old(body)) {
                old(err).response.connection
            } else {
                ConnectionDirective::Close
            }),
    {
        self.drain(body, &mut err.response);
    }
}

/// A fully unread body of at most `limit` bytes on a transport that never
/// fails is drained completely: the connection keeps whatever directive it
/// had, and the body is left at end of stream — by [`BodyStream::read_one`]'s
/// contract, a subsequent read on it reports `Ok(0)` again.
pub proof fn lemma_within_limit_drains_clean(d: Drain, body: BodyStream)
    requires
        body.fail_after is None,
        body.unread <= d.spec_limit(),
    ensures
        d.drain_keeps(body),
        d.after_drain(body).unread == 0,
        d.after_drain(body).fail_after is None,
{
}

/// A body with more unread bytes than the limit always forces the close
/// directive, whether or not the transport also fails along the way.
pub proof fn lemma_over_limit_forces_close(d: Drain, body: BodyStream)
    requires
        body.unread > d.spec_limit(),
    ensures
        !d.drain_keeps(body),
{
}

/// A body already read to its end — in particular one whose original size
/// was exactly the limit — keeps the connection open and is left untouched:
/// merely reaching the limit is never classified as leftover data.
pub proof fn lemma_fully_read_keeps(d: Drain, body: BodyStream)
    requires
        body.unread == 0,
        !body.broken(),
    ensures
        d.drain_keeps(body),
        d.after_drain(body) == body,
{
}

/// If the transport fails at any point the drain touches it — during the
/// bounded copy or at the 1-byte probe — the close directive is forced.  By
/// [`Drain::drain`]'s signature the failure itself never reaches the caller:
/// the header mutation is the drain's only externally visible effect.
pub proof fn lemma_failure_forces_close(d: Drain, body: BodyStream)
    requires
        d.drain_hits_failure(body),
    ensures
        !d.drain_keeps(body),
{
}

/// Draining is idempotent: once a drain has confirmed a clean end of stream,
/// the body is in a state on which a second drain is a no-op — it keeps the
/// connection directive and leaves the body exactly as it found it.
pub proof fn lemma_drain_idempotent(d: Drain, body: BodyStream)
    requires
        d.drain_keeps(body),
    ensures
        d.after_drain(body).unread == 0,
        !d.after_drain(body).broken(),
        d.drain_keeps(d.after_drain(body)),
        d.after_drain(d.after_drain(body)) == d.after_drain(body),
{
    lemma_fully_read_keeps(d, d.after_drain(body));
}

} // verus!

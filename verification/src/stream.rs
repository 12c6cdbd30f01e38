//! Model of a request body stream.
//!
//! The drainer sees the body as a sequential, forward-only byte source that
//! may already have been partially or fully consumed by the handler, and
//! whose transport may fail part-way through.  Every byte the drainer reads
//! is discarded, so the model tracks how many unread bytes remain — never
//! their values — together with how much more the transport will deliver
//! before it breaks.

use vstd::prelude::*;

verus! {

/// Error reported by a read on a broken transport (for example a connection
/// reset part-way through the body).
#[derive(Clone, Copy, Debug, PartialEq, Eq)]
pub struct StreamError;

/// A forward-only byte source.
///
/// `unread` counts the body bytes not yet consumed.  `fail_after` models
/// transport failure: `Some(f)` means the transport delivers at most `f`
/// further bytes and after that every read attempt — even one at end of
/// stream — fails; `None` means it never fails.
#[derive(Clone, Copy, Debug, PartialEq, Eq)]
pub struct BodyStream {
    /// Body bytes not yet consumed.
    pub unread: u64,
    /// Bytes the transport still delivers before every read fails; `None`
    /// when the transport never fails.
    pub fail_after: Option<u64>,
}

/// The smaller of two byte counts.
pub open spec fn min_u64(a: u64, b: u64) -> u64 {
    if a <= b {
        a
    } else {
        b
    }
}

impl BodyStream {
    /// A healthy body of `unread` bytes whose transport never fails.
    pub fn with_unread(unread: u64) -> (b: BodyStream)
        ensures
            b == (BodyStream { unread, fail_after: None }),
    {
        BodyStream { unread, fail_after: None }
    }

    /// A body of `unread` bytes whose transport delivers at most `deliverable`
    /// further bytes and then fails every read attempt.
    pub fn failing_after(unread: u64, deliverable: u64) -> (b: BodyStream)
        ensures
            b == (BodyStream { unread, fail_after: Some(deliverable) }),
    {
        BodyStream { unread, fail_after: Some(deliverable) }
    }

    /// A broken transport: the very next read attempt fails, even at end of
    /// stream.
    pub open spec fn broken(self) -> bool {
        match self.fail_after {
            Some(f) => f == 0,
            None => false,
        }
    }

    /// The stream after `n` of its unread bytes have been delivered and
    /// discarded: the bytes are gone and the transport's remaining allowance,
    /// if finite, has shrunk by the same amount.
    pub open spec fn consumed(self, n: u64) -> BodyStream
        recommends
            n <= self.unread,
            self.fail_after matches Some(f) ==> n <= f,
    {
        BodyStream {
            unread: (self.unread - n) as u64,
            fail_after: match self.fail_after {
                Some(f) => Some((f - n) as u64),
                None => None,
            },
        }
    }

    /// One read of at most one byte, as both the bounded copy and the 1-byte
    /// probe perform it: a broken transport fails, an exhausted body reports
    /// end of stream (`Ok(0)`), and otherwise one byte is delivered and
    /// discarded (`Ok(1)`).
    pub fn read_one(&mut self) -> (r: Result<u64, StreamError>)
        ensures
            old(self).broken() ==> r is Err && *final(self) == *old(self),
            !old(self).broken() && old(self).unread == 0 ==> r == Ok::<u64, StreamError>(0)
                && *final(self) == *old(self),
            !old(self).broken() && old(self).unread > 0 ==> r == Ok::<u64, StreamError>(1)
                && *final(self) == old(self).consumed(1),
    {
        match self.fail_after {
            Some(0) => Err(StreamError),
            Some(f) => {
                if self.unread == 0 {
                    Ok(0)
                } else {
                    self.unread = self.unread - 1;
                    self.fail_after = Some(f - 1);
                    Ok(1)
                }
            },
            None => {
                if self.unread == 0 {
                    Ok(0)
                } else {
                    self.unread = self.unread - 1;
                    Ok(1)
                }
            },
        }
    }

    /// How many bytes a bounded copy of up to `cap` bytes discards before it
    /// stops: it is cut short by the cap, by the end of the body, and by the
    /// point at which the transport fails.
    pub open spec fn copy_takes(self, cap: u64) -> u64 {
        match self.fail_after {
            Some(f) => min_u64(min_u64(self.unread, cap), f),
            None => min_u64(self.unread, cap),
        }
    }

    /// Whether a bounded copy of up to `cap` bytes ends in a transport
    /// failure.  It does when the transport dies strictly before the copy
    /// would otherwise stop — and also when it dies exactly at the end of a
    /// body shorter than the cap, because recognising end of stream itself
    /// takes one more read, which then fails.
    pub open spec fn copy_fails(self, cap: u64) -> bool {
        match self.fail_after {
            Some(f) => f < min_u64(self.unread, cap) || (min_u64(self.unread, cap) < cap
                && f == min_u64(self.unread, cap)),
            None => false,
        }
    }

    /// The stream once a bounded copy of up to `cap` bytes has stopped,
    /// whether it stopped cleanly or by failing.
    pub open spec fn after_copy(self, cap: u64) -> BodyStream {
        self.consumed(self.copy_takes(cap))
    }

    /// The result a bounded copy of up to `cap` bytes reports: the number of
    /// bytes discarded, or the transport failure.
    pub open spec fn copy_result(self, cap: u64) -> Result<u64, StreamError> {
        if self.copy_fails(cap) {
            Err(StreamError)
        } else {
            Ok(self.copy_takes(cap))
        }
    }

    /// Read and discard up to `cap` bytes, stopping early at end of stream or
    /// at a transport failure: the bounded copy into a discard sink that the
    /// drain performs before its 1-byte probe.
    pub fn copy_discard(&mut self, cap: u64) -> (r: Result<u64, StreamError>)
        ensures
            r == old(self).copy_result(cap),
            *final(self) == old(self).after_copy(cap),
    {
        let mut copied: u64 = 0;
        while copied < cap
            invariant
                copied <= old(self).unread,
                copied <= cap,
                old(self).fail_after matches Some(f) ==> copied <= f,
                *self == old(self).consumed(copied),
            decreases cap - copied,
        {
            match self.read_one() {
                Ok(0) => {
                    return Ok(copied);
                },
                Ok(_) => {
                    copied = copied + 1;
                },
                Err(e) => {
                    return Err(e);
                },
            }
        }
        Ok(copied)
    }
}

} // verus!

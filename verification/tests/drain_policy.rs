use body_drain::BodyStream;
use body_drain::ConnectionDirective;
use body_drain::Drain;
use body_drain::ErrorResponse;
use body_drain::ProbeOutcome;
use body_drain::ResponseHead;
use body_drain::StreamError;
use body_drain::must_close;
use body_drain::DEFAULT_LIMIT;

#[test]
fn default_limit_is_one_mebibyte() {
    assert_eq!(Drain::new().limit(), 1_048_576);
    assert_eq!(Drain::new().limit(), DEFAULT_LIMIT);
}

#[test]
fn custom_limit_is_kept() {
    assert_eq!(Drain::with_limit(0).limit(), 0);
    assert_eq!(Drain::with_limit(10).limit(), 10);
    assert_eq!(Drain::with_limit(u64::MAX).limit(), u64::MAX);
}

#[test]
fn body_at_limit_leaves_header_unchanged() {
    // limit = 10; body contains exactly 10 unread bytes
    let d = Drain::with_limit(10);
    let mut body = BodyStream::with_unread(10);
    let mut resp = ResponseHead::new();
    d.drain(&mut body, &mut resp);
    assert_eq!(resp.connection, ConnectionDirective::Unset);
    assert_eq!(body.unread, 0);
}

#[test]
fn body_over_limit_closes() {
    // limit = 10; body contains 11 unread bytes
    let d = Drain::with_limit(10);
    let mut body = BodyStream::with_unread(11);
    let mut resp = ResponseHead::new();
    d.drain(&mut body, &mut resp);
    assert_eq!(resp.connection, ConnectionDirective::Close);
}

#[test]
fn empty_body_leaves_header_unchanged() {
    // limit = 10; the handler already read the body in full
    let d = Drain::with_limit(10);
    let mut body = BodyStream::with_unread(0);
    let mut resp = ResponseHead::new();
    d.drain(&mut body, &mut resp);
    assert_eq!(resp.connection, ConnectionDirective::Unset);
}

#[test]
fn default_drain_closes_on_two_megabyte_body() {
    let d = Drain::new();
    let mut body = BodyStream::with_unread(2_000_000);
    let mut resp = ResponseHead::new();
    d.drain(&mut body, &mut resp);
    assert_eq!(resp.connection, ConnectionDirective::Close);
}

#[test]
fn small_body_is_drained_to_end_of_stream() {
    let d = Drain::with_limit(10);
    let mut body = BodyStream::with_unread(7);
    let mut resp = ResponseHead::with_directive(ConnectionDirective::KeepAlive);
    d.drain(&mut body, &mut resp);
    assert_eq!(resp.connection, ConnectionDirective::KeepAlive);
    // a subsequent read yields end-of-stream
    assert_eq!(body.read_one(), Ok(0));
}

#[test]
fn prior_close_directive_is_never_cleared() {
    let d = Drain::with_limit(10);
    let mut body = BodyStream::with_unread(3);
    let mut resp = ResponseHead::with_directive(ConnectionDirective::Close);
    d.drain(&mut body, &mut resp);
    assert_eq!(resp.connection, ConnectionDirective::Close);
}

#[test]
fn zero_limit_closes_on_any_leftover_byte() {
    let d = Drain::with_limit(0);
    let mut body = BodyStream::with_unread(1);
    let mut resp = ResponseHead::new();
    d.drain(&mut body, &mut resp);
    assert_eq!(resp.connection, ConnectionDirective::Close);

    let mut empty = BodyStream::with_unread(0);
    let mut resp2 = ResponseHead::new();
    d.drain(&mut empty, &mut resp2);
    assert_eq!(resp2.connection, ConnectionDirective::Unset);
}

#[test]
fn failure_during_copy_closes() {
    // the transport dies after 3 of 5 body bytes, within the limit
    let d = Drain::with_limit(10);
    let mut body = BodyStream::failing_after(5, 3);
    let mut resp = ResponseHead::new();
    d.drain(&mut body, &mut resp);
    assert_eq!(resp.connection, ConnectionDirective::Close);
}

#[test]
fn failure_at_probe_closes() {
    // the transport delivers the whole 5-byte body but dies before the
    // probe's end-of-stream read
    let d = Drain::with_limit(10);
    let mut body = BodyStream::failing_after(5, 5);
    let mut resp = ResponseHead::new();
    d.drain(&mut body, &mut resp);
    assert_eq!(resp.connection, ConnectionDirective::Close);
}

#[test]
fn drain_is_idempotent_on_drained_body() {
    let d = Drain::with_limit(10);
    let mut body = BodyStream::with_unread(4);
    let mut resp = ResponseHead::new();
    d.drain(&mut body, &mut resp);
    assert_eq!(resp.connection, ConnectionDirective::Unset);
    let snapshot = body;
    d.drain(&mut body, &mut resp);
    assert_eq!(resp.connection, ConnectionDirective::Unset);
    assert_eq!(body, snapshot);
    assert_eq!(body.read_one(), Ok(0));
}

#[test]
fn error_path_closes_but_keeps_the_error() {
    // leftover bytes beyond the limit on the error-completion path
    let d = Drain::with_limit(10);
    let mut body = BodyStream::with_unread(25);
    let mut err = ErrorResponse::new(42, ResponseHead::new());
    d.catch(&mut body, &mut err);
    assert_eq!(err.code, 42);
    assert_eq!(err.response.connection, ConnectionDirective::Close);
}

#[test]
fn error_path_with_clean_body_keeps_header() {
    let d = Drain::with_limit(10);
    let mut body = BodyStream::with_unread(2);
    let mut err = ErrorResponse::new(9, ResponseHead::new());
    d.catch(&mut body, &mut err);
    assert_eq!(err.code, 9);
    assert_eq!(err.response.connection, ConnectionDirective::Unset);
}

#[test]
fn success_hook_matches_drain() {
    let d = Drain::with_limit(10);
    let mut body = BodyStream::with_unread(11);
    let mut resp = ResponseHead::new();
    d.after(&mut body, &mut resp);
    assert_eq!(resp.connection, ConnectionDirective::Close);
}

#[test]
fn verdict_on_reported_observations() {
    assert!(!must_close(true, Some(ProbeOutcome::Eof)));
    assert!(must_close(true, Some(ProbeOutcome::Data)));
    assert!(must_close(true, Some(ProbeOutcome::Failed)));
    assert!(must_close(false, None));
}

#[test]
fn bounded_copy_reports_bytes_or_failure() {
    let mut short = BodyStream::with_unread(5);
    assert_eq!(short.copy_discard(10), Ok(5));

    let mut long = BodyStream::with_unread(20);
    assert_eq!(long.copy_discard(10), Ok(10));
    assert_eq!(long.unread, 10);

    let mut dying = BodyStream::failing_after(20, 3);
    assert_eq!(dying.copy_discard(10), Err(StreamError));
    assert_eq!(dying.unread, 17);
}

#[test]
fn read_on_broken_transport_fails() {
    let mut body = BodyStream::failing_after(4, 0);
    assert_eq!(body.read_one(), Err(StreamError));
    // even at end of stream a broken transport fails rather than reporting Ok(0)
    let mut drained = BodyStream::failing_after(0, 0);
    assert_eq!(drained.read_one(), Err(StreamError));
}

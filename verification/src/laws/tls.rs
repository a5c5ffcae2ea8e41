//! TLS over buffers: who is called next, and what the engine's answers mean.

use vstd::prelude::*;

use crate::errno::Errno;
use crate::ssl::{
    exact_step, moved_bytes, AfterFlush, BufferView, BufferedRead, ExactStep, SslAction, SslDriver,
    SslError, SslEvent, SslOp, SslOutcome,
};
use crate::text::decimal;
use crate::tls::{
    answers, error_line_of, error_text_of, needs_ssl_errors, version_parts, ErrorDetails,
    OpensslErrorType, RawError, Response, TlsServerError,
};

verus! {

/// A read from the buffers gives the first bytes of the first segment, as many as fit: fewer
/// than both only where there is nothing or no room, and then it would block. At the end of
/// the stream it gives none. What it gives stands at the front of the caller's buffer, and
/// the rest stays to be read. What is to be sent does not change.
pub proof fn law_buffered_read_takes_what_fits(v: BufferView, segment: nat, buf: Seq<u8>, i: int)
    requires
        segment <= v.incoming.len(),
        buf.len() <= usize::MAX,
    ensures
        ({
            let r = v.read(segment, buf);
            &&& v.eof ==> r.read == BufferedRead::Read(0) && r.stream == v && r.buf == buf
            &&& !v.eof && (segment == 0 || buf.len() == 0) ==> r.read == BufferedRead::WouldBlock
                && r.stream == v && r.buf == buf
            &&& !v.eof && segment > 0 && buf.len() > 0 ==> {
                let n = v.incoming.len() - r.stream.incoming.len();
                &&& r.read == BufferedRead::Read(n as usize)
                &&& 0 < n <= segment
                &&& n <= buf.len()
                &&& n == segment || n == buf.len()
                &&& r.stream.incoming == v.incoming.subrange(n, v.incoming.len() as int)
                &&& r.buf.len() == buf.len()
                &&& 0 <= i < n ==> r.buf[i] == v.incoming[i]
                &&& n <= i < buf.len() ==> r.buf[i] == buf[i]
            }
            &&& r.stream.outgoing == v.outgoing
            &&& r.stream.eof == v.eof
        }),
{
    let r = v.read(segment, buf);
    let n = v.incoming.len() - r.stream.incoming.len();
    if !v.eof && segment > 0 && buf.len() > 0 {
        assert(r.stream.incoming =~= v.incoming.subrange(n, v.incoming.len() as int));
    }
}

/// An operation on a TLS stream begins with a call of the engine; a shutdown sends what is
/// pending first.
pub proof fn law_operation_begins_with_the_engine<E>(d: SslDriver, sent: usize)
    ensures
        d.op == SslOp::Shutdown ==> d.next(SslEvent::<E>::Begin).1 is Flush && d.next(
            SslEvent::<E>::Begin,
        ).0.next(SslEvent::<E>::Flushed(Ok(sent))).1 is Call,
        d.op != SslOp::Shutdown ==> d.next(SslEvent::<E>::Begin) == (d, SslAction::<E>::Call),
        d.next(SslEvent::<E>::Begin).0.op == d.op,
{
}

/// An operation of which the engine made a success ends with the engine's value: a read and
/// a shutdown at once, the others when what the engine wrote was sent.
pub proof fn law_success_is_the_engines<E>(d: SslDriver, n: usize, sent: usize)
    ensures
        ({
            let called = d.next(SslEvent::<E>::Called(SslOutcome::Done(n)));
            let flushed = called.0.next(SslEvent::<E>::Flushed(Ok(sent)));
            &&& d.op == SslOp::Read || d.op == SslOp::Shutdown ==> called.1 == SslAction::<E>::Done(
                Ok(n),
            )
            &&& d.op == SslOp::Write || d.op == SslOp::Handshake ==> called.1 is Flush && flushed.1
                == SslAction::<E>::Done(Ok(n))
            &&& called.0.op == d.op
        }),
{
}

/// Where the engine would block, a read reads more and then calls it again. A write sends
/// what is pending and then calls it again. A handshake and a shutdown send what is pending,
/// and read more only where there was nothing to send; then they call it again.
pub proof fn law_blocked_engine_is_called_again<E>(d: SslDriver, sent: usize)
    ensures
        ({
            let blocked = d.next(SslEvent::<E>::Called(SslOutcome::WouldBlock));
            let flushed = blocked.0.next(SslEvent::<E>::Flushed(Ok(sent)));
            let filled = blocked.0.next(SslEvent::<E>::Filled(Ok(())));
            &&& d.op == SslOp::Read ==> blocked.1 is Fill
            &&& d.op != SslOp::Read ==> blocked.1 is Flush
            &&& d.op == SslOp::Write ==> flushed.1 is Call
            &&& d.op == SslOp::Handshake || d.op == SslOp::Shutdown ==> {
                &&& sent == 0 ==> flushed.1 is Fill
                &&& sent > 0 ==> flushed.1 is Call
                &&& flushed.0.next(SslEvent::<E>::Filled(Ok(()))).1 is Call
            }
            &&& filled.1 is Call
            &&& blocked.0.op == d.op
        }),
{
}

/// What fails ends the operation: with the engine's error, or with that of the stream.
pub proof fn law_failures_end_the_operation<E>(d: SslDriver, e: E, errno: Errno)
    ensures
        d.next(SslEvent::Called(SslOutcome::Failed(e))).1 == SslAction::<E>::Done(
            Err(SslError::Engine(e)),
        ),
        d.next(SslEvent::<E>::Flushed(Err(errno))).1 == SslAction::<E>::Done(
            Err(SslError::Stream(errno)),
        ),
        d.next(SslEvent::<E>::Filled(Err(errno))).1 == SslAction::<E>::Done(
            Err(SslError::Stream(errno)),
        ),
{
}

/// A transfer of a whole buffer goes on while bytes are left, ends well when none is, is a
/// broken pipe (32) where a part moves nothing, and fails as its part does.
pub proof fn law_transfer_goes_on_while_bytes_are_left(left: int, n: usize, e: Errno)
    ensures
        left == 0 ==> exact_step(left, None) == ExactStep::Done(Ok::<(), Errno>(())),
        left != 0 ==> exact_step(left, None) == ExactStep::More,
        exact_step(left, Some(Err(e))) == ExactStep::Done(Err::<(), Errno>(e)),
        n == 0 ==> exact_step(left, Some(Ok(n))) == ExactStep::Done(
            Err::<(), Errno>(Errno { code: 32 }),
        ),
        n > 0 && left == 0 ==> exact_step(left, Some(Ok(n))) == ExactStep::Done(
            Ok::<(), Errno>(()),
        ),
        n > 0 && left != 0 ==> exact_step(left, Some(Ok(n))) == ExactStep::More,
        moved_bytes(None) == 0,
        moved_bytes(Some(Ok(n))) == n,
        moved_bytes(Some(Err(e))) == 0,
{
}

/// What an answer of the TLS library means, by its type: 0 is a success with its number, 1 an
/// error of OpenSSL, 2 one of the codes of `SSL_get_error`, 3 a system error, 4 the end of the
/// stream, 5 a wish to write and 6 one to read.
pub proof fn law_answers_mean_what_they_say(error: RawError, codes: Seq<u64>, response: Response)
    requires
        answers(error, codes, response),
        0 <= error.error_type <= 6,
    ensures
        error.error_type == 0 ==> response == Response::Success(error.error_code as usize),
        error.error_type == 1 ==> gives_codes(response, codes),
        error.error_type == 3 ==> response == Response::Fail(
            TlsServerError::Errno(Errno { code: error.error_code }),
        ),
        error.error_type == 4 ==> response == Response::Eof,
        error.error_type == 5 ==> response == Response::WantWrite,
        error.error_type == 6 ==> response == Response::WantRead,
{
}

/// Whether a response is a failure with these codes of OpenSSL.
pub open spec fn gives_codes(response: Response, codes: Seq<u64>) -> bool {
    match response {
        Response::Fail(TlsServerError::TlsError(c)) => c@ == codes,
        _ => false,
    }
}

/// What the codes of `SSL_get_error` mean: 1 and 5 are found in OpenSSL's error queue, 2 is a
/// wish to read, 3 one to write, 6 the end of the stream; the other known ones are a protocol
/// error (71), and all else is an invalid argument (22).
pub proof fn law_engine_codes_mean_what_they_say(
    error: RawError,
    codes: Seq<u64>,
    response: Response,
)
    requires
        answers(error, codes, response),
        error.error_type == 2,
    ensures
        ({
            let c = error.error_code;
            &&& c == 1 || c == 5 ==> gives_codes(response, codes)
            &&& c == 2 ==> response == Response::WantRead
            &&& c == 3 ==> response == Response::WantWrite
            &&& c == 6 ==> response == Response::Eof
            &&& c == 4 || 7 <= c <= 12 ==> response == Response::Fail(
                TlsServerError::Errno(Errno { code: 71 }),
            )
            &&& c <= 0 || c > 12 ==> response == Response::Fail(
                TlsServerError::Errno(Errno { code: 22 }),
            )
        }),
{
}

/// The error queue is asked exactly for the answers that are found there.
pub proof fn law_error_queue_is_asked_when_needed(error: RawError)
    ensures
        error.error_type == 1 ==> needs_ssl_errors(error),
        error.error_type == 2 ==> needs_ssl_errors(error) == (error.error_code == 1
            || error.error_code == 5),
        error.error_type != 1 && error.error_type != 2 ==> !needs_ssl_errors(error),
{
}

/// The numbers that OpenSSL gives its errors.
pub proof fn law_openssl_errors_have_their_numbers()
    ensures
        OpensslErrorType::SSL_ERROR_NONE.number() == 0,
        OpensslErrorType::SSL_ERROR_SSL.number() == 1,
        OpensslErrorType::SSL_ERROR_WANT_READ.number() == 2,
        OpensslErrorType::SSL_ERROR_WANT_WRITE.number() == 3,
        OpensslErrorType::SSL_ERROR_WANT_X509_LOOKUP.number() == 4,
        OpensslErrorType::SSL_ERROR_SYSCALL.number() == 5,
        OpensslErrorType::SSL_ERROR_ZERO_RETURN.number() == 6,
        OpensslErrorType::SSL_ERROR_WANT_CONNECT.number() == 7,
        OpensslErrorType::SSL_ERROR_WANT_ACCEPT.number() == 8,
        OpensslErrorType::SSL_ERROR_WANT_ASYNC.number() == 9,
        OpensslErrorType::SSL_ERROR_WANT_ASYNC_JOB.number() == 10,
        OpensslErrorType::SSL_ERROR_WANT_CLIENT_HELLO_CB.number() == 11,
        OpensslErrorType::SSL_ERROR_WANT_RETRY_VERIFY.number() == 12,
{
}

/// A version number of OpenSSL holds, from the top, four bits of major version, eight of minor
/// version, eight that are not shown, eight of patch level and four of status.
pub proof fn law_openssl_version_is_packed(
    major: u64,
    minor: u64,
    fix: u64,
    patch: u64,
    status: u64,
)
    requires
        major < 16,
        minor < 256,
        fix < 256,
        patch < 256,
        status < 16,
    ensures
        version_parts(
            (major * 0x1000_0000 + minor * 0x10_0000 + fix * 0x1000 + patch * 0x10 + status) as u64,
        ) == (major, minor, patch),
{
    let number: u64 = (major * 0x1000_0000 + minor * 0x10_0000 + fix * 0x1000 + patch * 0x10
        + status) as u64;
    assert((number >> 28) & 0xf == major && (number >> 20) & 0xff == minor && (number >> 4) & 0xff
        == patch) by (bit_vector)
        requires
            major < 16,
            minor < 256,
            fix < 256,
            patch < 256,
            status < 16,
            number == (major * 0x1000_0000 + minor * 0x10_0000 + fix * 0x1000 + patch * 0x10
                + status) as u64,
    ;
}

/// The line of an error holds its code in decimal and its texts, whole and in this order.
pub proof fn law_error_line_holds_its_texts(d: ErrorDetails)
    ensures
        ({
            let line = error_line_of(d);
            let code = decimal(d.code as nat);
            let lib: int = 15 + code.len() as int + 5;
            let func: int = lib + d.lib@.len() as int + 6;
            let reason: int = func + d.func@.len() as int + 8;
            &&& line.subrange(0, 15) == "TlsError error:"@
            &&& line.subrange(15, 15 + code.len() as int) == code
            &&& line.subrange(lib, lib + d.lib@.len() as int) == d.lib@
            &&& line.subrange(func, func + d.func@.len() as int) == d.func@
            &&& line.subrange(reason, reason + d.reason@.len() as int) == d.reason@
            &&& line.len() == reason + d.reason@.len() + 1
        }),
{
    reveal_strlit("TlsError error:");
    reveal_strlit(" lib:");
    reveal_strlit(" func:");
    reveal_strlit(" reason:");
    reveal_strlit("\n");
    let line = error_line_of(d);
    let code = decimal(d.code as nat);
    let lib: int = 15 + code.len() as int + 5;
    let func: int = lib + d.lib@.len() as int + 6;
    let reason: int = func + d.func@.len() as int + 8;
    assert(line.subrange(0, 15) =~= "TlsError error:"@);
    assert(line.subrange(15, 15 + code.len() as int) =~= code);
    assert(line.subrange(lib, lib + d.lib@.len() as int) =~= d.lib@);
    assert(line.subrange(func, func + d.func@.len() as int) =~= d.func@);
    assert(line.subrange(reason, reason + d.reason@.len() as int) =~= d.reason@);
}

/// The text of errors is one line for each, in order, and a line ends where the next begins.
pub proof fn law_errors_are_listed_line_by_line(details: Seq<ErrorDetails>, d: ErrorDetails)
    ensures
        error_text_of(Seq::empty()).len() == 0,
        error_text_of(details.push(d)) == error_text_of(details) + error_line_of(d),
        error_line_of(d).last() == '\n',
{
    assert(details.push(d).drop_last() =~= details);
    reveal_strlit("\n");
    let line = error_line_of(d);
    assert(line[line.len() - 1] == "\n"@[0]);
}

/// An operation that did not begin calls the engine after the first bytes were sent.
pub proof fn law_first_flush_leads_to_the_engine<E>(op: SslOp, sent: usize)
    ensures
        (SslDriver { op, after_flush: AfterFlush::Call }).next(
            SslEvent::<E>::Flushed(Ok(sent)),
        ).1 is Call,
{
}

} // verus!

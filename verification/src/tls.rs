//! What TLS calls answer: responses, errors and versions.

use vstd::prelude::*;

use crate::errno::{Errno, EINVAL, EPROTO};
use crate::outside::openssl_number;
use crate::text::{decimal, push_decimal};

verus! {

/// What OpenSSL says of a call that did not succeed.
#[allow(non_camel_case_types)]
#[derive(Clone, Copy, Debug, PartialEq, Eq, Structural)]
pub enum OpensslErrorType {
    SSL_ERROR_NONE,
    SSL_ERROR_SSL,
    SSL_ERROR_WANT_READ,
    SSL_ERROR_WANT_WRITE,
    SSL_ERROR_WANT_X509_LOOKUP,
    SSL_ERROR_SYSCALL,
    SSL_ERROR_ZERO_RETURN,
    SSL_ERROR_WANT_CONNECT,
    SSL_ERROR_WANT_ACCEPT,
    SSL_ERROR_WANT_ASYNC,
    SSL_ERROR_WANT_ASYNC_JOB,
    SSL_ERROR_WANT_CLIENT_HELLO_CB,
    SSL_ERROR_WANT_RETRY_VERIFY,
    InvalidErrorCode,
}

impl OpensslErrorType {
    /// The number of each, for those that have one.
    pub open spec fn number(self) -> int {
        match self {
            OpensslErrorType::SSL_ERROR_NONE => 0,
            OpensslErrorType::SSL_ERROR_SSL => 1,
            OpensslErrorType::SSL_ERROR_WANT_READ => 2,
            OpensslErrorType::SSL_ERROR_WANT_WRITE => 3,
            OpensslErrorType::SSL_ERROR_WANT_X509_LOOKUP => 4,
            OpensslErrorType::SSL_ERROR_SYSCALL => 5,
            OpensslErrorType::SSL_ERROR_ZERO_RETURN => 6,
            OpensslErrorType::SSL_ERROR_WANT_CONNECT => 7,
            OpensslErrorType::SSL_ERROR_WANT_ACCEPT => 8,
            OpensslErrorType::SSL_ERROR_WANT_ASYNC => 9,
            OpensslErrorType::SSL_ERROR_WANT_ASYNC_JOB => 10,
            OpensslErrorType::SSL_ERROR_WANT_CLIENT_HELLO_CB => 11,
            OpensslErrorType::SSL_ERROR_WANT_RETRY_VERIFY => 12,
            OpensslErrorType::InvalidErrorCode => 13,
        }
    }

    /// The error with this number.
    pub fn from_code(code: i32) -> (t: OpensslErrorType)
        ensures
            0 <= code <= 12 ==> t.number() == code,
            !(0 <= code <= 12) ==> t == OpensslErrorType::InvalidErrorCode,
    {
        match code {
            0 => OpensslErrorType::SSL_ERROR_NONE,
            1 => OpensslErrorType::SSL_ERROR_SSL,
            2 => OpensslErrorType::SSL_ERROR_WANT_READ,
            3 => OpensslErrorType::SSL_ERROR_WANT_WRITE,
            4 => OpensslErrorType::SSL_ERROR_WANT_X509_LOOKUP,
            5 => OpensslErrorType::SSL_ERROR_SYSCALL,
            6 => OpensslErrorType::SSL_ERROR_ZERO_RETURN,
            7 => OpensslErrorType::SSL_ERROR_WANT_CONNECT,
            8 => OpensslErrorType::SSL_ERROR_WANT_ACCEPT,
            9 => OpensslErrorType::SSL_ERROR_WANT_ASYNC,
            10 => OpensslErrorType::SSL_ERROR_WANT_ASYNC_JOB,
            11 => OpensslErrorType::SSL_ERROR_WANT_CLIENT_HELLO_CB,
            12 => OpensslErrorType::SSL_ERROR_WANT_RETRY_VERIFY,
            _ => OpensslErrorType::InvalidErrorCode,
        }
    }
}

/// What a TLS call gives: the kind of answer, and a number that depends on it.
#[derive(Clone, Copy, Debug, PartialEq, Eq, Structural)]
pub struct RawError {
    pub error_type: i32,
    pub error_code: i32,
}

/// Why a TLS call failed.
#[derive(Debug, PartialEq, Eq)]
pub enum TlsServerError {
    /// The system's error.
    Errno(Errno),
    /// OpenSSL's error codes, oldest first.
    TlsError(Vec<u64>),
}

/// The answer to a TLS call.
#[derive(Debug, PartialEq, Eq)]
pub enum Response {
    /// It did this much.
    Success(usize),
    Fail(TlsServerError),
    /// The other side closed the connection.
    Eof,
    /// It needs more bytes from the other side.
    WantRead,
    /// Bytes have to be sent to the other side first.
    WantWrite,
}

/// Whether the answer to a call is to be found in OpenSSL's error queue.
pub open spec fn needs_ssl_errors(error: RawError) -> bool {
    error.error_type == 1 || error.error_type == 2 && (error.error_code == 1 || error.error_code
        == 5)
}

/// Whether a call answered anything that is known.
pub open spec fn is_answer(error: RawError) -> bool {
    0 <= error.error_type <= 6
}

/// Whether `response` is the answer of a call that gave `error`, where `codes` are those of
/// OpenSSL's error queue.
pub open spec fn answers(error: RawError, codes: Seq<u64>, response: Response) -> bool {
    if needs_ssl_errors(error) {
        response matches Response::Fail(TlsServerError::TlsError(c)) && c@ == codes
    } else if error.error_type == 0 {
        response == Response::Success(error.error_code as usize)
    } else if error.error_type == 2 {
        match error.error_code {
            2 => response == Response::WantRead,
            3 => response == Response::WantWrite,
            6 => response == Response::Eof,
            4 | 7 | 8 | 9 | 10 | 11 | 12 => response == Response::Fail(
                TlsServerError::Errno(Errno { code: EPROTO }),
            ),
            _ => response == Response::Fail(TlsServerError::Errno(Errno { code: EINVAL })),
        }
    } else if error.error_type == 3 {
        response == Response::Fail(TlsServerError::Errno(Errno { code: error.error_code }))
    } else if error.error_type == 4 {
        response == Response::Eof
    } else if error.error_type == 5 {
        response == Response::WantWrite
    } else {
        response == Response::WantRead
    }
}

/// Whether the answer to a call is to be found in OpenSSL's error queue, which is left alone
/// otherwise.
pub fn wants_ssl_errors(error: RawError) -> (b: bool)
    ensures
        b == needs_ssl_errors(error),
{
    error.error_type == 1 || (error.error_type == 2 && (error.error_code == 1 || error.error_code
        == 5))
}

/// The answer of a call that gave `error`, where `codes` are those of OpenSSL's error
/// queue; they matter only where [`wants_ssl_errors`] says so.
pub fn get_response(error: RawError, codes: Vec<u64>) -> (response: Response)
    requires
        is_answer(error),
    ensures
        answers(error, codes@, response),
{
    match error.error_type {
        0 => Response::Success(error.error_code as usize),
        1 => Response::Fail(TlsServerError::TlsError(codes)),
        2 => match OpensslErrorType::from_code(error.error_code) {
            OpensslErrorType::SSL_ERROR_SSL | OpensslErrorType::SSL_ERROR_SYSCALL => Response::Fail(
                TlsServerError::TlsError(codes),
            ),
            OpensslErrorType::SSL_ERROR_WANT_READ => Response::WantRead,
            OpensslErrorType::SSL_ERROR_WANT_WRITE => Response::WantWrite,
            OpensslErrorType::SSL_ERROR_ZERO_RETURN => Response::Eof,
            OpensslErrorType::SSL_ERROR_NONE | OpensslErrorType::InvalidErrorCode => Response::Fail(
                TlsServerError::Errno(Errno { code: EINVAL }),
            ),
            _ => Response::Fail(TlsServerError::Errno(Errno { code: EPROTO })),
        },
        3 => Response::Fail(TlsServerError::Errno(Errno::from_raw_os_error(error.error_code))),
        4 => Response::Eof,
        5 => Response::WantWrite,
        _ => Response::WantRead,
    }
}

/// Takes in the code that OpenSSL's error queue gave, oldest first: zero is the end of the
/// queue. Returns whether to ask for the next one.
pub fn get_ssl_error(codes: &mut Vec<u64>, code: u64) -> (more: bool)
    ensures
        more == (code != 0),
        final(codes)@ == (if code != 0 {
            old(codes)@.push(code)
        } else {
            old(codes)@
        }),
{
    if code != 0 {
        codes.push(code);
    }
    code != 0
}

/// A TLS context, by its address.
#[derive(Debug)]
pub struct TlsServerContext {
    pub ctx: u64,
}

/// A TLS connection, by its address.
#[derive(Debug)]
pub struct TlsServer {
    pub server: u64,
}

impl TlsServerContext {
    /// The context at the address `ctx`, which is not null.
    pub fn from_raw(ctx: u64) -> (c: TlsServerContext)
        requires
            ctx != 0,
        ensures
            c.ctx == ctx,
    {
        TlsServerContext { ctx }
    }

    /// The connection that a call to create one made at the address `server`, where
    /// `response` is its answer: it succeeds or fails.
    pub fn created(response: Response, server: u64) -> (r: Result<TlsServer, TlsServerError>)
        requires
            response is Success || response is Fail,
        ensures
            match response {
                Response::Success(_) => r is Ok && r->Ok_0.server == server,
                Response::Fail(e) => r is Err && r->Err_0 == e,
                _ => true,
            },
    {
        match response {
            Response::Fail(e) => Err(e),
            _ => Ok(TlsServer { server }),
        }
    }
}

impl TlsServer {
    /// How many bytes of a transfer buffer can be used, where `result` is what the call
    /// for it gave and `size` its length: `None` where there is no buffer.
    pub fn buffer_size(result: i32, size: usize) -> (n: Option<usize>)
        ensures
            n == (if result > 0 {
                Some(size)
            } else {
                None
            }),
    {
        if result > 0 {
            Some(size)
        } else {
            None
        }
    }
}

/// One error of OpenSSL with its texts, each quoted.
#[derive(Debug)]
pub struct ErrorDetails {
    pub code: u64,
    pub lib: String,
    pub func: String,
    pub reason: String,
}

/// The line of one error.
pub open spec fn error_line_of(d: ErrorDetails) -> Seq<char> {
    "TlsError error:"@ + decimal(d.code as nat) + " lib:"@ + d.lib@ + " func:"@ + d.func@
        + " reason:"@ + d.reason@ + "\n"@
}

/// The lines of these errors, in order.
pub open spec fn error_text_of(details: Seq<ErrorDetails>) -> Seq<char>
    decreases details.len(),
{
    if details.len() == 0 {
        Seq::empty()
    } else {
        error_text_of(details.drop_last()) + error_line_of(details.last())
    }
}

/// The line of one error.
pub fn error_line(d: &ErrorDetails) -> (line: String)
    ensures
        line@ == error_line_of(*d),
{
    let mut s = String::new();
    s.append("TlsError error:");
    assert(s@ =~= "TlsError error:"@);
    push_decimal(&mut s, d.code);
    s.append(" lib:");
    s.append(d.lib.as_str());
    s.append(" func:");
    s.append(d.func.as_str());
    s.append(" reason:");
    s.append(d.reason.as_str());
    s.append("\n");
    s
}

/// The text of OpenSSL's errors: one line each.
pub fn error_text(details: &Vec<ErrorDetails>) -> (text: String)
    ensures
        text@ == error_text_of(details@),
{
    let mut s = String::new();
    let mut i: usize = 0;
    assert(details@.take(0) =~= Seq::<ErrorDetails>::empty());
    while i < details.len()
        invariant
            i <= details@.len(),
            s@ == error_text_of(details@.take(i as int)),
        decreases details@.len() - i,
    {
        let line = error_line(&details[i]);
        s.append(line.as_str());
        proof {
            let n = details@.take(i + 1);
            assert(n.drop_last() =~= details@.take(i as int));
            assert(n.last() == details@[i as int]);
        }
        i = i + 1;
    }
    assert(details@.take(i as int) =~= details@);
    s
}

/// The texts of an error, where OpenSSL has them: without a library or a function the text
/// is empty, without a reason there is none.
pub fn get_error_details(lib: Option<String>, func: Option<String>, reason: Option<String>) -> (r: (
    String,
    String,
    Option<String>,
))
    ensures
        r.0@ == (match lib {
            Some(s) => s@,
            None => Seq::empty(),
        }),
        r.1@ == (match func {
            Some(s) => s@,
            None => Seq::empty(),
        }),
        r.2 == reason,
{
    let lib = match lib {
        Some(s) => s,
        None => String::new(),
    };
    let func = match func {
        Some(s) => s,
        None => String::new(),
    };
    (lib, func, reason)
}

/// Major, minor and patch level in a version number of OpenSSL.
pub open spec fn version_parts(number: u64) -> (u64, u64, u64) {
    ((number >> 28) & 0xf, (number >> 20) & 0xff, (number >> 4) & 0xff)
}

/// Major, minor and patch level of the OpenSSL version with this number.
pub fn version_from(number: u64) -> (v: (u64, u64, u64))
    ensures
        v == version_parts(number),
{
    ((number >> 28) & 0xf, (number >> 20) & 0xff, (number >> 4) & 0xff)
}

/// Major, minor and patch level of the OpenSSL that is linked.
pub fn tls_version() -> (v: (u64, u64, u64))
    ensures
        exists|number: u64| v == #[trigger] version_parts(number),
{
    let number: i64 = openssl_number();
    version_from(number as u64)
}

} // verus!

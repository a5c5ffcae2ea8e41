//! What this crate has from other crates and from the standard library.
//!
//! The contracts here are not proved: they say of the functions of `uuid`, `rustix`,
//! `openssl` and `std` that this crate calls what their documentation and source say.

use std::collections::VecDeque;

use vstd::arithmetic::power::pow;
use vstd::prelude::*;

verus! {

/// An owned file descriptor, `rustix::fd::OwnedFd`. Nothing is known of its inside.
#[verifier::external_type_specification]
#[verifier::external_body]
pub struct ExOwnedFd(rustix::fd::OwnedFd);

/// A random UUID from `uuid::Uuid::new_v4`, as the 128 bits that `Uuid::as_u128` gives.
/// Claims only what holds of each: version 4 and the RFC 4122 variant.
#[verifier::external_body]
pub(crate) fn new_v4() -> (id: u128)
    ensures
        (id >> 76) & 0xf == 4,
        (id >> 62) & 0x3 == 2,
{
    uuid::Uuid::new_v4().as_u128()
}

/// The nil UUID of `uuid::Uuid::nil`, as the 128 bits that `Uuid::as_u128` gives: all
/// zero.
#[verifier::external_body]
pub(crate) fn nil() -> (id: u128)
    ensures
        id == 0,
{
    uuid::Uuid::nil().as_u128()
}

/// The lower-case hexadecimal digit for `n` in `0..16`.
pub open spec fn hex_digit(n: int) -> char {
    if n < 10 {
        ('0' as int + n) as char
    } else {
        ('a' as int + n - 10) as char
    }
}

/// How many hyphens stand before position `i` of the text of a UUID.
pub open spec fn hyphens_before(i: int) -> int {
    (if i > 8 {
        1int
    } else {
        0
    }) + (if i > 13 {
        1int
    } else {
        0
    }) + (if i > 18 {
        1int
    } else {
        0
    }) + (if i > 23 {
        1int
    } else {
        0
    })
}

/// The text of a UUID: its 32 hexadecimal digits, the most significant first, in groups
/// of 8, 4, 4, 4 and 12 with hyphens between them.
pub open spec fn uuid_chars(id: u128) -> Seq<char> {
    Seq::new(
        36,
        |i: int|
            if i == 8 || i == 13 || i == 18 || i == 23 {
                '-'
            } else {
                hex_digit(id as int / pow(16, (31 - (i - hyphens_before(i))) as nat) % 16)
            },
    )
}

/// The text that `uuid::Uuid` displays for the UUID with these 128 bits
/// (`Uuid::from_u128`): the hyphenated lower-case form.
#[verifier::external_body]
pub(crate) fn uuid_text(id: u128) -> (text: String)
    ensures
        text@ == uuid_chars(id),
{
    uuid::Uuid::from_u128(id).to_string()
}

/// The release string of the running kernel, from `rustix::system::uname`, with bytes
/// that are not UTF-8 replaced. It depends on the machine, so nothing is claimed of it.
#[verifier::external_body]
pub(crate) fn kernel_release() -> (release: String) {
    rustix::system::uname().release().to_string_lossy().into_owned()
}

/// The number of the OpenSSL version that is linked, from `openssl::version::number`. It
/// depends on the machine, so nothing is claimed of it.
#[verifier::external_body]
pub(crate) fn openssl_number() -> (number: i64) {
    openssl::version::number()
}

/// The two slices of `VecDeque::as_slices`, which hold the contents in order. Where the
/// first one ends depends on how the deque lies in memory, so nothing is claimed of it.
#[verifier::external_body]
pub(crate) fn as_slices(d: &VecDeque<u8>) -> (r: (&[u8], &[u8]))
    ensures
        r.0@ + r.1@ == d@,
{
    d.as_slices()
}

/// Takes the first `n` elements out with `VecDeque::drain`, and drops them.
#[verifier::external_body]
pub(crate) fn drain_front(d: &mut VecDeque<u8>, n: usize)
    requires
        n <= old(d)@.len(),
    ensures
        final(d)@ == old(d)@.skip(n as int),
{
    d.drain(..n);
}

/// Appends copies of `data`, in order, with `VecDeque::extend`.
#[verifier::external_body]
pub(crate) fn extend(d: &mut VecDeque<u8>, data: &[u8])
    ensures
        final(d)@ == old(d)@ + data@,
{
    d.extend(data);
}

} // verus!

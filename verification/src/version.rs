//! Kernel versions.

use vstd::prelude::*;

use crate::outside::kernel_release;

verus! {

/// Whether a character can stand in a version: a digit or a period.
pub open spec fn is_version_char(c: char) -> bool {
    '0' <= c <= '9' || c == '.'
}

/// The first position from `from` on where `p` fails, the end of the text where it never
/// does.
pub open spec fn first_failure(s: Seq<char>, from: int, p: spec_fn(char) -> bool) -> int
    decreases s.len() - from,
{
    if from >= s.len() {
        s.len() as int
    } else if !p(s[from]) {
        from
    } else {
        first_failure(s, from + 1, p)
    }
}

/// The characters at the front of a text that can stand in a version.
pub open spec fn prefix_of(s: Seq<char>) -> Seq<char> {
    s.subrange(0, first_failure(s, 0, |c: char| is_version_char(c)))
}

/// The first period from `from` on, the end of the text where there is none.
pub open spec fn next_period(s: Seq<char>, from: int) -> int {
    first_failure(s, from, |c: char| c != '.')
}

/// The number that decimal digits stand for.
pub open spec fn decimal_value(s: Seq<char>) -> int
    decreases s.len(),
{
    if s.len() == 0 {
        0
    } else {
        10 * decimal_value(s.drop_last()) + (s.last() as int - '0' as int)
    }
}

/// Why a text is no version.
#[derive(Clone, Copy, Debug, PartialEq, Eq, Structural)]
pub enum ParseVersionError {
    /// A number is missing.
    Empty,
    /// A number does not fit 32 bits.
    PosOverflow,
}

/// The number that decimal digits stand for, if there are any and it fits.
pub open spec fn number_of(s: Seq<char>) -> Result<u32, ParseVersionError> {
    if s.len() == 0 {
        Err(ParseVersionError::Empty)
    } else if decimal_value(s) > u32::MAX {
        Err(ParseVersionError::PosOverflow)
    } else {
        Ok(decimal_value(s) as u32)
    }
}

/// The text up to the first period.
pub open spec fn major_part(s: Seq<char>) -> Seq<char> {
    s.subrange(0, next_period(s, 0))
}

/// The text between the first period and the second one; none where there is no period.
pub open spec fn minor_part(s: Seq<char>) -> Seq<char> {
    let a = next_period(s, 0);
    if a >= s.len() {
        Seq::empty()
    } else {
        s.subrange(a + 1, next_period(s, a + 1))
    }
}

/// The version that a text begins with.
pub open spec fn version_of(s: Seq<char>) -> Result<(u32, u32), ParseVersionError> {
    let p = prefix_of(s);
    match (number_of(major_part(p)), number_of(minor_part(p))) {
        (Ok(major), Ok(minor)) => Ok((major, minor)),
        (Err(e), _) => Err(e),
        (_, Err(e)) => Err(e),
    }
}

pub proof fn lemma_first_failure(s: Seq<char>, from: int, p: spec_fn(char) -> bool)
    requires
        0 <= from <= s.len(),
    ensures
        from <= first_failure(s, from, p) <= s.len(),
        forall|i: int| from <= i < first_failure(s, from, p) ==> p(#[trigger] s[i]),
        first_failure(s, from, p) < s.len() ==> !p(s[first_failure(s, from, p)]),
    decreases s.len() - from,
{
    if from < s.len() && p(s[from]) {
        lemma_first_failure(s, from + 1, p);
    }
}

pub proof fn lemma_first_failure_at(s: Seq<char>, from: int, at: int, p: spec_fn(char) -> bool)
    requires
        0 <= from <= at <= s.len(),
        forall|i: int| from <= i < at ==> p(#[trigger] s[i]),
        at == s.len() || !p(s[at]),
    ensures
        first_failure(s, from, p) == at,
    decreases at - from,
{
    if from < at {
        lemma_first_failure_at(s, from + 1, at, p);
    }
}

/// The prefix of a version consisting of only digits and periods.
pub fn version_prefix(version: &str) -> (prefix: &str)
    ensures
        prefix@ == prefix_of(version@),
{
    let n: usize = version.unicode_len();
    let mut i: usize = 0;
    while i < n
        invariant
            i <= n == version@.len(),
            forall|j: int| 0 <= j < i ==> is_version_char(#[trigger] version@[j]),
        decreases n - i,
    {
        let c = version.get_char(i);
        if !(('0' <= c && c <= '9') || c == '.') {
            proof {
                lemma_first_failure_at(version@, 0, i as int, |c: char| is_version_char(c));
            }
            return version.substring_char(0, i);
        }
        i = i + 1;
    }
    proof {
        lemma_first_failure_at(version@, 0, n as int, |c: char| is_version_char(c));
        assert(version@.subrange(0, n as int) =~= version@);
    }
    version
}

/// The first period from `from` on.
fn find_period(s: &str, from: usize) -> (at: usize)
    requires
        from <= s@.len(),
    ensures
        at == next_period(s@, from as int),
        from <= at <= s@.len(),
{
    let n: usize = s.unicode_len();
    let mut i: usize = from;
    while i < n && s.get_char(i) != '.'
        invariant
            from <= i <= n == s@.len(),
            forall|j: int| from <= j < i ==> #[trigger] s@[j] != '.',
        decreases n - i,
    {
        i = i + 1;
    }
    proof {
        lemma_first_failure_at(s@, from as int, i as int, |c: char| c != '.');
    }
    i
}

proof fn lemma_decimal_grows(s: Seq<char>, i: int)
    requires
        0 <= i <= s.len(),
        forall|j: int| 0 <= j < s.len() ==> '0' <= #[trigger] s[j] <= '9',
    ensures
        0 <= decimal_value(s.take(i)) <= decimal_value(s),
    decreases s.len(),
{
    if i < s.len() {
        lemma_decimal_grows(s.drop_last(), i);
        assert(s.drop_last().take(i) =~= s.take(i));
        assert('0' <= s[s.len() - 1]);
    } else {
        assert(s.take(i) =~= s);
        if i > 0 {
            lemma_decimal_grows(s.drop_last(), i - 1);
            assert('0' <= s[s.len() - 1]);
        }
    }
}

/// The number that the digits from `from` up to `to` stand for.
fn parse_number(s: &str, from: usize, to: usize) -> (r: Result<u32, ParseVersionError>)
    requires
        from <= to <= s@.len(),
        forall|j: int| from <= j < to ==> '0' <= #[trigger] s@[j] <= '9',
    ensures
        r == number_of(s@.subrange(from as int, to as int)),
{
    if from == to {
        return Err(ParseVersionError::Empty);
    }
    let ghost part = s@.subrange(from as int, to as int);
    let mut value: u64 = 0;
    let mut i: usize = from;
    assert(part.take(0) =~= Seq::<char>::empty());
    while i < to
        invariant
            from <= i <= to <= s@.len(),
            part == s@.subrange(from as int, to as int),
            forall|j: int| 0 <= j < part.len() ==> '0' <= #[trigger] part[j] <= '9',
            value == decimal_value(part.take(i - from)),
            value <= u32::MAX,
        decreases to - i,
    {
        let c = s.get_char(i);
        assert(c == part[i - from]);
        proof {
            let n = part.take(i - from + 1);
            assert(n.drop_last() =~= part.take(i - from));
            assert(n.last() == c);
            lemma_decimal_grows(part, i - from + 1);
        }
        value = 10 * value + (c as u64 - '0' as u64);
        if value > u32::MAX as u64 {
            return Err(ParseVersionError::PosOverflow);
        }
        i = i + 1;
    }
    assert(part.take(to - from) =~= part);
    Ok(value as u32)
}

/// Reads a version such as "5.15.0-rc1" as (5, 15). Anything behind the version is
/// ignored; a text that begins with none is an error.
pub fn parse_version(version: &str) -> (r: Result<(u32, u32), ParseVersionError>)
    ensures
        r == version_of(version@),
{
    let prefix = version_prefix(version);
    let n: usize = prefix.unicode_len();
    proof {
        lemma_first_failure(version@, 0, |c: char| is_version_char(c));
        assert forall|i: int| 0 <= i < prefix@.len() implies is_version_char(
            #[trigger] prefix@[i],
        ) by {
            assert(prefix@[i] == version@[i]);
        }
        lemma_first_failure(prefix@, 0, |c: char| c != '.');
    }
    let a: usize = find_period(prefix, 0);
    let major = parse_number(prefix, 0, a);
    let minor = if a < n {
        proof {
            lemma_first_failure(prefix@, a + 1, |c: char| c != '.');
        }
        let b: usize = find_period(prefix, a + 1);
        parse_number(prefix, a + 1, b)
    } else {
        Err(ParseVersionError::Empty)
    };
    match major {
        Ok(major) => match minor {
            Ok(minor) => Ok((major, minor)),
            Err(e) => Err(e),
        },
        Err(e) => Err(e),
    }
}

/// The version of a kernel with this release string; (5, 15) where it begins with none.
pub open spec fn release_version(release: Seq<char>) -> (u32, u32) {
    match version_of(release) {
        Ok(v) => v,
        Err(_) => (5, 15),
    }
}

/// The version of a kernel with this release string, as (major, minor); (5, 15), the
/// oldest that is supported, where the string begins with none.
pub fn kernel_version_from(release: &str) -> (v: (u32, u32))
    ensures
        v == release_version(release@),
{
    match parse_version(release) {
        Ok(v) => v,
        Err(_) => (5, 15),
    }
}

/// The version of the running kernel, as (major, minor); (5, 15) where it cannot be
/// determined.
pub fn kernel_version() -> (v: (u32, u32))
    ensures
        exists|release: Seq<char>| v == #[trigger] release_version(release),
{
    let release = kernel_release();
    kernel_version_from(release.as_str())
}

/// What stands behind a version does not matter, unless it goes on like one.
pub proof fn law_trailing_text_is_ignored(s: Seq<char>, rest: Seq<char>)
    requires
        forall|i: int| 0 <= i < s.len() ==> is_version_char(#[trigger] s[i]),
        rest.len() > 0,
        !is_version_char(rest[0]),
    ensures
        version_of(s + rest) == version_of(s),
{
    let p = |c: char| is_version_char(c);
    lemma_first_failure_at(s, 0, s.len() as int, p);
    assert forall|i: int| 0 <= i < s.len() implies p(#[trigger] (s + rest)[i]) by {
        assert((s + rest)[i] == s[i]);
    }
    lemma_first_failure_at(s + rest, 0, s.len() as int, p);
    assert((s + rest).subrange(0, s.len() as int) =~= s.subrange(0, s.len() as int));
}

} // verus!

//! How long to wait when the service says that it was asked too often.
//!
//! The service names the wait in a `Retry-After` header: a count of seconds
//! in decimal. The header is taken as the bytes that were received.

use vstd::prelude::*;

verus! {

/// The name of the header in which the service names the wait.
pub open spec fn retry_header() -> Seq<char> {
    "Retry-After"@
}

/// The name of the header to look for in a response that asks for a wait.
pub fn retry_header_name() -> (name: &'static str)
    ensures
        name@ == retry_header(),
{
    "Retry-After"
}

/// Seconds to wait when the header is missing or is no count of seconds.
pub const DEFAULT_RETRY_SECONDS: u64 = 5;

/// The byte `+`.
pub const PLUS: u8 = 0x2b;

/// The byte `0`.
pub const ZERO: u8 = 0x30;

/// The byte `9`.
pub const NINE: u8 = 0x39;

/// `b` is one of the bytes `0` to `9`.
pub open spec fn is_digit(b: u8) -> bool {
    ZERO <= b <= NINE
}

/// Every byte of `s` is a decimal digit.
pub open spec fn all_digits(s: Seq<u8>) -> bool {
    forall|i: int| 0 <= i < s.len() ==> is_digit(#[trigger] s[i])
}

/// The number that a decimal digit stands for; 0 for any other byte.
pub open spec fn digit_value(b: u8) -> nat {
    if is_digit(b) {
        (b - ZERO) as nat
    } else {
        0
    }
}

/// The number that the digits of `s` write in base ten, most significant
/// digit first.
pub open spec fn digits_value(s: Seq<u8>) -> nat
    decreases s.len(),
{
    if s.len() == 0 {
        0
    } else {
        digits_value(s.drop_last()) * 10 + digit_value(s.last())
    }
}

/// `s` without one leading `+`, if it has one.
pub open spec fn without_sign(s: Seq<u8>) -> Seq<u8> {
    if s.len() > 0 && s[0] == PLUS {
        s.subrange(1, s.len() as int)
    } else {
        s
    }
}

/// The count of seconds that `s` writes: an optional `+`, then one or more
/// decimal digits and nothing else, naming a value that fits in 64 bits.
/// `None` for every other text.
pub open spec fn parse_seconds(s: Seq<u8>) -> Option<nat> {
    let digits = without_sign(s);
    if digits.len() > 0 && all_digits(digits) && digits_value(digits) <= u64::MAX {
        Some(digits_value(digits))
    } else {
        None
    }
}

/// The wait that a `Retry-After` header asks for: its count of seconds, or
/// the default when the header is missing or is no such count.
pub open spec fn retry_delay(header: Option<Seq<u8>>) -> nat {
    match header {
        Some(s) => match parse_seconds(s) {
            Some(n) => n,
            None => DEFAULT_RETRY_SECONDS as nat,
        },
        None => DEFAULT_RETRY_SECONDS as nat,
    }
}

/// A longer run of digits never writes a smaller number than its beginning.
pub proof fn lemma_prefix_value_le(s: Seq<u8>, k: int)
    requires
        0 <= k <= s.len(),
    ensures
        digits_value(s.subrange(0, k)) <= digits_value(s),
    decreases s.len(),
{
    if k == s.len() {
        assert(s.subrange(0, k) =~= s);
    } else {
        lemma_prefix_value_le(s.drop_last(), k);
        assert(s.drop_last().subrange(0, k) =~= s.subrange(0, k));
    }
}

/// `b` may stand in the text of a header: a printable ASCII character or a
/// tab.
pub open spec fn is_text_byte(b: u8) -> bool {
    b == 0x09 || 0x20 <= b < 0x7f
}

/// A count of seconds is plain text. So a header with a byte that is no
/// text is no count, and asks for the default wait like any other header
/// that is none.
pub proof fn lemma_count_is_text(s: Seq<u8>)
    requires
        parse_seconds(s) is Some,
    ensures
        forall|i: int| 0 <= i < s.len() ==> is_text_byte(#[trigger] s[i]),
        retry_delay(Some(s)) == parse_seconds(s)->0,
{
    let digits = without_sign(s);
    assert forall|i: int| 0 <= i < s.len() implies is_text_byte(#[trigger] s[i]) by {
        if digits.len() < s.len() && i > 0 {
            assert(is_digit(digits[i - 1]));
        }
    }
}

/// Reads a count of seconds from the bytes of a header.
pub fn read_seconds(bytes: &[u8]) -> (count: Option<u64>)
    ensures
        match count {
            Some(n) => parse_seconds(bytes@) == Some(n as nat),
            None => parse_seconds(bytes@) is None,
        },
{
    let len: usize = bytes.len();
    let start: usize = if len > 0 && bytes[0] == PLUS { 1 } else { 0 };
    let ghost digits = without_sign(bytes@);
    if start == len {
        return None;
    }
    let mut value: u64 = 0;
    let mut i: usize = start;
    while i < len
        invariant
            start <= i <= len,
            len == bytes@.len(),
            digits == without_sign(bytes@),
            digits == bytes@.subrange(start as int, len as int),
            all_digits(digits.subrange(0, i - start)),
            value == digits_value(digits.subrange(0, i - start)),
        decreases len - i,
    {
        let b: u8 = bytes[i];
        let ghost seen = digits.subrange(0, i - start);
        let ghost more = digits.subrange(0, i + 1 - start);
        assert(more.drop_last() =~= seen);
        if b < ZERO || b > NINE {
            assert(!is_digit(digits[i - start]));
            return None;
        }
        let next: Option<u64> = match value.checked_mul(10) {
            Some(shifted) => shifted.checked_add((b - ZERO) as u64),
            None => None,
        };
        match next {
            Some(n) => {
                value = n;
            },
            None => {
                proof {
                    lemma_prefix_value_le(digits, i + 1 - start);
                }
                return None;
            },
        }
        i = i + 1;
    }
    assert(digits.subrange(0, len - start) =~= digits);
    Some(value)
}

/// The seconds to wait for a `Retry-After` header, given as it was received
/// or `None` where the response had none.
pub fn retry_after_seconds(header: &Option<Vec<u8>>) -> (seconds: u64)
    ensures
        seconds == retry_delay(
            match header {
                Some(bytes) => Some(bytes@),
                None => None,
            },
        ),
{
    match header {
        Some(bytes) => match read_seconds(bytes.as_slice()) {
            Some(n) => n,
            None => DEFAULT_RETRY_SECONDS,
        },
        None => DEFAULT_RETRY_SECONDS,
    }
}

} // verus!

//! What the engine reads of an HTTP response: its status and the length it
//! advertises.

use vstd::prelude::*;

verus! {

/// The head of an HTTP response, as the transport hands it over.
#[derive(Debug)]
pub struct Response {
    /// The status code.
    pub status: u16,
    /// The transport's words for the status.
    pub reason: String,
    /// The raw value of the `content-length` header, if there is one.
    pub content_length: Option<Vec<u8>>,
}

/// A status is a success when it lies in 200..=299.
pub open spec fn is_success(status: u16) -> bool {
    200 <= status < 300
}

/// An ASCII decimal digit.
pub open spec fn is_digit(byte: u8) -> bool {
    0x30 <= byte <= 0x39
}

pub open spec fn all_digits(text: Seq<u8>) -> bool {
    forall|i: int| 0 <= i < text.len() ==> is_digit(#[trigger] text[i])
}

/// The number that a run of decimal digits writes.
pub open spec fn decimal_value(digits: Seq<u8>) -> nat
    decreases digits.len(),
{
    if digits.len() == 0 {
        0
    } else {
        10 * decimal_value(digits.drop_last()) + (digits.last() - 0x30) as nat
    }
}

/// The text behind one leading `+`, if it has one.
pub open spec fn without_sign(text: Seq<u8>) -> Seq<u8> {
    if text.len() > 0 && text[0] == 0x2b {
        text.skip(1)
    } else {
        text
    }
}

/// The length that a header value states: an optional `+`, then one or
/// more decimal digits and nothing else, writing a number that fits in 64
/// bits. Any other text states none.
pub open spec fn parse_length(text: Seq<u8>) -> Option<u64> {
    let digits = without_sign(text);
    if digits.len() > 0 && all_digits(digits) && decimal_value(digits) <= u64::MAX {
        Some(decimal_value(digits) as u64)
    } else {
        None
    }
}

/// The length that a response advertises; unknown where the header is
/// absent or states none.
pub open spec fn advertised_length(header: Option<Vec<u8>>) -> Option<u64> {
    match header {
        Some(text) => parse_length(text@),
        None => None,
    }
}

/// A prefix of a run of digits never writes a larger number than the run.
proof fn lemma_prefix_value(digits: Seq<u8>, k: int)
    requires
        0 <= k <= digits.len(),
    ensures
        decimal_value(digits.take(k)) <= decimal_value(digits),
    decreases digits.len() - k,
{
    if k == digits.len() {
        assert(digits.take(k) == digits);
    } else {
        lemma_prefix_value(digits, k + 1);
        assert(digits.take(k + 1).drop_last() == digits.take(k));
    }
}

/// Reads the length that a `content-length` value states.
pub fn parse_content_length(text: &[u8]) -> (length: Option<u64>)
    ensures
        length == parse_length(text@),
{
    let n: usize = text.len();
    let start: usize = if n > 0 && text[0] == 0x2b {
        1
    } else {
        0
    };
    if start == n {
        return None;
    }
    let ghost digits = without_sign(text@);
    let mut value: u64 = 0;
    let mut i: usize = start;
    while i < n
        invariant
            start <= i <= n,
            n == text@.len(),
            digits == without_sign(text@),
            digits == text@.skip(start as int),
            all_digits(digits.take(i - start)),
            value == decimal_value(digits.take(i - start)),
        decreases n - i,
    {
        let byte: u8 = text[i];
        if byte < 0x30 || byte > 0x39 {
            assert(!is_digit(digits[i - start]));
            return None;
        }
        let digit: u64 = (byte - 0x30) as u64;
        proof {
            assert(digits.take(i + 1 - start).drop_last() == digits.take(i - start));
            assert(digits.take(i + 1 - start).last() == byte);
        }
        if value > (u64::MAX - digit) / 10 {
            proof {
                lemma_prefix_value(digits, i + 1 - start);
            }
            return None;
        }
        value = value * 10 + digit;
        i += 1;
    }
    assert(digits.take(n - start) == digits);
    Some(value)
}

impl Response {
    /// Whether the status is a success.
    pub fn is_success(&self) -> (yes: bool)
        ensures
            yes == is_success(self.status),
    {
        200 <= self.status && self.status < 300
    }

    /// The length that the response advertises.
    pub fn length(&self) -> (length: Option<u64>)
        ensures
            length == advertised_length(self.content_length),
    {
        match &self.content_length {
            Some(text) => parse_content_length(text.as_slice()),
            None => None,
        }
    }
}

} // verus!

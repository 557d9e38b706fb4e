//! Addresses of the form `host:port`.
//!
//! The port is what follows the last colon: decimal digits, after an optional
//! `+`, that make a number up to 65535. The host is what stands before that
//! colon, whatever it is: whether it names anything is for the resolver to
//! say.

use vstd::prelude::*;
use vstd::utf8::encode_utf8;
use crate::error::BindError;

verus! {

pub const COLON: u8 = 58;

pub const PLUS: u8 = 43;

pub const ZERO: u8 = 48;

pub const NINE: u8 = 57;

/// An address taken apart.
#[derive(Clone, Debug)]
pub struct HostPort {
    pub host: String,
    pub port: u16,
}

pub open spec fn is_digit(byte: u8) -> bool {
    ZERO <= byte <= NINE
}

/// Every byte is a decimal digit.
pub open spec fn all_digits(text: Seq<u8>) -> bool {
    forall|i: int| 0 <= i < text.len() ==> is_digit(#[trigger] text[i])
}

/// The number that a run of decimal digits stands for.
pub open spec fn decimal(digits: Seq<u8>) -> nat
    decreases digits.len(),
{
    if digits.len() == 0 {
        0
    } else {
        10 * decimal(digits.drop_last()) + (digits.last() - ZERO) as nat
    }
}

/// The text without a leading `+`.
pub open spec fn unsigned(text: Seq<u8>) -> Seq<u8> {
    if text.len() > 0 && text[0] == PLUS {
        text.skip(1)
    } else {
        text
    }
}

/// Whether the text is a port number.
pub open spec fn is_port(text: Seq<u8>) -> bool {
    &&& unsigned(text).len() > 0
    &&& all_digits(unsigned(text))
    &&& decimal(unsigned(text)) <= u16::MAX
}

/// The port that the text stands for, if it is one.
pub open spec fn port_of(text: Seq<u8>) -> u16 {
    decimal(unsigned(text)) as u16
}

/// The index of the last colon, or -1 if there is none.
pub open spec fn last_colon(bytes: Seq<u8>) -> int
    decreases bytes.len(),
{
    if bytes.len() == 0 {
        -1
    } else if bytes.last() == COLON {
        bytes.len() - 1
    } else {
        last_colon(bytes.drop_last())
    }
}

/// What stands before the last colon.
pub open spec fn host_part(bytes: Seq<u8>) -> Seq<u8> {
    bytes.take(last_colon(bytes))
}

/// What follows the last colon.
pub open spec fn port_part(bytes: Seq<u8>) -> Seq<u8> {
    bytes.skip(last_colon(bytes) + 1)
}

/// Whether the bytes are an address: a colon, and a port after the last one.
pub open spec fn well_formed(bytes: Seq<u8>) -> bool {
    last_colon(bytes) >= 0 && is_port(port_part(bytes))
}

/// The last colon is a colon, nothing after it is one, and without a colon
/// the answer is -1.
pub proof fn lemma_last_colon(bytes: Seq<u8>)
    ensures
        -1 <= last_colon(bytes) < bytes.len(),
        last_colon(bytes) >= 0 ==> bytes[last_colon(bytes)] == COLON,
        forall|j: int| last_colon(bytes) < j < bytes.len() ==> bytes[j] != COLON,
    decreases bytes.len(),
{
    if bytes.len() > 0 && bytes.last() != COLON {
        let front = bytes.drop_last();
        lemma_last_colon(front);
        assert forall|j: int| last_colon(bytes) < j < bytes.len() implies bytes[j] != COLON by {
            if j < front.len() {
                assert(front[j] == bytes[j]);
            }
        }
    }
}

/// More digits never make a smaller number.
pub proof fn lemma_decimal_grows(digits: Seq<u8>, n: int)
    requires
        0 <= n <= digits.len(),
    ensures
        decimal(digits.take(n)) <= decimal(digits),
    decreases digits.len() - n,
{
    if n == digits.len() {
        assert(digits.take(n) =~= digits);
    } else {
        lemma_decimal_grows(digits, n + 1);
        let longer = digits.take(n + 1);
        assert(longer.drop_last() =~= digits.take(n));
    }
}

/// Finds the last colon.
pub fn find_last_colon(bytes: &[u8]) -> (at: Option<usize>)
    ensures
        at is Some <==> last_colon(bytes@) >= 0,
        at matches Some(i) ==> i == last_colon(bytes@),
{
    let mut i: usize = bytes.len();
    proof {
        assert(bytes@.take(bytes@.len() as int) =~= bytes@);
    }
    while i > 0
        invariant
            0 <= i <= bytes@.len(),
            last_colon(bytes@) == last_colon(bytes@.take(i as int)),
        decreases i,
    {
        let ghost front = bytes@.take(i as int);
        if bytes[i - 1] == COLON {
            assert(front.last() == COLON);
            return Some(i - 1);
        }
        assert(front.drop_last() =~= bytes@.take(i - 1));
        i = i - 1;
    }
    None
}

/// Reads a port number.
pub fn parse_port(text: &[u8]) -> (port: Option<u16>)
    ensures
        port is Some <==> is_port(text@),
        port matches Some(p) ==> p == port_of(text@),
{
    let start: usize = if text.len() > 0 && text[0] == PLUS {
        1
    } else {
        0
    };
    let ghost digits = unsigned(text@);
    assert(digits =~= text@.skip(start as int));
    if start == text.len() {
        return None;
    }
    let mut value: u32 = 0;
    let mut i: usize = start;
    while i < text.len()
        invariant
            start <= i <= text@.len(),
            digits == unsigned(text@),
            digits == text@.skip(start as int),
            all_digits(digits.take(i - start)),
            value == decimal(digits.take(i - start)),
            value <= u16::MAX,
        decreases text@.len() - i,
    {
        let byte = text[i];
        let ghost seen = digits.take(i - start + 1);
        assert(seen.drop_last() =~= digits.take(i - start));
        assert(seen.last() == byte);
        if byte < ZERO || byte > NINE {
            assert(!is_digit(digits[i - start]));
            return None;
        }
        value = value * 10 + (byte - ZERO) as u32;
        if value > 65535 {
            proof {
                lemma_decimal_grows(digits, i - start + 1);
            }
            return None;
        }
        assert forall|k: int| 0 <= k < seen.len() implies is_digit(#[trigger] seen[k]) by {
            if k < seen.len() - 1 {
                assert(seen[k] == digits.take(i - start)[k]);
            }
        }
        i = i + 1;
    }
    assert(digits.take(i - start) =~= digits);
    Some(value as u16)
}

/// Takes an address apart. An address without a colon, or with anything but
/// a port after its last colon, is refused as invalid; every other address is
/// split at that colon.
pub fn parse_address(address: &str) -> (parsed: Result<HostPort, BindError>)
    ensures
        parsed is Ok <==> well_formed(encode_utf8(address@)),
        parsed matches Ok(hp) ==> {
            &&& encode_utf8(hp.host@) == host_part(encode_utf8(address@))
            &&& hp.port == port_of(port_part(encode_utf8(address@)))
        },
        parsed matches Err(e) ==> e == BindError::InvalidAddress,
{
    let bytes = address.as_bytes();
    let at = match find_last_colon(bytes) {
        Some(at) => at,
        None => {
            return Err(BindError::InvalidAddress);
        },
    };
    proof {
        lemma_last_colon(bytes@);
    }
    let end = bytes.len();
    let text = vstd::slice::slice_subrange(bytes, at + 1, end);
    assert(text@ =~= port_part(bytes@));
    let port = match parse_port(text) {
        Some(port) => port,
        None => {
            return Err(BindError::InvalidAddress);
        },
    };
    proof {
        vstd::utf8::encode_utf8_valid_utf8(address@);
        vstd::utf8::is_char_boundary_iff_not_is_continuation_byte(bytes@, at as int);
        assert(!vstd::utf8::is_continuation_byte(COLON)) by (bit_vector);
    }
    let (host, _) = address.split_at(at);
    proof {
        vstd::utf8::encode_utf8_decode_utf8(host@);
        assert(bytes@.subrange(0, at as int) =~= host_part(bytes@));
    }
    Ok(HostPort { host: host.to_owned(), port })
}

} // verus!

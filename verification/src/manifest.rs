//! The remote manifest: the set of files an installation should hold, the
//! expected fingerprint of each, and the time the set was last updated.

use crate::error::UpdateError;
use vstd::prelude::*;

verus! {

/// One entry of the manifest's hash table: a relative filename and the
/// lowercase hex MD5 fingerprint its content should have.
pub struct HashEntry {
    pub name: String,
    pub hash: String,
}

/// The manifest document, already decoded from its JSON carrier into plain
/// values.  `hashes` keeps its entries in the order the decoder handed them
/// over; `last_updated` is the raw string field, a decimal count of unix
/// seconds, parsed and validated by [`parse_timestamp`].
pub struct Manifest {
    pub hashes: Vec<HashEntry>,
    pub files: Vec<String>,
    pub last_updated: String,
}

/// A decimal digit.
pub open spec fn is_dec_digit(c: char) -> bool {
    '0' <= c && c <= '9'
}

/// The numeric value of a decimal digit.
pub open spec fn digit_value(c: char) -> int {
    c as int - '0' as int
}

/// The value of a digit string, read left to right.
pub open spec fn digits_value(s: Seq<char>) -> int
    decreases s.len(),
{
    if s.len() == 0 {
        0
    } else {
        digits_value(s.drop_last()) * 10 + digit_value(s.last())
    }
}

/// The digit part of a signed decimal string: everything after one leading
/// sign, if there is one.
pub open spec fn timestamp_digits(s: Seq<char>) -> Seq<char> {
    if s.len() > 0 && (s[0] == '+' || s[0] == '-') {
        s.drop_first()
    } else {
        s
    }
}

/// The sign of a signed decimal string.
pub open spec fn timestamp_sign(s: Seq<char>) -> int {
    if s.len() > 0 && s[0] == '-' {
        -1
    } else {
        1
    }
}

/// A well-formed `last_updated` field: at most one leading `+` or `-`, then
/// one or more decimal digits, denoting a value that fits a signed 64-bit
/// integer.  This is what Rust's standard signed-integer parsing accepts.
pub open spec fn is_timestamp_string(s: Seq<char>) -> bool {
    let d = timestamp_digits(s);
    &&& d.len() > 0
    &&& (forall|i: int| 0 <= i < d.len() ==> is_dec_digit(#[trigger] d[i]))
    &&& i64::MIN <= timestamp_sign(s) * digits_value(d) <= i64::MAX
}

/// The value a well-formed `last_updated` field denotes.
pub open spec fn timestamp_value(s: Seq<char>) -> int {
    timestamp_sign(s) * digits_value(timestamp_digits(s))
}

/// A digit string never denotes a negative value.
pub proof fn lemma_digits_value_nonneg(s: Seq<char>)
    requires
        forall|i: int| 0 <= i < s.len() ==> is_dec_digit(#[trigger] s[i]),
    ensures
        digits_value(s) >= 0,
    decreases s.len(),
{
    if s.len() > 0 {
        lemma_digits_value_nonneg(s.drop_last());
    }
}

/// Parses the manifest's `last_updated` field as a count of unix seconds.
/// Returns the timestamp error on anything but an optionally signed decimal
/// integer within the signed 64-bit range.
pub fn parse_timestamp(s: &str) -> (r: Result<i64, UpdateError>)
    ensures
        r is Ok <==> is_timestamp_string(s@),
        r matches Ok(v) ==> v as int == timestamp_value(s@),
        r is Err ==> r == Err::<i64, UpdateError>(UpdateError::Timestamp),
{
    let len = s.unicode_len();
    let mut start: usize = 0;
    let mut negative: bool = false;
    if len > 0 {
        let c0 = s.get_char(0);
        if c0 == '+' {
            start = 1;
        } else if c0 == '-' {
            start = 1;
            negative = true;
        }
    }
    let ghost d = timestamp_digits(s@);
    proof {
        assert(d =~= s@.subrange(start as int, len as int));
    }
    if start == len {
        // No digits at all.
        return Err(UpdateError::Timestamp);
    }
    let mut mag: u64 = 0;
    let mut too_big: bool = false;
    let mut i: usize = start;
    while i < len
        invariant
            start <= i <= len,
            len == s@.len(),
            start <= 1,
            d == timestamp_digits(s@),
            d == s@.subrange(start as int, len as int),
            forall|j: int| start <= j < i ==> is_dec_digit(#[trigger] s@[j]),
            !too_big ==> mag as int == digits_value(d.take(i - start)),
            too_big ==> digits_value(d.take(i - start)) > u64::MAX as int,
        decreases len - i,
    {
        let c = s.get_char(i);
        if c < '0' || c > '9' {
            proof {
                assert(d[i - start] == s@[i as int]);
                assert(!is_dec_digit(d[i - start]));
            }
            return Err(UpdateError::Timestamp);
        }
        let digit: u64 = (c as u32 as u64) - ('0' as u32 as u64);
        proof {
            let k = i - start;
            assert(d.take(k + 1).drop_last() =~= d.take(k));
            assert(d.take(k + 1).last() == s@[i as int]);
        }
        if too_big {
            // A too-large prefix only grows: one more digit multiplies it
            // by ten and adds a nonnegative value.
            proof {
                let k = i - start;
                assert(digits_value(d.take(k)) * 10 >= digits_value(d.take(k))) by (nonlinear_arith)
                    requires
                        digits_value(d.take(k)) >= 0,
                ;
            }
        } else {
            match mag.checked_mul(10) {
                Some(m) => {
                    match m.checked_add(digit) {
                        Some(m2) => {
                            mag = m2;
                        },
                        None => {
                            too_big = true;
                        },
                    }
                },
                None => {
                    too_big = true;
                },
            }
        }
        i = i + 1;
    }
    proof {
        assert(d.take(len - start) =~= d);
        assert(forall|j: int| 0 <= j < d.len() ==> is_dec_digit(#[trigger] d[j]));
        lemma_digits_value_nonneg(d);
        if too_big {
            assert(digits_value(d) > u64::MAX as int);
        } else {
            assert(mag as int == digits_value(d));
        }
    }
    if negative {
        if too_big || mag > 9223372036854775808u64 {
            return Err(UpdateError::Timestamp);
        }
        if mag == 9223372036854775808u64 {
            return Ok(i64::MIN);
        }
        return Ok(-(mag as i64));
    }
    if too_big || mag > 9223372036854775807u64 {
        return Err(UpdateError::Timestamp);
    }
    Ok(mag as i64)
}

} // verus!

//! Content fingerprints: the manifest records each file as the lowercase
//! hexadecimal encoding of the MD5 digest of its bytes.

use md5::Digest;
use vstd::prelude::*;

verus! {

/// The sixteen hexadecimal digits in lowercase, least value first.
pub const HEX_DIGITS: [char; 16] = [
    '0',
    '1',
    '2',
    '3',
    '4',
    '5',
    '6',
    '7',
    '8',
    '9',
    'a',
    'b',
    'c',
    'd',
    'e',
    'f',
];

/// Lowercase hexadecimal encoding of a byte sequence: two digits for each
/// byte, high nibble first.
pub open spec fn spec_hex_lower(data: Seq<u8>) -> Seq<char>
    decreases data.len(),
{
    if data.len() == 0 {
        Seq::empty()
    } else {
        seq![
            HEX_DIGITS@[(data.first() / 16) as int],
            HEX_DIGITS@[(data.first() % 16) as int],
        ] + spec_hex_lower(data.drop_first())
    }
}

/// The MD5 digest of a byte sequence.  The digest depends on the input
/// bytes alone; its definition is left to the hashing crate.
pub uninterp spec fn spec_md5(data: Seq<u8>) -> Seq<u8>;

/// The fingerprint the manifest stores for a file with the given bytes:
/// the MD5 digest, hex-encoded in lowercase.
pub open spec fn spec_md5_hex(data: Seq<u8>) -> Seq<char> {
    spec_hex_lower(spec_md5(data))
}

/// Relies on md5's `Md5` hasher (through the `Digest` trait): the digest is
/// sixteen bytes and depends on the input bytes alone.
#[verifier::external_body]
fn md5_digest(data: &Vec<u8>) -> (r: Vec<u8>)
    ensures
        r@ == spec_md5(data@),
        r@.len() == 16,
{
    md5::Md5::new_with_prefix(data.as_slice()).finalize().to_vec()
}

/// Relies on hex::encode: the lowercase hexadecimal digits of the input,
/// two for each byte, high nibble first.
#[verifier::external_body]
fn hex_encode(data: &Vec<u8>) -> (r: String)
    ensures
        r@ == spec_hex_lower(data@),
{
    hex::encode(data.as_slice())
}

/// The hex encoding of a sequence is twice as long as the sequence.
pub proof fn lemma_hex_lower_len(data: Seq<u8>)
    ensures
        spec_hex_lower(data).len() == 2 * data.len(),
    decreases data.len(),
{
    if data.len() > 0 {
        lemma_hex_lower_len(data.drop_first());
    }
}

/// Computes the content fingerprint of a file's bytes, exactly as the
/// manifest records it: thirty-two lowercase hex digits of the MD5 digest.
pub fn md5_hex(data: &Vec<u8>) -> (r: String)
    ensures
        r@ == spec_md5_hex(data@),
        r@.len() == 32,
{
    let d = md5_digest(data);
    proof {
        lemma_hex_lower_len(d@);
    }
    hex_encode(&d)
}

} // verus!

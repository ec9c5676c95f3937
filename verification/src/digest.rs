//! SHA-256 and unpadded standard base64, as used for device identifiers,
//! license-key hashes, access tokens and reset-request identifiers.

use base64::engine::general_purpose::STANDARD_NO_PAD;
use base64::Engine;
use sha2::Digest;
use sha2::Sha256;
use vstd::prelude::*;

verus! {

/// The SHA-256 digest of a byte sequence.
pub uninterp spec fn sha256(data: Seq<u8>) -> Seq<u8>;

/// The character of the standard base64 alphabet for the six-bit value `i`.
pub open spec fn base64_char(i: int) -> char {
    if i < 26 {
        (65 + i) as char
    } else if i < 52 {
        (97 + i - 26) as char
    } else if i < 62 {
        (48 + i - 52) as char
    } else if i == 62 {
        '+'
    } else {
        '/'
    }
}

/// The unpadded standard-alphabet base64 encoding of a byte sequence: each
/// group of three bytes becomes four characters, a last group of two bytes
/// three characters and a last single byte two.
pub open spec fn base64_no_pad(data: Seq<u8>) -> Seq<char>
    decreases data.len(),
{
    if data.len() == 0 {
        Seq::empty()
    } else if data.len() == 1 {
        let a = data[0] as int;
        seq![base64_char(a / 4), base64_char((a % 4) * 16)]
    } else if data.len() == 2 {
        let a = data[0] as int;
        let b = data[1] as int;
        seq![base64_char(a / 4), base64_char((a % 4) * 16 + b / 16), base64_char((b % 16) * 4)]
    } else {
        let a = data[0] as int;
        let b = data[1] as int;
        let c = data[2] as int;
        seq![
            base64_char(a / 4),
            base64_char((a % 4) * 16 + b / 16),
            base64_char((b % 16) * 4 + c / 64),
            base64_char(c % 64),
        ] + base64_no_pad(data.subrange(3, data.len() as int))
    }
}

/// A character of the standard base64 alphabet (`A-Z a-z 0-9 + /`).
pub open spec fn is_base64_char(c: char) -> bool {
    ||| 'A' <= c <= 'Z'
    ||| 'a' <= c <= 'z'
    ||| '0' <= c <= '9'
    ||| c == '+'
    ||| c == '/'
}

/// Length of an unpadded base64 encoding of `n` bytes.
pub open spec fn base64_no_pad_len(n: nat) -> nat {
    4 * (n / 3) + if n % 3 == 0 {
        0
    } else {
        n % 3 + 1
    }
}

/// `sha2::Sha256::digest`: the 32-byte SHA-256 digest of `data`.
#[verifier::external_body]
pub(crate) fn sha256_digest(data: &[u8]) -> (r: Vec<u8>)
    ensures
        r@ == sha256(data@),
        r@.len() == 32,
{
    Sha256::digest(data).to_vec()
}

/// `base64::Engine::encode` with `STANDARD_NO_PAD`: the unpadded standard
/// base64 encoding of `data`, as [`base64_no_pad`] states it.
#[verifier::external_body]
fn encode_no_pad(data: &[u8]) -> (r: String)
    requires
        data@.len() <= 0x1000_0000,
    ensures
        r@ == base64_no_pad(data@),
{
    STANDARD_NO_PAD.encode(data)
}

/// Every character of an encoding is in the standard alphabet, and an
/// encoding of `n` bytes has `base64_no_pad_len(n)` characters.
pub proof fn lemma_base64_no_pad(data: Seq<u8>)
    ensures
        base64_no_pad(data).len() == base64_no_pad_len(data.len()),
        forall|i: int|
            0 <= i < base64_no_pad(data).len() ==> is_base64_char(#[trigger] base64_no_pad(data)[i]),
    decreases data.len(),
{
    if data.len() >= 3 {
        let rest = data.subrange(3, data.len() as int);
        lemma_base64_no_pad(rest);
        assert(base64_no_pad_len(data.len()) == 4 + base64_no_pad_len(rest.len()));
    }
}

/// The unpadded standard base64 encoding of `data`, its length and its
/// alphabet.
pub(crate) fn base64_encode_no_pad(data: &[u8]) -> (r: String)
    requires
        data@.len() <= 0x1000_0000,
    ensures
        r@ == base64_no_pad(data@),
        r@.len() == base64_no_pad_len(data@.len()),
        forall|i: int| 0 <= i < r@.len() ==> is_base64_char(#[trigger] r@[i]),
{
    proof {
        lemma_base64_no_pad(data@);
    }
    encode_no_pad(data)
}

} // verus!

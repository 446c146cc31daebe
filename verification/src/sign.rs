use crate::decimal::dec_digits;
use crate::decimal::digit_char;
use crate::decimal::lemma_dec_digits_injective;
use crate::decimal::lemma_dec_digits_len_u64;
use crate::decimal::u64_to_string;
use vstd::prelude::*;
use vstd::string::StringExecFns;

verus! {

/// The canonical signable string is the signed parameters (here: only
/// `timestamp`) rendered as `name=value` pairs, with the raw API secret
/// appended directly at the end, no separator.  This string, and nothing
/// else, is what gets digested.
pub open spec fn signing_payload(secret: Seq<char>, timestamp: u64) -> Seq<char> {
    "timestamp="@ + dec_digits(timestamp as nat) + secret
}

/// The SHA-256 digest of the UTF-8 bytes of a string, as computed by the
/// digest routine the library calls.  It is a function of the characters
/// alone; nothing further is assumed about its value.
pub uninterp spec fn sha256_of(s: Seq<char>) -> Seq<u8>;

/// The lowercase hexadecimal rendering of a byte sequence: two symbols from
/// "0123456789abcdef" per byte, high nibble first.
pub open spec fn hex_lower(bytes: Seq<u8>) -> Seq<char> {
    Seq::new(
        bytes.len() * 2,
        |i: int|
            if i % 2 == 0 {
                hex_char((bytes[i / 2] / 16) as nat)
            } else {
                hex_char((bytes[i / 2] % 16) as nat)
            },
    )
}

/// The character for a single hexadecimal digit, lowercase.
pub open spec fn hex_char(d: nat) -> char {
    if d < 10 {
        digit_char(d)
    } else if d == 10 {
        'a'
    } else if d == 11 {
        'b'
    } else if d == 12 {
        'c'
    } else if d == 13 {
        'd'
    } else if d == 14 {
        'e'
    } else {
        'f'
    }
}

/// Holds of the characters a lowercase hexadecimal rendering may contain.
pub open spec fn is_lower_hex_char(c: char) -> bool {
    ('0' <= c && c <= '9') || ('a' <= c && c <= 'f')
}

/// The signature for a secret and a timestamp: the lowercase hexadecimal
/// rendering of the SHA-256 digest of the canonical signable string.
pub open spec fn signature_chars(secret: Seq<char>, timestamp: u64) -> Seq<char> {
    hex_lower(sha256_of(signing_payload(secret, timestamp)))
}

/// The most characters a secret may hold; keeps the signable string within
/// the input limit of the SHA-256 routine (2^61 - 1 bytes, where a character
/// encodes to at most four bytes).
pub const MAX_SECRET_CHARS: u64 = 0x07ff_ffff_ffff_ffc0;

/// Relies on `ring::digest::digest` with the `SHA256` algorithm: the digest
/// is 32 bytes long and depends on the input bytes alone.  The routine does
/// not return normally on inputs longer than SHA-256 admits, so such inputs
/// are excluded here.
#[verifier::external_body]
fn sha256_digest(s: &str) -> (r: Vec<u8>)
    requires
        s@.len() < 0x0800_0000_0000_0000,
    ensures
        r@ == sha256_of(s@),
        r@.len() == 32,
{
    let digest = ring::digest::digest(&ring::digest::SHA256, s.as_bytes());
    digest.as_ref().to_vec()
}

/// Relies on `data_encoding::HEXLOWER.encode`: each input byte becomes two
/// symbols from "0123456789abcdef", high nibble first.  The output length is
/// twice the input length, so an input whose doubled length would not fit a
/// `usize` is excluded here.
#[verifier::external_body]
fn hex_lower_encode(bytes: &[u8]) -> (r: String)
    requires
        bytes@.len() * 2 <= usize::MAX,
    ensures
        r@ == hex_lower(bytes@),
{
    data_encoding::HEXLOWER.encode(bytes)
}

/// Every hexadecimal digit renders to a lowercase hexadecimal character.
pub proof fn lemma_hex_char_is_lower_hex(d: nat)
    requires
        d < 16,
    ensures
        is_lower_hex_char(hex_char(d)),
{
}

/// Signs a request: digests the canonical signable string for `timestamp`
/// with the given API secret and renders the digest as 64 lowercase
/// hexadecimal characters.
pub fn sign_request(secret: &str, timestamp: u64) -> (r: String)
    requires
        secret@.len() <= MAX_SECRET_CHARS,
    ensures
        r@ == signature_chars(secret@, timestamp),
        r@.len() == 64,
        forall|i: int| 0 <= i < r@.len() ==> is_lower_hex_char(#[trigger] r@[i]),
{
    let ts = u64_to_string(timestamp);
    let mut payload = String::from_str("timestamp=");
    payload.append(ts.as_str());
    payload.append(secret);
    proof {
        reveal_strlit("timestamp=");
        lemma_dec_digits_len_u64(timestamp);
        assert(payload@ =~= signing_payload(secret@, timestamp));
    }
    let digest = sha256_digest(payload.as_str());
    let r = hex_lower_encode(digest.as_slice());
    proof {
        assert forall|i: int| 0 <= i < r@.len() implies is_lower_hex_char(#[trigger] r@[i]) by {
            let b = digest@[i / 2];
            assert(b / 16 < 16 && b % 16 < 16);
            if i % 2 == 0 {
                lemma_hex_char_is_lower_hex((b / 16) as nat);
            } else {
                lemma_hex_char_is_lower_hex((b % 16) as nat);
            }
        }
    }
    r
}

/// Law: the signature is a pure function of the API secret and the
/// timestamp; two signings of the same pair yield the identical signature.
pub proof fn lemma_signature_deterministic(
    secret1: Seq<char>,
    secret2: Seq<char>,
    t1: u64,
    t2: u64,
)
    requires
        secret1 == secret2,
        t1 == t2,
    ensures
        signature_chars(secret1, t1) == signature_chars(secret2, t2),
{
}

/// Law: distinct timestamps give distinct canonical signable strings under
/// the same secret, so their signatures can only coincide through a digest
/// collision.
pub proof fn lemma_distinct_timestamps_distinct_payloads(secret: Seq<char>, t1: u64, t2: u64)
    requires
        t1 != t2,
    ensures
        signing_payload(secret, t1) != signing_payload(secret, t2),
{
    let d1 = dec_digits(t1 as nat);
    let d2 = dec_digits(t2 as nat);
    let p = "timestamp="@;
    if signing_payload(secret, t1) == signing_payload(secret, t2) {
        assert(signing_payload(secret, t1).len() == p.len() + d1.len() + secret.len());
        assert(signing_payload(secret, t2).len() == p.len() + d2.len() + secret.len());
        assert(d1.len() == d2.len());
        assert forall|i: int| 0 <= i < d1.len() implies d1[i] == d2[i] by {
            assert((p + d1 + secret)[p.len() + i] == d1[i]);
            assert((p + d2 + secret)[p.len() + i] == d2[i]);
        }
        assert(d1 =~= d2);
        lemma_dec_digits_injective(t1 as nat, t2 as nat);
        assert(false);
    }
}

} // verus!

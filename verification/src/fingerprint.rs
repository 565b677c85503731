use vstd::prelude::*;
use crate::hex::{hex_lower, lemma_hex_lower_injective, to_hex_lower};

verus! {

/// The 16-byte MD5 digest of a byte sequence; a function of the bytes alone.
pub uninterp spec fn md5_of(bytes: Seq<u8>) -> Seq<u8>;

/// Relies on md5::compute: returns the 128-bit MD5 digest of the input as
/// 16 bytes, a function of the input bytes alone.
#[verifier::external_body]
fn md5_digest(bytes: &Vec<u8>) -> (r: Vec<u8>)
    ensures
        r@ == md5_of(bytes@),
        r@.len() == 16,
{
    md5::compute(bytes.as_slice()).0.to_vec()
}

/// The fingerprint of a byte sequence: its MD5 digest rendered as lowercase
/// hex, two digits per digest byte.
pub open spec fn fingerprint_spec(bytes: Seq<u8>) -> Seq<char> {
    hex_lower(md5_of(bytes))
}

/// Content identifier of a raw image: the MD5 digest of its bytes as 32
/// lowercase hex digits. It depends on the bytes alone, so it is computed
/// before any decode work and a cache hit skips decoding entirely.
pub fn fingerprint(bytes: &Vec<u8>) -> (r: String)
    ensures
        r@ == fingerprint_spec(bytes@),
        r@.len() == 32,
{
    let digest = md5_digest(bytes);
    let r = to_hex_lower(&digest);
    proof {
        assert(r@.len() == 2 * digest@.len());
    }
    r
}

/// Fingerprint stability: equal byte sequences always fingerprint alike, and
/// equal fingerprints can only come from equal digests, since the hex
/// rendering loses nothing. That distinct byte sequences give distinct
/// digests rests on MD5 collision resistance and is not claimed here.
pub proof fn lemma_fingerprint_stable(b1: Seq<u8>, b2: Seq<u8>)
    ensures
        b1 == b2 ==> fingerprint_spec(b1) == fingerprint_spec(b2),
        fingerprint_spec(b1) == fingerprint_spec(b2) ==> md5_of(b1) == md5_of(b2),
{
    if fingerprint_spec(b1) == fingerprint_spec(b2) {
        lemma_hex_lower_injective(md5_of(b1), md5_of(b2));
    }
}

} // verus!

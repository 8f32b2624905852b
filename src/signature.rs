//! Webhook authenticity: the `sha256=` HMAC signature that the sender puts in
//! the `X-Hub-Signature-256` header, recomputed over the exact body bytes.

use vstd::prelude::*;
use vstd::utf8::{encode_utf8, encode_utf8_decode_utf8};
use hmac::Mac;
use crate::text::{hex_of, push_hex};

verus! {

/// The HMAC-SHA256 tag of `msg` under `key`.
pub uninterp spec fn hmac_sha256_of(key: Seq<u8>, msg: Seq<u8>) -> Seq<u8>;

/// Relies on hmac's `Hmac::<Sha256>` (`new_from_slice`, `update`, `finalize`):
/// the 32-byte HMAC-SHA256 tag of `msg`. Keys of any length are accepted.
#[verifier::external_body]
fn hmac_sha256(key: &[u8], msg: &[u8]) -> (r: Vec<u8>)
    ensures
        r@ == hmac_sha256_of(key@, msg@),
        r@.len() == 32,
{
    let mut mac = hmac::Hmac::<sha2::Sha256>::new_from_slice(key).expect("HMAC takes keys of any size");
    mac.update(msg);
    mac.finalize().into_bytes().to_vec()
}

/// The algorithm tag in front of the hexadecimal digest.
pub open spec fn sha256_tag() -> Seq<char> {
    seq!['s', 'h', 'a', '2', '5', '6', '=']
}

/// The signature header value that a sender holding `secret` attaches to `payload`.
pub open spec fn signature_for(secret: Seq<char>, payload: Seq<u8>) -> Seq<char> {
    sha256_tag() + hex_of(hmac_sha256_of(encode_utf8(secret), payload))
}

/// Whether `declared` is the signature of `payload` under `secret`.
pub open spec fn accepts(payload: Seq<u8>, declared: Seq<char>, secret: Seq<char>) -> bool {
    declared == signature_for(secret, payload)
}

/// Compares two byte strings, looking at every byte whatever the earlier ones held.
fn same_bytes(a: &[u8], b: &[u8]) -> (r: bool)
    ensures
        r == (a@ == b@),
{
    if a.len() != b.len() {
        return false;
    }
    let mut same = true;
    let mut i: usize = 0;
    assert(a@.subrange(0, 0) =~= b@.subrange(0, 0));
    while i < a.len()
        invariant
            a@.len() == b@.len(),
            0 <= i <= a@.len(),
            same == (a@.subrange(0, i as int) == b@.subrange(0, i as int)),
        decreases a@.len() - i,
    {
        let eq_here = a[i] == b[i];
        proof {
            assert(a@.subrange(0, i as int) =~= a@.subrange(0, i + 1).drop_last());
            assert(b@.subrange(0, i as int) =~= b@.subrange(0, i + 1).drop_last());
            if a@.subrange(0, i + 1) == b@.subrange(0, i + 1) {
                assert(a@.subrange(0, i + 1)[i as int] == b@.subrange(0, i + 1)[i as int]);
            }
            if same && eq_here {
                assert(a@.subrange(0, i + 1) =~= b@.subrange(0, i + 1));
            }
        }
        same = same && eq_here;
        i = i + 1;
    }
    assert(a@.subrange(0, a@.len() as int) =~= a@);
    assert(b@.subrange(0, b@.len() as int) =~= b@);
    same
}

/// Checks a webhook signature: `signature` must be `sha256=` followed by the
/// lower-case hexadecimal HMAC-SHA256 of the raw `payload` bytes under `secret`.
/// Anything else, an empty or missing header included, is refused.
pub fn verify_signature(payload: Vec<u8>, signature: &str, secret: &str) -> (r: bool)
    ensures
        r == accepts(payload@, signature@, secret@),
{
    let tag = hmac_sha256(secret.as_bytes(), payload.as_slice());
    let mut expected = String::new();
    expected.append("sha256=");
    push_hex(&mut expected, tag.as_slice());
    proof {
        reveal_strlit("sha256=");
        assert(expected@ =~= signature_for(secret@, payload@));
    }
    let r = same_bytes(expected.as_str().as_bytes(), signature.as_bytes());
    proof {
        encode_utf8_decode_utf8(expected@);
        encode_utf8_decode_utf8(signature@);
    }
    r
}

/// A payload carrying the signature computed with the shared secret is
/// accepted, and every other declared signature is refused.
pub proof fn lemma_signature_round_trip(payload: Seq<u8>, secret: Seq<char>, declared: Seq<char>)
    ensures
        accepts(payload, signature_for(secret, payload), secret),
        declared != signature_for(secret, payload) ==> !accepts(payload, declared, secret),
{
}

} // verus!

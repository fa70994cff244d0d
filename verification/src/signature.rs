//! Request signatures: a keyed hash of the message, written in hexadecimal
//! and compared in constant time.

use crate::digest::{
    ct_eq, hex, hex_encode, hmac_sha256, hmac_sha256_tag, is_hex_digit, lemma_hex_shape,
};
use vstd::prelude::*;
use vstd::string::StringSliceAdditionalSpecFns;
use vstd::utf8::{encode_utf8, encode_utf8_decode_utf8};

verus! {

/// Number of characters in a signature.
pub const SIGNATURE_LEN: usize = 64;

/// The signature of `data` under `secret`: the HMAC-SHA256 tag of the
/// message's bytes, keyed by the secret's bytes, in lowercase hexadecimal.
pub open spec fn signature_of(data: Seq<char>, secret: Seq<char>) -> Seq<char> {
    hex(hmac_sha256(encode_utf8(secret), encode_utf8(data)))
}

/// Whether `signature` is accepted for `data` under `secret`.
pub open spec fn accepts(data: Seq<char>, secret: Seq<char>, signature: Seq<char>) -> bool {
    signature == signature_of(data, secret)
}

/// Signs `data` with `secret`. Any secret is taken, the empty one too.
pub fn create_signature(data: &str, secret: &str) -> (signature: String)
    ensures
        signature@ == signature_of(data@, secret@),
        signature@.len() == SIGNATURE_LEN,
        forall|i: int| 0 <= i < SIGNATURE_LEN ==> is_hex_digit(#[trigger] signature@[i]),
{
    let tag = hmac_sha256_tag(secret.as_bytes(), data.as_bytes());
    proof {
        lemma_hex_shape(tag@);
    }
    hex_encode(tag.as_slice())
}

/// Whether `signature` is the signature of `data` under `secret`. The
/// expected signature is computed anew and compared with the given one over
/// its whole length, wherever the two first differ.
pub fn verify_signature(data: &str, secret: &str, signature: &str) -> (ok: bool)
    ensures
        ok == accepts(data@, secret@, signature@),
{
    let expected = create_signature(data, secret);
    proof {
        encode_utf8_decode_utf8(expected@);
        encode_utf8_decode_utf8(signature@);
    }
    ct_eq(expected.as_str().as_bytes(), signature.as_bytes())
}

/// The signature of a message under a secret is accepted for that message
/// under that secret.
pub proof fn lemma_sign_then_verify(data: Seq<char>, secret: Seq<char>)
    ensures
        accepts(data, secret, signature_of(data, secret)),
{
}

/// A signature with one character changed is not accepted.
pub proof fn lemma_mutation_rejected(data: Seq<char>, secret: Seq<char>, at: int, c: char)
    requires
        0 <= at < signature_of(data, secret).len(),
        c != signature_of(data, secret)[at],
    ensures
        !accepts(data, secret, signature_of(data, secret).update(at, c)),
{
    assert(signature_of(data, secret).update(at, c)[at] == c);
}

} // verus!

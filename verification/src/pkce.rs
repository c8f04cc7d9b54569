//! Proof Key for Code Exchange: the secrets of one attempt and the challenge
//! that binds the authorization code to them.

use vstd::prelude::*;
use vstd::utf8::encode_utf8;
use base64::Engine;
use sha2::Digest;

verus! {

/// The SHA-256 digest of a byte string, as `sha2::Sha256` computes it.
pub uninterp spec fn sha256(data: Seq<u8>) -> Seq<u8>;

/// The base64 encoding of a byte string in the URL-safe alphabet without
/// padding, as the engine `URL_SAFE_NO_PAD` of `base64` computes it.
pub uninterp spec fn base64url_nopad(data: Seq<u8>) -> Seq<char>;

/// Calls `sha2::Sha256::digest`. Trusted: the result is the SHA-256 digest of
/// the input, named [`sha256`], and it is 32 bytes long.
#[verifier::external_body]
pub(crate) fn sha256_digest(data: &[u8]) -> (r: Vec<u8>)
    ensures
        r@ == sha256(data@),
        r@.len() == 32,
{
    sha2::Sha256::digest(data).to_vec()
}

/// The length of the unpadded base64 encoding of `n` bytes: four characters
/// for every three bytes, and two or three for one or two bytes that are
/// left.
pub open spec fn encoded_length(n: nat) -> nat {
    (n / 3) * 4 + if n % 3 == 0 {
        0nat
    } else if n % 3 == 1 {
        2nat
    } else {
        3nat
    }
}

/// Calls `Engine::encode` on `URL_SAFE_NO_PAD`. Trusted: the result is the
/// unpadded URL-safe base64 encoding of the input, named
/// [`base64url_nopad`]; it has the length that `base64::encoded_len`
/// documents for an encoding without padding, and each of its characters is
/// of the URL-safe alphabet: a letter, a digit, `-` or `_`. The bound keeps
/// the length of the encoding within `usize`, beyond which the call panics.
#[verifier::external_body]
pub(crate) fn base64url_encode(data: &[u8]) -> (r: String)
    requires
        data@.len() <= usize::MAX / 2,
    ensures
        r@ == base64url_nopad(data@),
        is_token(r@, encoded_length(data@.len())),
{
    base64::engine::general_purpose::URL_SAFE_NO_PAD.encode(data)
}

/// The PKCE challenge of a verifier under the method `S256`: the unpadded
/// URL-safe base64 encoding of the SHA-256 digest of the verifier's bytes.
pub open spec fn challenge_of(verifier: Seq<char>) -> Seq<char> {
    base64url_nopad(sha256(encode_utf8(verifier)))
}

/// The length of a challenge.
pub const CHALLENGE_LENGTH: usize = 43;

/// Computes the PKCE challenge of a verifier. It has 43 characters, each a
/// letter, a digit, `-` or `_`.
pub fn pkce_challenge(verifier: &str) -> (r: String)
    ensures
        r@ == challenge_of(verifier@),
        is_token(r@, CHALLENGE_LENGTH as nat),
{
    let digest = sha256_digest(verifier.as_bytes());
    base64url_encode(digest.as_slice())
}

/// Whether a character is of the alphabet of random tokens: an ASCII letter,
/// a digit, `_` or `-`.
pub open spec fn is_token_char(c: char) -> bool {
    ||| 'a' <= c && c <= 'z'
    ||| 'A' <= c && c <= 'Z'
    ||| '0' <= c && c <= '9'
    ||| c == '_'
    ||| c == '-'
}

/// Whether a string is a token of `len` characters of the token alphabet.
pub open spec fn is_token(s: Seq<char>, len: nat) -> bool {
    &&& s.len() == len
    &&& forall|i: int| 0 <= i < s.len() ==> is_token_char(#[trigger] s[i])
}

/// The length of the `state` token.
pub const STATE_LENGTH: usize = 16;

/// The length of the PKCE verifier.
pub const VERIFIER_LENGTH: usize = 64;

/// Calls `nanoid::format` with the generator `nanoid::rngs::default` and the
/// alphabet `nanoid::alphabet::SAFE`. Trusted: whatever the generator
/// yields, the result has `size` characters, each of that alphabet. A size
/// of zero is left out because the call does not return on it, a size above
/// an eighth of `usize` because the call's arithmetic overflows on it.
#[verifier::external_body]
pub(crate) fn random_token(size: usize) -> (r: String)
    requires
        0 < size <= usize::MAX / 8,
    ensures
        is_token(r@, size as nat),
{
    nanoid::format(nanoid::rngs::default, &nanoid::alphabet::SAFE, size)
}

} // verus!

use vstd::prelude::*;

verus! {

/// Number of random bytes behind a refresh token.
pub const REFRESH_TOKEN_BYTES: usize = 64;

/// Number of random bytes behind a two-factor remember token.
pub const REMEMBER_TOKEN_BYTES: usize = 180;

/// The secure random source could not produce output; no secret may be
/// substituted for it.
#[derive(Clone, Copy, Debug, PartialEq, Eq, Structural)]
pub struct RandomnessFailure;

/// Length of the padded base64 text of `n` bytes: four characters for each
/// started group of three bytes.
pub open spec fn padded_base64_len(n: nat) -> nat {
    4 * ((n + 2) / 3)
}

/// The padded standard-alphabet base64 text of some bytes.
pub uninterp spec fn base64_of(b: Seq<u8>) -> Seq<char>;

/// The padded URL-safe base64 text of some bytes.
pub uninterp spec fn base64url_of(b: Seq<u8>) -> Seq<char>;

/// Relies on getrandom::getrandom: fills the buffer from the operating
/// system's secure random source, or reports an error.
#[verifier::external_body]
pub(crate) fn secure_random(n: usize) -> (r: Option<Vec<u8>>)
    ensures
        r matches Some(v) ==> v@.len() == n,
{
    let mut buf = vec![0u8; n];
    match getrandom::getrandom(&mut buf) {
        Ok(()) => Some(buf),
        Err(_) => None,
    }
}

/// Relies on data_encoding::BASE64 (RFC 4648 section 4, padded):
/// encoding is a function of the bytes, four characters per started group of
/// three. `encode_len` asserts the bound on the input length.
#[verifier::external_body]
pub(crate) fn base64(b: &[u8]) -> (r: String)
    requires
        b@.len() <= usize::MAX / 512,
    ensures
        r@ == base64_of(b@),
        r@.len() == padded_base64_len(b@.len()),
{
    data_encoding::BASE64.encode(b)
}

/// Relies on data_encoding::BASE64URL (RFC 4648 section 5, padded):
/// encoding is a function of the bytes, four characters per started group of
/// three. `encode_len` asserts the bound on the input length.
#[verifier::external_body]
pub(crate) fn base64url(b: &[u8]) -> (r: String)
    requires
        b@.len() <= usize::MAX / 512,
    ensures
        r@ == base64url_of(b@),
        r@.len() == padded_base64_len(b@.len()),
{
    data_encoding::BASE64URL.encode(b)
}

} // verus!

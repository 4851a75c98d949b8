//! Startup configuration: the shared signing secret arrives as a URL-safe,
//! unpadded base64 string and must decode before the process may proceed.

use vstd::prelude::*;

verus! {

#[verifier::external_type_specification]
#[verifier::external_body]
/// The base64 decode error, opaque to the verifier.
pub struct ExDecodeError(base64::DecodeError);

/// What URL-safe, unpadded base64 decoding makes of the input bytes: the
/// decoded bytes, or nothing when the input is not valid base64. The result
/// depends on the input alone.
pub uninterp spec fn b64url_of(s: Seq<u8>) -> Option<Seq<u8>>;

/// The startup secret could not be decoded: a fatal configuration error.
#[derive(Clone, Copy, PartialEq, Eq, Structural, Debug)]
pub enum ConfigError {
    MalformedSecret,
}

/// Relies on base64's URL_SAFE_NO_PAD engine: decodes URL-safe, unpadded
/// base64, succeeding exactly on valid input; the result is a function of
/// the input bytes alone.
#[verifier::external_body]
fn b64url_decode(s: &Vec<u8>) -> (r: Result<Vec<u8>, base64::DecodeError>)
    ensures
        (r matches Ok(v) ==> b64url_of(s@) == Some(v@)),
        (r is Err ==> b64url_of(s@) is None),
{
    base64::Engine::decode(&base64::engine::general_purpose::URL_SAFE_NO_PAD, s.as_slice())
}

/// Decodes the shared verification secret handed in at startup. Succeeds
/// exactly when the input is valid URL-safe, unpadded base64; anything else
/// is the fatal configuration error.
pub fn decode_shared_key(s: &Vec<u8>) -> (r: Result<Vec<u8>, ConfigError>)
    ensures
        (r matches Ok(v) ==> b64url_of(s@) == Some(v@)),
        (r is Ok <==> b64url_of(s@) is Some),
        (r is Err <==> r == Result::<Vec<u8>, ConfigError>::Err(ConfigError::MalformedSecret)
            && b64url_of(s@) is None),
{
    match b64url_decode(s) {
        Ok(v) => Ok(v),
        Err(_) => Err(ConfigError::MalformedSecret),
    }
}

} // verus!

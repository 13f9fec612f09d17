use vstd::prelude::*;

verus! {

#[verifier::external_type_specification]
#[verifier::external_body]
pub struct ExPublicKey(near_crypto::PublicKey);

#[verifier::external_type_specification]
#[verifier::external_body]
pub struct ExParseKeyError(near_crypto::ParseKeyError);

/// Whether a text is a public key in the `<curve>:<base58 data>` form
/// (the curve prefix may be left out for ed25519).
pub uninterp spec fn is_public_key_text(s: Seq<char>) -> bool;

/// Relies on `near_crypto::PublicKey::from_str`: whether the text parses
/// depends on the text alone.
#[verifier::external_body]
fn public_key_from_str(s: &str) -> (r: Result<near_crypto::PublicKey, near_crypto::ParseKeyError>)
    ensures
        r is Ok <==> is_public_key_text(s@),
{
    <near_crypto::PublicKey as std::str::FromStr>::from_str(s)
}

/// Why an action builder could not produce its action.
#[derive(Debug)]
pub enum ActionError {
    /// The text given for a public key is not one.
    InvalidPublicKey(near_crypto::ParseKeyError),
}

/// Parses the text given for a public key.
pub fn parse_public_key(s: &str) -> (r: Result<near_crypto::PublicKey, ActionError>)
    ensures
        r is Ok <==> is_public_key_text(s@),
        r matches Err(e) ==> e is InvalidPublicKey,
{
    match public_key_from_str(s) {
        Ok(k) => Ok(k),
        Err(e) => Err(ActionError::InvalidPublicKey(e)),
    }
}

} // verus!

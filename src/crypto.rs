use vstd::prelude::*;

use vodozemac::sas::{EstablishedSas, Sas};
use vodozemac::{Curve25519PublicKey, KeyError};

verus! {

#[verifier::external_type_specification]
#[verifier::external_body]
pub struct ExSas(Sas);

#[verifier::external_type_specification]
#[verifier::external_body]
pub struct ExEstablishedSas(EstablishedSas);

#[verifier::external_type_specification]
#[verifier::external_body]
pub struct ExCurve25519PublicKey(Curve25519PublicKey);

#[verifier::external_type_specification]
#[verifier::external_body]
pub struct ExKeyError(KeyError);

/// Unpadded standard base64 of some bytes.
pub uninterp spec fn base64_of(b: Seq<u8>) -> Seq<char>;

/// The SHA-256 digest of the UTF-8 encoding of a string.
pub uninterp spec fn sha256_of(s: Seq<char>) -> Seq<u8>;

/// A string written as a JSON string literal, quotes and escapes included.
pub uninterp spec fn json_quoted(s: Seq<char>) -> Seq<char>;

/// Relies on ruma's `Base64::encode`: unpadded standard base64 of the bytes,
/// which depends on the bytes alone; four characters for each three bytes,
/// and two or three for a last group of one or two.
#[verifier::external_body]
pub(crate) fn base64_encode(bytes: &Vec<u8>) -> (r: String)
    ensures
        r@ == base64_of(bytes@),
        r@.len() == (4 * bytes@.len() + 2) / 3,
{
    ruma::serde::Base64::<ruma::serde::base64::Standard, Vec<u8>>::new(bytes.clone()).encode()
}

/// Relies on sha2's `Sha256::digest` over the string's UTF-8 bytes: a digest of
/// 32 bytes that depends on the input alone.
#[verifier::external_body]
pub(crate) fn sha256(input: &str) -> (r: Vec<u8>)
    ensures
        r@ == sha256_of(input@),
        r@.len() == 32,
{
    <sha2::Sha256 as sha2::Digest>::digest(input.as_bytes()).to_vec()
}

/// Relies on serde_json's `to_string` on a `str`: the JSON string literal for
/// it, which depends on the string alone. Writing a `str` into a `Vec` does
/// not fail.
#[verifier::external_body]
pub(crate) fn json_string(s: &str) -> (r: String)
    ensures
        r@ == json_quoted(s@),
{
    match serde_json::to_string(s) {
        Ok(r) => r,
        Err(_) => String::new(),
    }
}

/// Relies on vodozemac's `Sas::new`: a fresh random ephemeral Curve25519 key
/// pair.
pub assume_specification[ Sas::new ]() -> Sas;

/// Relies on vodozemac's `Sas::diffie_hellman`: consumes the ephemeral secret
/// and fails on a key that gives a non-contributory shared secret.
pub assume_specification[ Sas::diffie_hellman ](
    sas: Sas,
    their_public_key: Curve25519PublicKey,
) -> Result<EstablishedSas, KeyError>;

/// Relies on vodozemac's `Curve25519PublicKey::from_slice`: it accepts exactly
/// the slices of 32 bytes.
pub assume_specification[ Curve25519PublicKey::from_slice ](slice: &[u8]) -> (r: Result<
    Curve25519PublicKey,
    KeyError,
>)
    ensures
        r is Ok <==> slice@.len() == 32,
;

/// Relies on vodozemac's `Sas::public_key` and `Curve25519PublicKey::to_vec`:
/// the 32 bytes of our ephemeral public key.
#[verifier::external_body]
pub(crate) fn sas_public_key(sas: &Sas) -> (r: Vec<u8>)
    ensures
        r@.len() == 32,
{
    sas.public_key().to_vec()
}

/// Relies on vodozemac's `EstablishedSas::bytes` and `SasBytes::as_bytes`: six
/// bytes derived by HKDF from the shared secret and the info string.
#[verifier::external_body]
pub(crate) fn sas_bytes(sas: &EstablishedSas, info: &str) -> (r: Vec<u8>)
    ensures
        r@.len() == 6,
{
    sas.bytes(info).as_bytes().to_vec()
}

/// Relies on vodozemac's `EstablishedSas::calculate_mac` and `Mac::to_base64`:
/// the base64 HMAC-SHA256 of the input under a key derived from the shared
/// secret and the info string.
#[verifier::external_body]
pub(crate) fn calculate_mac(sas: &EstablishedSas, input: &str, info: &str) -> (r: String) {
    sas.calculate_mac(input, info).to_base64()
}

} // verus!

//! ECDSA signing and verification over the secp256k1 curve.
//!
//! Signing uses a deterministic nonce (RFC 6979), so the signature is a
//! function of the secret key and the digest alone; [`ecdsa_signature_of`]
//! names that function. [`signature_checks`] names the verification
//! predicate, and [`public_key_of`] the public key matching a secret key.
//! The contracts of [`sign`] and [`verify`] tie the three together: a
//! signature produced by `sign` passes `verify` under the matching public
//! key, and `verify` accepts exactly the signatures that check.

use vstd::prelude::*;

verus! {

/// The error type for operations with signatures.
#[derive(Clone, Copy, PartialEq, Eq, Debug)]
pub enum SignatureError {
    /// Fail in verify process.
    VerifyError,
}

#[verifier::external_type_specification]
#[verifier::external_body]
pub struct ExSecretKey(secp256k1::SecretKey);

#[verifier::external_type_specification]
#[verifier::external_body]
pub struct ExPublicKey(secp256k1::PublicKey);

#[verifier::external_type_specification]
#[verifier::external_body]
pub struct ExEcdsaSignature(secp256k1::Signature);

/// The signature that deterministic (RFC 6979) ECDSA signing produces for
/// a given secret key and 32-byte digest; a function of the two alone.
pub uninterp spec fn ecdsa_signature_of(
    secret_key: secp256k1::SecretKey,
    digest: Seq<u8>,
) -> secp256k1::Signature;

/// The public key matching a secret key on the secp256k1 curve.
pub uninterp spec fn public_key_of(secret_key: secp256k1::SecretKey) -> secp256k1::PublicKey;

/// Whether `sig` is a valid ECDSA signature of the 32-byte digest `digest`
/// under `public_key`; a function of the three alone.
pub uninterp spec fn signature_checks(
    public_key: secp256k1::PublicKey,
    digest: Seq<u8>,
    sig: secp256k1::Signature,
) -> bool;

/// Relies on secp256k1's `PublicKey::from_secret_key`: the public key
/// matching a secret key on the curve, a function of the secret key alone.
#[verifier::external_body]
pub fn public_key_for(secret_key: &secp256k1::SecretKey) -> (r: secp256k1::PublicKey)
    ensures
        r == public_key_of(*secret_key),
{
    let secp = secp256k1::Secp256k1::new();
    secp256k1::PublicKey::from_secret_key(&secp, secret_key)
}

/// Sign data with provided secret key.
///
/// Relies on secp256k1's `Secp256k1::sign`: ECDSA with the RFC 6979
/// deterministic nonce, a function of the secret key and digest alone,
/// whose result is a valid signature under the matching public key.
/// `Message::from_slice` accepts exactly 32 bytes and the call unwraps its
/// result, so other lengths are excluded here.
#[verifier::external_body]
pub fn sign(secret_key: secp256k1::SecretKey, data: &[u8]) -> (r: secp256k1::Signature)
    requires
        data@.len() == 32,
    ensures
        r == ecdsa_signature_of(secret_key, data@),
        signature_checks(public_key_of(secret_key), data@, r),
{
    let msg = secp256k1::Message::from_slice(data).unwrap();
    let secp = secp256k1::Secp256k1::new();
    secp.sign(&msg, &secret_key)
}

/// Relies on secp256k1's `Secp256k1::verify`: returns `Ok` exactly when
/// `sig` is a valid ECDSA signature of the 32-byte digest `data` under
/// `public_key`. `Message::from_slice` accepts exactly 32 bytes and the
/// call unwraps its result, so other lengths are excluded here.
#[verifier::external_body]
fn secp_verify(
    public_key: &secp256k1::PublicKey,
    data: &[u8],
    sig: &secp256k1::Signature,
) -> (r: bool)
    requires
        data@.len() == 32,
    ensures
        r == signature_checks(*public_key, data@, *sig),
{
    let msg = secp256k1::Message::from_slice(data).unwrap();
    let secp = secp256k1::Secp256k1::new();
    secp.verify(&msg, sig, public_key).is_ok()
}

/// Verify signature with a provided public key. Succeeds exactly when the
/// signature is a valid signing of the 32-byte digest `data` under
/// `public_key`; every failure is reported as the one opaque
/// [`SignatureError::VerifyError`].
pub fn verify(
    public_key: &secp256k1::PublicKey,
    data: &[u8],
    sig: &secp256k1::Signature,
) -> (r: Result<(), SignatureError>)
    requires
        data@.len() == 32,
    ensures
        r is Ok <==> signature_checks(*public_key, data@, *sig),
        r matches Err(e) ==> e == SignatureError::VerifyError,
{
    if secp_verify(public_key, data, sig) {
        Ok(())
    } else {
        Err(SignatureError::VerifyError)
    }
}

/// Law: a signature freshly produced with a secret key passes verification
/// under the matching public key.
pub fn sign_then_verify(secret_key: secp256k1::SecretKey, data: &[u8]) -> (r: Result<
    (),
    SignatureError,
>)
    requires
        data@.len() == 32,
    ensures
        r is Ok,
{
    let public_key = public_key_for(&secret_key);
    let sig = sign(secret_key, data);
    verify(&public_key, data, &sig)
}

} // verus!

//! The crypto port: RSA with PKCS#1 v1.5 padding, random bytes, and fresh
//! nonces, each behind a trusted wrapper around the backing crate. Nothing
//! is assumed of ciphertexts or random values beyond the buffer sizes the
//! backing functions document; every decision the protocol takes on such a
//! value is made, and verified, in the callers.

use vstd::prelude::*;

verus! {

#[verifier::external_type_specification]
#[verifier::external_body]
#[verifier::reject_recursive_types(T)]
pub struct ExRsa<T>(openssl::rsa::Rsa<T>);

#[verifier::external_type_specification]
#[verifier::external_body]
pub struct ExPrivate(openssl::pkey::Private);

#[verifier::external_type_specification]
#[verifier::external_body]
pub struct ExPublic(openssl::pkey::Public);

#[verifier::external_type_specification]
#[verifier::external_body]
pub struct ExErrorStack(openssl::error::ErrorStack);

/// Relies on openssl's rand_bytes: on success the buffer holds `n` bytes
/// drawn from the backend's RNG. Nothing is promised of their values. The
/// call asserts that the buffer is no longer than a C int can count.
#[verifier::external_body]
pub(crate) fn rand_bytes_vec(n: usize) -> (r: Result<Vec<u8>, openssl::error::ErrorStack>)
    requires
        n <= 0x7fffffff,
    ensures
        r matches Ok(v) ==> v@.len() == n,
{
    let mut buf = vec![0u8; n];
    openssl::rand::rand_bytes(&mut buf)?;
    Ok(buf)
}

/// Relies on openssl's Rsa::public_key_from_pem: parses a PEM-encoded
/// SubjectPublicKeyInfo RSA public key. The call asserts that the input is
/// no longer than a C int can count.
#[verifier::external_body]
pub(crate) fn public_key_from_pem(pem: &[u8]) -> (r: Result<
    openssl::rsa::Rsa<openssl::pkey::Public>,
    openssl::error::ErrorStack,
>)
    requires
        pem@.len() <= 0x7fffffff,
{
    openssl::rsa::Rsa::public_key_from_pem(pem)
}

/// Relies on openssl's RsaRef::public_encrypt with PKCS#1 v1.5 padding, into
/// a buffer of the key's modulus size as its documentation requires; the
/// ciphertext is truncated to the byte count the call reports.
#[verifier::external_body]
pub(crate) fn rsa_public_encrypt(
    key: &openssl::rsa::Rsa<openssl::pkey::Public>,
    data: &[u8],
) -> (r: Result<Vec<u8>, openssl::error::ErrorStack>)
    requires
        data@.len() <= 0x7fffffff,
{
    let mut out = vec![0u8; key.size() as usize];
    let n = key.public_encrypt(data, &mut out, openssl::rsa::Padding::PKCS1)?;
    out.truncate(n);
    Ok(out)
}

/// Relies on openssl's RsaRef::private_decrypt with PKCS#1 v1.5 padding,
/// into a buffer of the key's modulus size as its documentation requires;
/// the plaintext is truncated to the byte count the call reports.
#[verifier::external_body]
pub(crate) fn rsa_private_decrypt(
    key: &openssl::rsa::Rsa<openssl::pkey::Private>,
    data: &[u8],
) -> (r: Result<Vec<u8>, openssl::error::ErrorStack>)
    requires
        data@.len() <= 0x7fffffff,
{
    let mut out = vec![0u8; key.size() as usize];
    let n = key.private_decrypt(data, &mut out, openssl::rsa::Padding::PKCS1)?;
    out.truncate(n);
    Ok(out)
}

} // verus!

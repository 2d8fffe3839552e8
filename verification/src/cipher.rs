//! Authenticated encryption of the vault's contents with AES-256-GCM.
//!
//! The cipher itself is the `aes-gcm` crate's. What it returns is named here,
//! and the two calls are given the contract that the rest of the crate is
//! proved against.

use aes_gcm::aead::Aead;
use aes_gcm::{Aes256Gcm, KeyInit, Nonce};
use vstd::prelude::*;

verus! {

/// Length of a nonce, in bytes.
pub const NONCE_LEN: usize = 12;

/// Length of the authentication tag that follows the encrypted bytes.
pub const TAG_LEN: usize = 16;

/// The longest plaintext that the cipher accepts, in bytes.
pub const MAX_PLAINTEXT_LEN: u64 = 0x10_0000_0000;

/// The error of the `aead` traits, which carries no detail.
#[verifier::external_type_specification]
#[verifier::external_body]
pub struct ExAeadError(aes_gcm::Error);

/// The bytes that AES-256-GCM produces for a plaintext under a key and a
/// nonce, with no associated data: the encrypted bytes, then the tag.
pub uninterp spec fn aes256_gcm_seal(key: Seq<u8>, nonce: Seq<u8>, plaintext: Seq<u8>) -> Seq<u8>;

/// The plaintext that AES-256-GCM recovers from sealed bytes under a key and
/// a nonce, or `None` where the bytes hold no tag or the tag does not verify.
pub uninterp spec fn aes256_gcm_open(key: Seq<u8>, nonce: Seq<u8>, sealed: Seq<u8>) -> Option<Seq<u8>>;

/// `Aes256Gcm::new` on the key, then `Aead::encrypt` with the nonce and the
/// plaintext as the whole payload.
///
/// The call fails exactly when the plaintext is longer than the cipher's
/// limit. Otherwise it returns the sealed bytes, sixteen more than the
/// plaintext, and decrypting them under the same key and nonce gives the
/// plaintext back.
#[verifier::external_body]
pub(crate) fn encrypt(key: &[u8; 32], nonce: &[u8], plaintext: &[u8]) -> (r: Result<
    Vec<u8>,
    aes_gcm::Error,
>)
    requires
        nonce@.len() == NONCE_LEN,
        plaintext@.len() + TAG_LEN <= isize::MAX,
    ensures
        r is Ok <==> plaintext@.len() <= MAX_PLAINTEXT_LEN,
        r matches Ok(sealed) ==> {
            &&& sealed@ == aes256_gcm_seal(key@, nonce@, plaintext@)
            &&& sealed@.len() == plaintext@.len() + TAG_LEN
            &&& aes256_gcm_open(key@, nonce@, sealed@) == Some(plaintext@)
        },
{
    Aes256Gcm::new(key.into()).encrypt(Nonce::from_slice(nonce), plaintext)
}

/// `Aes256Gcm::new` on the key, then `Aead::decrypt` with the nonce and the
/// sealed bytes as the whole payload.
///
/// The call returns the plaintext where the tag verifies, and fails
/// otherwise; which of the two is a function of the three arguments.
#[verifier::external_body]
pub(crate) fn decrypt(key: &[u8; 32], nonce: &[u8], sealed: &[u8]) -> (r: Result<
    Vec<u8>,
    aes_gcm::Error,
>)
    requires
        nonce@.len() == NONCE_LEN,
    ensures
        r matches Ok(plaintext) ==> aes256_gcm_open(key@, nonce@, sealed@) == Some(plaintext@),
        r is Err ==> aes256_gcm_open(key@, nonce@, sealed@) is None,
{
    Aes256Gcm::new(key.into()).decrypt(Nonce::from_slice(nonce), sealed)
}

} // verus!

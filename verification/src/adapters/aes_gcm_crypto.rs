//! AES-256-GCM with detached tags, from the `aes-gcm` crate.
use vstd::prelude::*;

use aes_gcm::aead::{AeadInPlace, KeyInit};
use aes_gcm::Aes256Gcm;

use crate::adapters::os_secure_random::OsSecureRandom;
use crate::crypto::backends::{
    authenticates, lemma_tampered_tag_refused, AeadBackend, AeadBackendError, AeadEncrypted, SecureRandom, DATA_KEY_SIZE, NONCE_SIZE, TAG_SIZE,
};
use crate::domain::encrypted_log::{EncryptedLogData, EncryptedLogDataView};
use crate::domain::timestamp::current_time;

verus! {

/// The longest plaintext, and the longest associated data, that AES-GCM accepts (2^36 bytes).
pub const AES_GCM_MAX_INPUT: u64 = 68_719_476_736;

/// The longest ciphertext that AES-GCM opens (2^36 + 16 bytes).
pub const AES_GCM_MAX_CIPHERTEXT: u64 = 68_719_476_752;

#[verifier::external_type_specification]
#[verifier::external_body]
pub struct ExAeadError(aes_gcm::Error);

/// The ciphertext and tag that AES-256-GCM computes for `plaintext` under `key`, `nonce`
/// and associated data `aad`.
pub uninterp spec fn aes256gcm_seal(key: Seq<u8>, nonce: Seq<u8>, aad: Seq<u8>, plaintext: Seq<u8>) -> (Seq<u8>, Seq<u8>);

/// What AES-256-GCM decryption of `ciphertext` with `tag` gives under `key`, `nonce` and
/// associated data `aad`: the plaintext, or `None` when the tag does not authenticate it.
pub uninterp spec fn aes256gcm_open(key: Seq<u8>, nonce: Seq<u8>, aad: Seq<u8>, ciphertext: Seq<u8>, tag: Seq<u8>) -> Option<Seq<u8>>;

/// Seals `plaintext` with `aes_gcm::Aes256Gcm::encrypt_in_place_detached`.
///
/// Claimed of the crate: it refuses exactly a plaintext or associated data longer than
/// 2^36 bytes (`P_MAX`, `A_MAX`); otherwise the ciphertext is as long as the plaintext, the
/// pair is `aes256gcm_seal` of the inputs, and decrypting it under the same key, nonce and
/// associated data gives the plaintext back (counter mode applied twice, tag recomputed over
/// the same ciphertext).
#[verifier::external_body]
fn aes256gcm_encrypt_in_place_detached(
    key: &[u8; DATA_KEY_SIZE],
    nonce: &[u8; NONCE_SIZE],
    aad: &[u8],
    plaintext: &[u8],
) -> (r: Result<(Vec<u8>, [u8; TAG_SIZE]), aes_gcm::Error>)
    ensures
        match r {
            Ok((ciphertext, tag)) => {
                &&& plaintext@.len() <= AES_GCM_MAX_INPUT && aad@.len() <= AES_GCM_MAX_INPUT
                &&& (ciphertext@, tag@) == aes256gcm_seal(key@, nonce@, aad@, plaintext@)
                &&& ciphertext@.len() == plaintext@.len()
                &&& aes256gcm_open(key@, nonce@, aad@, ciphertext@, tag@) == Some(plaintext@)
            },
            Err(_) => plaintext@.len() > AES_GCM_MAX_INPUT || aad@.len() > AES_GCM_MAX_INPUT,
        },
{
    let cipher = Aes256Gcm::new(key.into());
    let mut buffer = plaintext.to_vec();
    match cipher.encrypt_in_place_detached(nonce.into(), aad, &mut buffer) {
        Ok(tag) => Ok((buffer, tag.into())),
        Err(error) => Err(error),
    }
}

/// Opens `ciphertext` with `aes_gcm::Aes256Gcm::decrypt_in_place_detached`.
///
/// Claimed of the crate: the result is `aes256gcm_open` of the inputs, decrypted in place so
/// as long as the ciphertext, and a ciphertext longer than 2^36 + 16 bytes (`C_MAX`) or
/// associated data longer than 2^36 bytes is refused. The crate recomputes the tag over the
/// ciphertext and compares it before decrypting with the counter-mode keystream, which is
/// how sealing produces ciphertext and tag: so a plaintext it gives (within the sealing
/// limit) seals to exactly that ciphertext and tag, and it is the only plaintext that seals
/// to that ciphertext.
#[verifier::external_body]
fn aes256gcm_decrypt_in_place_detached(
    key: &[u8; DATA_KEY_SIZE],
    nonce: &[u8; NONCE_SIZE],
    aad: &[u8],
    ciphertext: &[u8],
    tag: &[u8; TAG_SIZE],
) -> (r: Result<Vec<u8>, aes_gcm::Error>)
    ensures
        match r {
            Ok(plaintext) => {
                &&& aes256gcm_open(key@, nonce@, aad@, ciphertext@, tag@) == Some(plaintext@)
                &&& plaintext@.len() == ciphertext@.len()
                &&& plaintext@.len() <= AES_GCM_MAX_INPUT && aad@.len() <= AES_GCM_MAX_INPUT
                    ==> aes256gcm_seal(key@, nonce@, aad@, plaintext@) == (ciphertext@, tag@)
                &&& forall|other: Seq<u8>| other.len() <= AES_GCM_MAX_INPUT && aad@.len() <= AES_GCM_MAX_INPUT
                    && (#[trigger] aes256gcm_seal(key@, nonce@, aad@, other)).0 == ciphertext@ ==> other == plaintext@
            },
            Err(_) => aes256gcm_open(key@, nonce@, aad@, ciphertext@, tag@) is None,
        },
        ciphertext@.len() > AES_GCM_MAX_CIPHERTEXT || aad@.len() > AES_GCM_MAX_INPUT ==> r is Err,
{
    let cipher = Aes256Gcm::new(key.into());
    let mut buffer = ciphertext.to_vec();
    match cipher.decrypt_in_place_detached(nonce.into(), aad, &mut buffer, tag.into()) {
        Ok(()) => Ok(buffer),
        Err(error) => Err(error),
    }
}

/// What sealing gives with this backend: AES-256-GCM within its length limits.
pub open spec fn aes_gcm_seal_spec(key: Seq<u8>, nonce: Seq<u8>, plaintext: Seq<u8>, aad: Seq<u8>) -> Option<(Seq<u8>, Seq<u8>)> {
    if plaintext.len() <= AES_GCM_MAX_INPUT && aad.len() <= AES_GCM_MAX_INPUT {
        Some(aes256gcm_seal(key, nonce, aad, plaintext))
    } else {
        None
    }
}

/// What opening gives with this backend: AES-256-GCM within its length limits.
pub open spec fn aes_gcm_open_spec(key: Seq<u8>, nonce: Seq<u8>, ciphertext: Seq<u8>, tag: Seq<u8>, aad: Seq<u8>) -> Option<Seq<u8>> {
    if ciphertext.len() <= AES_GCM_MAX_CIPHERTEXT && aad.len() <= AES_GCM_MAX_INPUT {
        aes256gcm_open(key, nonce, aad, ciphertext, tag)
    } else {
        None
    }
}

/// AES-256-GCM with 12-byte nonces and 16-byte detached tags.
#[derive(Debug, Default, Clone, Copy)]
pub struct AESGCMCrypto;

/// Errors of this backend are those of any authenticated cipher.
pub type AESGCMCryptoError = AeadBackendError;

impl AeadBackend for AESGCMCrypto {
    open spec fn seal_spec(&self, key: Seq<u8>, nonce: Seq<u8>, plaintext: Seq<u8>, aad: Seq<u8>) -> Option<(Seq<u8>, Seq<u8>)> {
        aes_gcm_seal_spec(key, nonce, plaintext, aad)
    }

    open spec fn open_spec(&self, key: Seq<u8>, nonce: Seq<u8>, ciphertext: Seq<u8>, tag: Seq<u8>, aad: Seq<u8>) -> Option<Seq<u8>> {
        aes_gcm_open_spec(key, nonce, ciphertext, tag, aad)
    }

    fn encrypt_detached(
        &self,
        key: &[u8; DATA_KEY_SIZE],
        nonce: &[u8; NONCE_SIZE],
        plaintext: &[u8],
        aad: &[u8],
    ) -> (r: Result<AeadEncrypted, AeadBackendError>)
        ensures
            r matches Ok(sealed) ==> sealed.ciphertext@.len() == plaintext@.len(),
    {
        match aes256gcm_encrypt_in_place_detached(key, nonce, aad, plaintext) {
            Ok((ciphertext, tag)) => Ok(AeadEncrypted::new(ciphertext, tag)),
            Err(_) => Err(AeadBackendError::EncryptionFailed),
        }
    }

    fn decrypt_detached(
        &self,
        key: &[u8; DATA_KEY_SIZE],
        nonce: &[u8; NONCE_SIZE],
        ciphertext: &[u8],
        tag: &[u8; TAG_SIZE],
        aad: &[u8],
    ) -> (r: Result<Vec<u8>, AeadBackendError>)
        ensures
            r matches Ok(plaintext) ==> plaintext@.len() == ciphertext@.len(),
    {
        match aes256gcm_decrypt_in_place_detached(key, nonce, aad, ciphertext, tag) {
            Ok(plaintext) => Ok(plaintext),
            Err(_) => Err(AeadBackendError::DecryptionFailed),
        }
    }
}

/// Whether `data` is `plaintext` sealed under `key`, with no associated data, by this backend,
/// carrying the given metadata; the ciphertext is as long as the plaintext.
pub open spec fn sealed_log(data: EncryptedLogDataView, encrypted_log_id: u64, user_id: u64, key_id: Seq<char>, key: Seq<u8>, plaintext: Seq<u8>) -> bool {
    &&& data.encrypted_log_id == encrypted_log_id
    &&& data.ciphertext.len() == plaintext.len()
    &&& data.user_id == user_id
    &&& data.key_id == key_id
    &&& aes_gcm_seal_spec(key, data.iv, plaintext, Seq::empty()) == Some((data.ciphertext, data.tag))
    &&& aes_gcm_open_spec(key, data.iv, data.ciphertext, data.tag, Seq::empty()) == Some(plaintext)
}

impl AESGCMCrypto {
    /// Seals `plaintext` under `key` with a fresh random nonce and no metadata (ids 0, empty
    /// key id), stamped with the current time.
    pub fn encrypt(plaintext: &[u8], key: &[u8; 32]) -> (r: Result<EncryptedLogData, AESGCMCryptoError>)
        ensures
            match r {
                Ok(data) => sealed_log(data@, 0, 0, Seq::empty(), key@, plaintext@),
                Err(e) => e == AeadBackendError::EncryptionFailed,
            },
            plaintext@.len() > AES_GCM_MAX_INPUT ==> r is Err,
    {
        proof {
            reveal_strlit("");
            assert(""@ =~= Seq::<char>::empty());
        }
        Self::encrypt_with_metadata(0, 0, "", plaintext, key)
    }

    /// Seals `plaintext` under `key` with a fresh random nonce, stamped with the current time.
    /// Fails when the random source fails or the cipher refuses the plaintext.
    pub fn encrypt_with_metadata(
        encrypted_log_id: u64,
        user_id: u64,
        key_id: &str,
        plaintext: &[u8],
        key: &[u8; 32],
    ) -> (r: Result<EncryptedLogData, AESGCMCryptoError>)
        ensures
            match r {
                Ok(data) => sealed_log(data@, encrypted_log_id, user_id, key_id@, key@, plaintext@),
                Err(e) => e == AeadBackendError::EncryptionFailed,
            },
            plaintext@.len() > AES_GCM_MAX_INPUT ==> r is Err,
    {
        let mut iv = [0u8; 12];
        match OsSecureRandom.fill_bytes(&mut iv) {
            Ok(()) => {},
            Err(_) => return Err(AeadBackendError::EncryptionFailed),
        }
        let aad: [u8; 0] = [];
        let encrypted = AESGCMCrypto.encrypt_detached(key, &iv, plaintext, &aad)?;
        proof { assert(aad@ =~= Seq::<u8>::empty()); }
        Ok(EncryptedLogData::new(
            encrypted_log_id,
            user_id,
            encrypted.ciphertext,
            iv,
            encrypted.tag,
            key_id,
            current_time(),
        ))
    }

    /// Opens a sealed payload under `key`.
    pub fn decrypt(encrypted: EncryptedLogData, key: &[u8; 32]) -> (r: Result<Vec<u8>, AESGCMCryptoError>)
        ensures
            match r {
                Ok(plaintext) => aes_gcm_open_spec(key@, encrypted@.iv, encrypted@.ciphertext, encrypted@.tag, Seq::empty()) == Some(plaintext@)
                    && plaintext@.len() == encrypted@.ciphertext.len()
                    && authenticates(&AESGCMCrypto, key@, encrypted@.iv, encrypted@.ciphertext, encrypted@.tag, Seq::empty(), plaintext@),
                Err(e) => e == AeadBackendError::DecryptionFailed
                    && aes_gcm_open_spec(key@, encrypted@.iv, encrypted@.ciphertext, encrypted@.tag, Seq::empty()) is None,
            },
    {
        Self::decrypt_ref(&encrypted, key)
    }

    /// Opens a sealed payload under `key`.
    pub fn decrypt_ref(encrypted: &EncryptedLogData, key: &[u8; 32]) -> (r: Result<Vec<u8>, AESGCMCryptoError>)
        ensures
            match r {
                Ok(plaintext) => aes_gcm_open_spec(key@, encrypted@.iv, encrypted@.ciphertext, encrypted@.tag, Seq::empty()) == Some(plaintext@)
                    && plaintext@.len() == encrypted@.ciphertext.len()
                    && authenticates(&AESGCMCrypto, key@, encrypted@.iv, encrypted@.ciphertext, encrypted@.tag, Seq::empty(), plaintext@),
                Err(e) => e == AeadBackendError::DecryptionFailed
                    && aes_gcm_open_spec(key@, encrypted@.iv, encrypted@.ciphertext, encrypted@.tag, Seq::empty()) is None,
            },
    {
        let aad: [u8; 0] = [];
        proof { assert(aad@ =~= Seq::<u8>::empty()); }
        AESGCMCrypto.decrypt_detached(key, &encrypted.iv, &encrypted.ciphertext, &encrypted.tag, &aad)
    }
}

/// Opening what this backend sealed, under the same key and nonce, gives the plaintext back.
pub proof fn lemma_decrypt_after_encrypt(data: EncryptedLogDataView, encrypted_log_id: u64, user_id: u64, key_id: Seq<char>, key: Seq<u8>, plaintext: Seq<u8>)
    requires
        sealed_log(data, encrypted_log_id, user_id, key_id, key, plaintext),
    ensures
        aes_gcm_open_spec(key, data.iv, data.ciphertext, data.tag, Seq::empty()) == Some(plaintext),
{
}

/// A sealed payload whose tag was altered opens to nothing: no plaintext is authenticated by
/// its ciphertext under the altered tag, so `decrypt` and `decrypt_ref` refuse it with
/// `DecryptionFailed`.
pub proof fn lemma_tampered_tag_fails(data: EncryptedLogDataView, encrypted_log_id: u64, user_id: u64, key_id: Seq<char>, key: Seq<u8>, plaintext: Seq<u8>, tag: Seq<u8>)
    requires
        sealed_log(data, encrypted_log_id, user_id, key_id, key, plaintext),
        tag != data.tag,
    ensures
        forall|opened: Seq<u8>| !authenticates(&AESGCMCrypto, key, data.iv, data.ciphertext, tag, Seq::empty(), opened),
{
    assert forall|opened: Seq<u8>| !authenticates(&AESGCMCrypto, key, data.iv, data.ciphertext, tag, Seq::empty(), opened) by {
        lemma_tampered_tag_refused(AESGCMCrypto, key, data.iv, plaintext, Seq::empty(), data.ciphertext, data.tag, tag, opened);
    }
}

} // verus!

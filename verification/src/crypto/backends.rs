//! The interfaces of the cryptographic backends and the values they exchange.
use vstd::prelude::*;

use crate::text::push_decimal;

verus! {

/// Length in bytes of an AES-256-GCM data key.
pub const DATA_KEY_SIZE: usize = 32;
/// Length in bytes of an AES-GCM nonce.
pub const NONCE_SIZE: usize = 12;
/// Length in bytes of an AES-GCM authentication tag.
pub const TAG_SIZE: usize = 16;

/// A failure of the authenticated symmetric cipher.
#[derive(Debug, Clone, Copy, PartialEq, Eq, Structural)]
pub enum AeadBackendError {
    /// Sealing was refused.
    EncryptionFailed,
    /// Opening was refused, which includes an authentication tag that does not match.
    DecryptionFailed,
}

impl AeadBackendError {
    /// The error as a sentence, as the error is displayed.
    pub fn message(&self) -> (s: String)
        ensures
            s@ == aead_error_message(*self),
    {
        match self {
            AeadBackendError::EncryptionFailed => String::from_str("AEAD encryption failed"),
            AeadBackendError::DecryptionFailed => String::from_str(
                "AEAD decryption failed or authentication tag is invalid",
            ),
        }
    }
}

/// The text of an AEAD error.
pub open spec fn aead_error_message(e: AeadBackendError) -> Seq<char> {
    match e {
        AeadBackendError::EncryptionFailed => "AEAD encryption failed"@,
        AeadBackendError::DecryptionFailed => "AEAD decryption failed or authentication tag is invalid"@,
    }
}

/// A failure of the key encapsulation mechanism.
#[derive(Debug, Clone, PartialEq, Eq)]
pub enum KemBackendError {
    /// The operation itself failed; the text says why.
    OperationFailed(String),
    InvalidPublicKeyLength { expected: usize, actual: usize },
    InvalidPrivateKeyLength { expected: usize, actual: usize },
    InvalidCiphertextLength { expected: usize, actual: usize },
}

/// `"<what> length: expected <expected> bytes, got <actual>"`.
pub open spec fn length_message(what: Seq<char>, expected: usize, actual: usize) -> Seq<char> {
    what + " length: expected "@ + crate::text::decimal(expected as nat) + " bytes, got "@
        + crate::text::decimal(actual as nat)
}

fn push_length_message(s: &mut String, expected: usize, actual: usize)
    ensures
        final(s)@ == old(s)@ + " length: expected "@ + crate::text::decimal(expected as nat)
            + " bytes, got "@ + crate::text::decimal(actual as nat),
{
    s.append(" length: expected ");
    push_decimal(s, expected as u64);
    s.append(" bytes, got ");
    push_decimal(s, actual as u64);
}

/// The text of a KEM error.
pub open spec fn kem_error_message(e: KemBackendError) -> Seq<char> {
    match e {
        KemBackendError::OperationFailed(message) => "KEM operation failed: "@ + message@,
        KemBackendError::InvalidPublicKeyLength { expected, actual } =>
            length_message("invalid KEM public key"@, expected, actual),
        KemBackendError::InvalidPrivateKeyLength { expected, actual } =>
            length_message("invalid KEM private key"@, expected, actual),
        KemBackendError::InvalidCiphertextLength { expected, actual } =>
            length_message("invalid KEM ciphertext"@, expected, actual),
    }
}

impl KemBackendError {
    /// The error as a sentence, as the error is displayed.
    pub fn message(&self) -> (s: String)
        ensures
            s@ == kem_error_message(*self),
    {
        let mut s = String::new();
        match self {
            KemBackendError::OperationFailed(message) => {
                s.append("KEM operation failed: ");
                s.append(message.as_str());
            },
            KemBackendError::InvalidPublicKeyLength { expected, actual } => {
                s.append("invalid KEM public key");
                push_length_message(&mut s, *expected, *actual);
            },
            KemBackendError::InvalidPrivateKeyLength { expected, actual } => {
                s.append("invalid KEM private key");
                push_length_message(&mut s, *expected, *actual);
            },
            KemBackendError::InvalidCiphertextLength { expected, actual } => {
                s.append("invalid KEM ciphertext");
                push_length_message(&mut s, *expected, *actual);
            },
        }
        s
    }
}

/// The secure random source could not fill a buffer.
#[derive(Debug, Clone, PartialEq, Eq)]
pub enum SecureRandomError {
    /// Filling failed; the text says why.
    FillFailed(String),
}

/// The text of a random source error.
pub open spec fn random_error_message(e: SecureRandomError) -> Seq<char> {
    match e {
        SecureRandomError::FillFailed(message) => "failed to generate secure random bytes: "@ + message@,
    }
}

impl SecureRandomError {
    /// The error as a sentence, as the error is displayed.
    pub fn message(&self) -> (s: String)
        ensures
            s@ == random_error_message(*self),
    {
        let mut s = String::new();
        match self {
            SecureRandomError::FillFailed(message) => {
                s.append("failed to generate secure random bytes: ");
                s.append(message.as_str());
            },
        }
        s
    }
}

/// What sealing a plaintext gives: the ciphertext and its detached tag.
#[derive(Debug, Clone, PartialEq, Eq)]
pub struct AeadEncrypted {
    pub ciphertext: Vec<u8>,
    pub tag: [u8; TAG_SIZE],
}

impl AeadEncrypted {
    pub fn new(ciphertext: Vec<u8>, tag: [u8; TAG_SIZE]) -> (r: Self)
        ensures
            r.ciphertext == ciphertext,
            r.tag == tag,
    {
        AeadEncrypted { ciphertext, tag }
    }
}

/// What a KEM encapsulation gives: the ciphertext for the recipient and the shared secret.
#[derive(Debug, Clone, PartialEq, Eq)]
pub struct KemEncapsulation {
    pub ciphertext: Vec<u8>,
    pub shared_secret: Vec<u8>,
}

impl KemEncapsulation {
    pub fn new(ciphertext: Vec<u8>, shared_secret: Vec<u8>) -> (r: Self)
        ensures
            r.ciphertext == ciphertext,
            r.shared_secret == shared_secret,
    {
        KemEncapsulation { ciphertext, shared_secret }
    }
}

/// An authenticated symmetric cipher with detached tags.
///
/// `seal_spec` and `open_spec` are what the cipher computes; an implementation promises
/// that opening what it sealed, under the same key, nonce and associated data, gives the
/// plaintext back, and that opening succeeds only where the ciphertext and tag authenticate
/// the plaintext it gives.
pub trait AeadBackend: Send + Sync {
    /// The ciphertext and tag that sealing `plaintext` gives, `None` when the cipher refuses.
    spec fn seal_spec(&self, key: Seq<u8>, nonce: Seq<u8>, plaintext: Seq<u8>, aad: Seq<u8>) -> Option<(Seq<u8>, Seq<u8>)>;

    /// The plaintext that opening `ciphertext` with `tag` gives, `None` when it is refused.
    spec fn open_spec(&self, key: Seq<u8>, nonce: Seq<u8>, ciphertext: Seq<u8>, tag: Seq<u8>, aad: Seq<u8>) -> Option<Seq<u8>>;

    fn encrypt_detached(
        &self,
        key: &[u8; DATA_KEY_SIZE],
        nonce: &[u8; NONCE_SIZE],
        plaintext: &[u8],
        aad: &[u8],
    ) -> (r: Result<AeadEncrypted, AeadBackendError>)
        ensures
            match r {
                Ok(sealed) => {
                    &&& self.seal_spec(key@, nonce@, plaintext@, aad@) == Some((sealed.ciphertext@, sealed.tag@))
                    &&& self.open_spec(key@, nonce@, sealed.ciphertext@, sealed.tag@, aad@) == Some(plaintext@)
                },
                Err(e) => e == AeadBackendError::EncryptionFailed && self.seal_spec(key@, nonce@, plaintext@, aad@) is None,
            },
    ;

    fn decrypt_detached(
        &self,
        key: &[u8; DATA_KEY_SIZE],
        nonce: &[u8; NONCE_SIZE],
        ciphertext: &[u8],
        tag: &[u8; TAG_SIZE],
        aad: &[u8],
    ) -> (r: Result<Vec<u8>, AeadBackendError>)
        ensures
            match r {
                Ok(plaintext) => {
                    &&& self.open_spec(key@, nonce@, ciphertext@, tag@, aad@) == Some(plaintext@)
                    &&& self.seal_spec(key@, nonce@, plaintext@, aad@) is Some
                        ==> self.seal_spec(key@, nonce@, plaintext@, aad@) == Some((ciphertext@, tag@))
                    &&& forall|other: Seq<u8>| #[trigger] self.seal_spec(key@, nonce@, other, aad@) is Some
                        && self.seal_spec(key@, nonce@, other, aad@).unwrap().0 == ciphertext@ ==> other == plaintext@
                },
                Err(e) => e == AeadBackendError::DecryptionFailed && self.open_spec(key@, nonce@, ciphertext@, tag@, aad@) is None,
            },
    ;
}

/// Whether opening `ciphertext` with `tag` under `key`, `nonce` and associated data `aad`
/// authenticates `plaintext`: sealing `plaintext` (where the cipher seals it at all) gives
/// exactly that ciphertext and that tag, and no other plaintext seals to that ciphertext.
pub open spec fn authenticates<A: AeadBackend + ?Sized>(
    aead: &A,
    key: Seq<u8>,
    nonce: Seq<u8>,
    ciphertext: Seq<u8>,
    tag: Seq<u8>,
    aad: Seq<u8>,
    plaintext: Seq<u8>,
) -> bool {
    &&& aead.seal_spec(key, nonce, plaintext, aad) is Some
        ==> aead.seal_spec(key, nonce, plaintext, aad) == Some((ciphertext, tag))
    &&& forall|other: Seq<u8>| #[trigger] aead.seal_spec(key, nonce, other, aad) is Some
        && aead.seal_spec(key, nonce, other, aad).unwrap().0 == ciphertext ==> other == plaintext
}

/// Opening only accepts what sealing produced: once `plaintext` was sealed to a ciphertext
/// and a tag, no plaintext is authenticated by that ciphertext with any other tag, so a
/// tampered tag is refused.
pub proof fn lemma_tampered_tag_refused<A: AeadBackend>(
    aead: A,
    key: Seq<u8>,
    nonce: Seq<u8>,
    plaintext: Seq<u8>,
    aad: Seq<u8>,
    ciphertext: Seq<u8>,
    sealed_tag: Seq<u8>,
    tag: Seq<u8>,
    opened: Seq<u8>,
)
    requires
        aead.seal_spec(key, nonce, plaintext, aad) == Some((ciphertext, sealed_tag)),
        tag != sealed_tag,
    ensures
        !authenticates(&aead, key, nonce, ciphertext, tag, aad, opened),
{
    if authenticates(&aead, key, nonce, ciphertext, tag, aad, opened) {
        assert(aead.seal_spec(key, nonce, plaintext, aad) is Some);
        assert(plaintext == opened);
    }
}

/// A ciphertext is authenticated by one tag only: when two openings of the same ciphertext
/// succeed, and the cipher seals the first plaintext, the two tags are the same (and so are
/// the plaintexts).
pub proof fn lemma_one_tag_per_ciphertext<A: AeadBackend>(
    aead: A,
    key: Seq<u8>,
    nonce: Seq<u8>,
    ciphertext: Seq<u8>,
    aad: Seq<u8>,
    first_tag: Seq<u8>,
    first: Seq<u8>,
    second_tag: Seq<u8>,
    second: Seq<u8>,
)
    requires
        authenticates(&aead, key, nonce, ciphertext, first_tag, aad, first),
        authenticates(&aead, key, nonce, ciphertext, second_tag, aad, second),
        aead.seal_spec(key, nonce, first, aad) is Some,
    ensures
        first_tag == second_tag,
        first == second,
{
    assert(aead.seal_spec(key, nonce, first, aad) == Some((ciphertext, first_tag)));
    assert(first == second);
}

/// Any outcome is a candidate outcome of decapsulating `ciphertext` with `private_key`; the
/// choice among them is what an implementation leaves unknown when it does not define
/// `decapsulate_spec`.
pub closed spec fn decapsulation_candidate<K: ?Sized>(kem: &K, ciphertext: Seq<u8>, private_key: Seq<u8>, outcome: Option<Seq<u8>>) -> bool {
    true
}

/// Any error is a candidate for the error of a failed decapsulation; the choice among them
/// is what an implementation leaves unknown when it does not define `decapsulation_error`.
pub closed spec fn decapsulation_error_candidate<K: ?Sized>(kem: &K, ciphertext: Seq<u8>, private_key: Seq<u8>, error: KemBackendError) -> bool {
    true
}

/// Either answer is a candidate for whether an encapsulation belongs to a public key; the
/// choice is what an implementation leaves unknown when it does not define
/// `encapsulated_for`.
pub closed spec fn encapsulation_candidate<K: ?Sized>(kem: &K, public_key: Seq<u8>, ciphertext: Seq<u8>, shared_secret: Seq<u8>, answer: bool) -> bool {
    true
}

/// Either answer is a candidate for whether two keys are a pair the mechanism generated; the
/// choice is what an implementation leaves unknown when it does not define `generated_pair`.
pub closed spec fn key_pair_candidate<K: ?Sized>(kem: &K, public_key: Seq<u8>, private_key: Seq<u8>, answer: bool) -> bool {
    true
}

/// A key encapsulation mechanism.
///
/// Key generation and encapsulation draw fresh randomness, so nothing is promised of their
/// values beyond `generated_pair` and `encapsulated_for`: a generated pair is a public key
/// and its own private key, in that order, and an encapsulation is one made for the public
/// key it was asked for. Decapsulation is a function of the ciphertext and the private key,
/// `decapsulate_spec`, and so is the error of a failed one, `decapsulation_error`.
///
/// These spec functions name what the mechanism computes. An implementation that does
/// not define them leaves each a fixed but unknown function of its arguments: every proof
/// over a generic `KemBackend` holds whatever they are.
pub trait KemBackend: Send + Sync {
    /// The shared secret that decapsulating `ciphertext` with `private_key` gives, `None` on
    /// failure.
    closed spec fn decapsulate_spec(&self, ciphertext: Seq<u8>, private_key: Seq<u8>) -> Option<Seq<u8>> {
        choose|shared_secret: Option<Seq<u8>>| #[trigger] decapsulation_candidate(self, ciphertext, private_key, shared_secret)
    }

    /// The error of decapsulating `ciphertext` with `private_key` when that fails.
    closed spec fn decapsulation_error(&self, ciphertext: Seq<u8>, private_key: Seq<u8>) -> KemBackendError {
        choose|error: KemBackendError| #[trigger] decapsulation_error_candidate(self, ciphertext, private_key, error)
    }

    /// Whether `ciphertext` and `shared_secret` are an encapsulation made for `public_key`:
    /// the ciphertext that its holder decapsulates and the secret it shares.
    closed spec fn encapsulated_for(&self, public_key: Seq<u8>, ciphertext: Seq<u8>, shared_secret: Seq<u8>) -> bool {
        choose|answer: bool| #[trigger] encapsulation_candidate(self, public_key, ciphertext, shared_secret, answer)
    }

    /// Whether `public_key` and `private_key` are a key pair of the mechanism: the public key
    /// and the private key that belongs to it.
    closed spec fn generated_pair(&self, public_key: Seq<u8>, private_key: Seq<u8>) -> bool {
        choose|answer: bool| #[trigger] key_pair_candidate(self, public_key, private_key, answer)
    }

    fn algorithm_name(&self) -> &'static str;

    /// A fresh `(public_key, private_key)` pair.
    fn generate_keypair(&self) -> (r: Result<(Vec<u8>, Vec<u8>), KemBackendError>)
        ensures
            r matches Ok((public_key, private_key)) ==> self.generated_pair(public_key@, private_key@),
    ;

    /// A fresh ciphertext and shared secret for the holder of `public_key`.
    fn encapsulate(&self, public_key: &[u8]) -> (r: Result<KemEncapsulation, KemBackendError>)
        ensures
            r matches Ok(encapsulation) ==> self.encapsulated_for(public_key@, encapsulation.ciphertext@, encapsulation.shared_secret@),
    ;

    fn decapsulate(&self, ciphertext: &[u8], private_key: &[u8]) -> (r: Result<Vec<u8>, KemBackendError>)
        ensures
            match r {
                Ok(shared_secret) => self.decapsulate_spec(ciphertext@, private_key@) == Some(shared_secret@),
                Err(e) => self.decapsulate_spec(ciphertext@, private_key@) is None
                    && e == self.decapsulation_error(ciphertext@, private_key@),
            },
    ;
}

/// Whether `private_key` opens every encapsulation `kem` makes for `public_key`: decapsulating
/// such a ciphertext with it gives that encapsulation's shared secret. This is what makes the
/// two keys a pair of the mechanism.
pub open spec fn opens_encapsulations_for<K: KemBackend>(kem: K, public_key: Seq<u8>, private_key: Seq<u8>) -> bool {
    forall|ciphertext: Seq<u8>, shared_secret: Seq<u8>| #[trigger] kem.encapsulated_for(public_key, ciphertext, shared_secret)
        ==> kem.decapsulate_spec(ciphertext, private_key) == Some(shared_secret)
}

/// Whether every key pair `kem` generates opens the encapsulations made for its public key:
/// the correctness of the mechanism, which a real KEM has only with overwhelming probability.
pub open spec fn generated_pairs_open_encapsulations<K: KemBackend>(kem: K) -> bool {
    forall|public_key: Seq<u8>, private_key: Seq<u8>| #[trigger] kem.generated_pair(public_key, private_key)
        ==> opens_encapsulations_for(kem, public_key, private_key)
}

/// Whether `private_key` opens the encapsulations made for `public_key`, either directly or
/// because the two were generated as a pair by a KEM whose generated pairs do.
pub open spec fn private_key_opens<K: KemBackend>(kem: K, public_key: Seq<u8>, private_key: Seq<u8>) -> bool {
    ||| opens_encapsulations_for(kem, public_key, private_key)
    ||| (generated_pairs_open_encapsulations(kem) && kem.generated_pair(public_key, private_key))
}

/// A private key that opens a public key's encapsulations in either way opens them.
pub proof fn lemma_private_key_opens<K: KemBackend>(kem: K, public_key: Seq<u8>, private_key: Seq<u8>)
    requires
        private_key_opens(kem, public_key, private_key),
    ensures
        opens_encapsulations_for(kem, public_key, private_key),
{
    if !opens_encapsulations_for(kem, public_key, private_key) {
        assert(kem.generated_pair(public_key, private_key));
    }
}

/// A source of cryptographically secure random bytes.
pub trait SecureRandom: Send + Sync {
    /// Overwrites `out` with random bytes; its length does not change.
    fn fill_bytes(&self, out: &mut [u8]) -> (r: Result<(), SecureRandomError>)
        ensures
            final(out)@.len() == old(out)@.len(),
    ;
}

} // verus!

//! Encryption that takes the data key of the moment from a provider.
use vstd::prelude::*;

use crate::app_support::data_key_provider::DataKeyProvider;
use crate::app_support::data_key_service::{
    data_key_service_error_message, lemma_same_day_reuses_key, DataKeyService, DataKeyServiceError,
};
use crate::app_support::repository::DataKeyRepository;
use crate::crypto::backends::{AeadBackend, KemBackend, SecureRandom};
use crate::domain::crypto_package::CryptoPackage;
use crate::domain::data_key::DataKey;
use crate::domain::timestamp::current_time;
use crate::domain::Timestamp;
use crate::service::encryption_service::{
    encryption_error_message, encryption_failure, seals_request, EncryptionRequest, EncryptionRequestView, EncryptionService,
    EncryptionServiceError,
};

verus! {

/// Why a request could not be sealed: no data key, or sealing failed.
#[derive(Debug)]
pub enum ProviderBackedEncryptionServiceError {
    DataKey(DataKeyServiceError),
    Encryption(EncryptionServiceError),
}

/// The text of the error: that of the failure inside it.
pub open spec fn provider_backed_error_message(e: ProviderBackedEncryptionServiceError) -> Seq<char> {
    match e {
        ProviderBackedEncryptionServiceError::DataKey(inner) => data_key_service_error_message(inner),
        ProviderBackedEncryptionServiceError::Encryption(inner) => encryption_error_message(inner),
    }
}

impl ProviderBackedEncryptionServiceError {
    /// The error as a sentence, as the error is displayed.
    pub fn message(&self) -> (s: String)
        ensures
            s@ == provider_backed_error_message(*self),
    {
        match self {
            ProviderBackedEncryptionServiceError::DataKey(inner) => inner.message(),
            ProviderBackedEncryptionServiceError::Encryption(inner) => inner.message(),
        }
    }
}

/// Seals requests with the data key that a provider gives for the moment of sealing.
pub struct ProviderBackedEncryptionService<A, R, K, P> {
    core_encryption_service: EncryptionService<A, R, K>,
    data_key_provider: P,
}

/// What sealing `request` for `timestamp` gives, when the provider answered `key_answer`:
/// the provider's failure, or the request sealed under the provider's key and stamped
/// `timestamp`, or the failure of that sealing.
pub open spec fn provider_sealing_outcome<A: AeadBackend, K: KemBackend>(
    aead: A,
    kem: K,
    request: EncryptionRequestView,
    timestamp: Timestamp,
    key_answer: Result<DataKey, DataKeyServiceError>,
    r: Result<CryptoPackage, ProviderBackedEncryptionServiceError>,
) -> bool {
    match key_answer {
        Err(e) => r matches Err(ProviderBackedEncryptionServiceError::DataKey(inner)) && inner == e,
        Ok(key) => match r {
            Ok(package) => seals_request(aead, kem, package@, request, key@, timestamp),
            Err(ProviderBackedEncryptionServiceError::Encryption(e)) => encryption_failure(aead, request, key@, e),
            Err(ProviderBackedEncryptionServiceError::DataKey(_)) => false,
        },
    }
}

impl<A: AeadBackend, R: SecureRandom, K: KemBackend, P: DataKeyProvider> ProviderBackedEncryptionService<A, R, K, P> {
    /// The cipher that seals the payloads.
    pub closed spec fn aead(&self) -> A {
        self.core_encryption_service.aead()
    }

    /// The KEM that wraps the data keys.
    pub closed spec fn kem(&self) -> K {
        self.core_encryption_service.kem()
    }

    /// The provider of data keys.
    pub closed spec fn provider(&self) -> P {
        self.data_key_provider
    }

    pub fn new(core_encryption_service: EncryptionService<A, R, K>, data_key_provider: P) -> (s: Self)
        ensures
            s.aead() == core_encryption_service.aead(),
            s.kem() == core_encryption_service.kem(),
            s.provider() == data_key_provider,
    {
        Self::with_provider(core_encryption_service, data_key_provider)
    }

    pub fn with_provider(core_encryption_service: EncryptionService<A, R, K>, data_key_provider: P) -> (s: Self)
        ensures
            s.aead() == core_encryption_service.aead(),
            s.kem() == core_encryption_service.kem(),
            s.provider() == data_key_provider,
    {
        ProviderBackedEncryptionService { core_encryption_service, data_key_provider }
    }

    /// Seals the request, stamped with the moment the clock is read, with the data key the
    /// provider gives for that moment.
    pub fn encrypt_log(&mut self, request: EncryptionRequest) -> (r: Result<CryptoPackage, ProviderBackedEncryptionServiceError>)
        ensures
            final(self).aead() == old(self).aead(),
            final(self).kem() == old(self).kem(),
            exists|now: Timestamp, key_answer: Result<DataKey, DataKeyServiceError>|
                #[trigger] old(self).provider().answers(now, key_answer, final(self).provider())
                && provider_sealing_outcome(old(self).aead(), old(self).kem(), request@, now, key_answer, r),
    {
        self.encrypt_log_at(request, current_time())
    }

    /// Seals the request, stamped `timestamp`, with the data key the provider gives for
    /// `timestamp`; when the provider fails, nothing is sealed.
    pub fn encrypt_log_at(&mut self, request: EncryptionRequest, timestamp: Timestamp) -> (r: Result<CryptoPackage, ProviderBackedEncryptionServiceError>)
        ensures
            final(self).aead() == old(self).aead(),
            final(self).kem() == old(self).kem(),
            exists|key_answer: Result<DataKey, DataKeyServiceError>|
                #[trigger] old(self).provider().answers(timestamp, key_answer, final(self).provider())
                && provider_sealing_outcome(old(self).aead(), old(self).kem(), request@, timestamp, key_answer, r),
    {
        let ghost request_view = request@;
        let key_answer = self.data_key_provider.get_or_create_key_for(timestamp);
        let ghost answer = key_answer;
        assert(old(self).provider().answers(timestamp, answer, self.provider()));
        let data_key = match key_answer {
            Ok(key) => key,
            Err(e) => {
                let r = Err(ProviderBackedEncryptionServiceError::DataKey(e));
                assert(provider_sealing_outcome(old(self).aead(), old(self).kem(), request_view, timestamp, answer, r));
                return r;
            },
        };
        match self.core_encryption_service.encrypt_log_with_data_key_at(request, &data_key, timestamp) {
            Ok(package) => {
                let r = Ok(package);
                assert(provider_sealing_outcome(old(self).aead(), old(self).kem(), request_view, timestamp, answer, r));
                r
            },
            Err(e) => {
                let r = Err(ProviderBackedEncryptionServiceError::Encryption(e));
                assert(provider_sealing_outcome(old(self).aead(), old(self).kem(), request_view, timestamp, answer, r));
                r
            },
        }
    }
}

/// Two requests sealed on the same day with the data keys of a data key service share that
/// day's key: their payloads and all their envelopes name the same key id.
pub proof fn lemma_same_day_packages_share_key<A: AeadBackend, K: KemBackend, RR: DataKeyRepository, SS: SecureRandom>(
    aead: A,
    kem: K,
    before: DataKeyService<RR, SS>,
    first_time: Timestamp,
    first_key: Result<DataKey, DataKeyServiceError>,
    first_request: EncryptionRequestView,
    first_package: CryptoPackage,
    between: DataKeyService<RR, SS>,
    second_time: Timestamp,
    second_key: Result<DataKey, DataKeyServiceError>,
    second_request: EncryptionRequestView,
    second_package: CryptoPackage,
    after: DataKeyService<RR, SS>,
)
    requires
        before.answers(first_time, first_key, between),
        provider_sealing_outcome(aead, kem, first_request, first_time, first_key, Ok(first_package)),
        between.answers(second_time, second_key, after),
        provider_sealing_outcome(aead, kem, second_request, second_time, second_key, Ok(second_package)),
        first_time.seconds() / 86400 == second_time.seconds() / 86400,
    ensures
        first_package@.encrypted_data.key_id == second_package@.encrypted_data.key_id,
        first_package@.user_envelope.key_id == second_package@.user_envelope.key_id,
        first_package@.guardian_envelope.key_id == second_package@.guardian_envelope.key_id,
{
    let first = first_key.unwrap();
    let second = second_key.unwrap();
    lemma_same_day_reuses_key(before, first_time, first, between, second_time, second, after);
}

} // verus!

//! What each call of the C interface decides: the checks on its arguments, in the order it
//! makes them, the status and message of each refusal, and what it hands back on success.
//!
//! Pointers reach these functions as plain values: a handle as `Option` (`None` for null),
//! a request as `Option` (`None` for null), an output buffer by whether it is null. JSON
//! arguments arrive already parsed (`None` when the bytes are not the expected JSON);
//! packages and envelopes leave as library values, which the caller writes in their wire
//! form (`crate::ffi::wire`).
use vstd::prelude::*;

use vstd::utf8::valid_utf8;

use crate::adapters::kem_envelope::recovered_data_key;
use crate::core_facade::{guardian_caller, user_caller, CoreFacade};
use crate::crypto::backends::{lemma_private_key_opens, private_key_opens, AeadBackend, KemBackend, KemBackendError, SecureRandom};
use crate::domain::crypto_package::{CryptoPackage, CryptoPackageView};
use crate::domain::data_key::{DataKey, DataKeyView};
use crate::domain::key_envelope::{KeyEnvelope, KeyEnvelopeView, OwnerType};
use crate::domain::Timestamp;
use crate::ffi::error::{FfiErrorCode, FfiErrorInfo};
use crate::ffi::handle::{default_facade_failure_message, FfiFacadeHandle};
use crate::ffi::types::{
    borrowed_bytes_as_slice, borrowed_bytes_view, data_key_from_ffi, data_key_input_period_fits,
    data_key_view_of_input, encryption_request_from_ffi, FfiBorrowedBytes,
    FfiCreateAdditionalRecipientEnvelopeRequest, FfiCreateKeyEnvelopeRequest, FfiDataKeyInput,
    FfiDecryptPackageRequest, FfiEncryptPackageRequest, FfiOpenKeyEnvelopeRequest, FfiOwnerType,
};
use crate::ffi::wire::{
    crypto_package_from_wire, crypto_package_view_of_wire, crypto_package_wire_converts,
    is_owner_type_text, key_envelope_from_wire, key_envelope_view_of_wire,
    lemma_envelope_wire_round_trip, lemma_package_wire_round_trip, wire_envelope_of, wire_package_of,
    CryptoPackageWire, KeyEnvelopeWire, MlKemKeypairWire,
};
use crate::service::decryption_service::{decryption_outcome, opened_payload_authentic, DecryptionCaller};
use crate::service::encryption_service::{seals_request, EncryptionRequestView};
use crate::service::key_management_service::carries_data_key;

verus! {

/// Whether `r` is the refusal `code` with the message `message`.
pub open spec fn fails_with<T>(r: Result<T, FfiErrorInfo>, code: FfiErrorCode, message: Seq<char>) -> bool {
    r matches Err(info) && info.code == code && info.message@ == message
}

/// The message of a call that panicked.
pub open spec fn panic_message() -> Seq<char> {
    "panic in ffi boundary"@
}

fn refuse<T>(code: FfiErrorCode, message: &str) -> (r: Result<T, FfiErrorInfo>)
    ensures
        fails_with(r, code, message@),
{
    Err(FfiErrorInfo::new(code, String::from_str(message)))
}

/// The library's owner type of an interface owner type.
pub open spec fn owner_type_of(t: FfiOwnerType) -> OwnerType {
    match t {
        FfiOwnerType::User => OwnerType::User,
        FfiOwnerType::Guardian => OwnerType::Guardian,
    }
}

fn owner_type_from_ffi(t: FfiOwnerType) -> (o: OwnerType)
    ensures
        o == owner_type_of(t),
{
    match t.to_owner_type() {
        Ok(o) => o,
        Err(_) => OwnerType::User,
    }
}

/// Whether an envelope belongs to the given owner.
pub fn envelope_matches_owner(envelope: &KeyEnvelope, owner_id: u64, owner_type: OwnerType) -> (b: bool)
    ensures
        b == (envelope@.owner_id == owner_id && envelope@.owner_type == owner_type),
{
    envelope.owner_id == owner_id && envelope.owner_type == owner_type
}

/// Generates a KEM key pair, handed back with the algorithm's name.
pub fn handle_generate_mlkem_keypair<A: AeadBackend, K: KemBackend, R: SecureRandom>(
    handle: Option<&FfiFacadeHandle<A, K, R>>,
    out_buffer_is_null: bool,
) -> (r: Result<MlKemKeypairWire, FfiErrorInfo>)
    ensures
        if out_buffer_is_null {
            fails_with(r, FfiErrorCode::NullPointer, "null output buffer"@)
        } else if handle is None {
            fails_with(r, FfiErrorCode::InvalidHandle, "invalid handle"@)
        } else {
            match r {
                Ok(pair) => pair.algorithm@ == "ML-KEM-1024"@
                    && handle.unwrap().facade().key_management().kem().generated_pair(pair.public_key@, pair.private_key@),
                Err(_) => fails_with(r, FfiErrorCode::CryptoError, "crypto operation failed while generating ML-KEM keypair"@),
            }
        },
{
    if out_buffer_is_null {
        return refuse(FfiErrorCode::NullPointer, "null output buffer");
    }
    let handle = match handle {
        Some(handle) => handle,
        None => return refuse(FfiErrorCode::InvalidHandle, "invalid handle"),
    };
    match handle.core_facade().generate_mlkem_keypair() {
        Ok((public_key, private_key)) => Ok(MlKemKeypairWire {
            algorithm: String::from_str("ML-KEM-1024"),
            public_key,
            private_key,
        }),
        Err(_) => refuse(FfiErrorCode::CryptoError, "crypto operation failed while generating ML-KEM keypair"),
    }
}

/// Generates a data key with the given id and validity period and hands back its 32 bytes.
pub fn handle_generate_data_key<A: AeadBackend, K: KemBackend, R: SecureRandom>(
    handle: Option<&FfiFacadeHandle<A, K, R>>,
    key_id: FfiBorrowedBytes,
    created_at_unix_seconds: u64,
    expires_at_unix_seconds: u64,
    out_buffer_is_null: bool,
) -> (r: Result<Vec<u8>, FfiErrorInfo>)
    ensures
        if out_buffer_is_null {
            fails_with(r, FfiErrorCode::NullPointer, "null output buffer"@)
        } else if handle is None {
            fails_with(r, FfiErrorCode::InvalidHandle, "invalid handle"@)
        } else if borrowed_bytes_view(key_id) is None {
            fails_with(r, FfiErrorCode::NullPointer, "null data key id pointer"@)
        } else if !valid_utf8(borrowed_bytes_view(key_id).unwrap()) {
            fails_with(r, FfiErrorCode::InvalidUtf8, "invalid UTF-8 in data key id"@)
        } else if created_at_unix_seconds > crate::domain::timestamp::MAX_CLOCK_SECONDS
            || expires_at_unix_seconds > crate::domain::timestamp::MAX_CLOCK_SECONDS {
            fails_with(r, FfiErrorCode::Panic, panic_message())
        } else {
            match r {
                Ok(key_value) => key_value@.len() == 32,
                Err(_) => fails_with(r, FfiErrorCode::CryptoError, "crypto operation failed while generating data key"@),
            }
        },
{
    if out_buffer_is_null {
        return refuse(FfiErrorCode::NullPointer, "null output buffer");
    }
    let handle = match handle {
        Some(handle) => handle,
        None => return refuse(FfiErrorCode::InvalidHandle, "invalid handle"),
    };
    let key_id_string = match crate::ffi::types::borrowed_bytes_as_string(key_id) {
        Ok(value) => value,
        Err(FfiErrorCode::NullPointer) => return refuse(FfiErrorCode::NullPointer, "null data key id pointer"),
        Err(FfiErrorCode::InvalidUtf8) => return refuse(FfiErrorCode::InvalidUtf8, "invalid UTF-8 in data key id"),
        Err(code) => return refuse(code, "invalid data key id"),
    };
    if created_at_unix_seconds > crate::domain::timestamp::MAX_CLOCK_SECONDS
        || expires_at_unix_seconds > crate::domain::timestamp::MAX_CLOCK_SECONDS {
        return refuse(FfiErrorCode::Panic, "panic in ffi boundary");
    }
    let created_at = crate::ffi::types::FfiTimestamp { unix_seconds: created_at_unix_seconds };
    let expires_at = crate::ffi::types::FfiTimestamp { unix_seconds: expires_at_unix_seconds };
    match handle.core_facade().generate_data_key(key_id_string.as_str(), created_at.to_system_time(), expires_at.to_system_time()) {
        Ok(data_key) => Ok(vstd::slice::slice_to_vec(data_key.key_value.as_slice())),
        Err(_) => refuse(FfiErrorCode::CryptoError, "crypto operation failed while generating data key"),
    }
}


/// The encryption request a well-formed interface request describes.
pub open spec fn encryption_request_view_of(request: FfiEncryptPackageRequest) -> EncryptionRequestView {
    EncryptionRequestView {
        log_data: borrowed_bytes_view(request.plaintext).unwrap(),
        user_id: request.user_id,
        user_public_key: borrowed_bytes_view(request.user_public_key).unwrap(),
        guardian_id: request.guardian_id,
        guardian_public_key: borrowed_bytes_view(request.guardian_public_key).unwrap(),
    }
}

/// Whether the data key input is refused, and if so with which status and message; the
/// messages name the data key input.
pub open spec fn data_key_input_refusal(input: FfiDataKeyInput) -> Option<(FfiErrorCode, Seq<char>)> {
    if borrowed_bytes_view(input.key_id) is None {
        Some((FfiErrorCode::NullPointer, "null pointer in data key input"@))
    } else if !valid_utf8(borrowed_bytes_view(input.key_id).unwrap()) {
        Some((FfiErrorCode::InvalidUtf8, "invalid UTF-8 in data key input"@))
    } else if !data_key_input_period_fits(input) {
        Some((FfiErrorCode::Panic, panic_message()))
    } else {
        None
    }
}

fn data_key_from_input(input: FfiDataKeyInput) -> (r: Result<crate::domain::data_key::DataKey, FfiErrorInfo>)
    ensures
        match data_key_input_refusal(input) {
            Some((code, message)) => fails_with(r, code, message),
            None => r matches Ok(key) && key@ == data_key_view_of_input(input),
        },
{
    match data_key_from_ffi(input) {
        Ok(value) => Ok(value),
        Err(FfiErrorCode::NullPointer) => refuse(FfiErrorCode::NullPointer, "null pointer in data key input"),
        Err(FfiErrorCode::InvalidUtf8) => refuse(FfiErrorCode::InvalidUtf8, "invalid UTF-8 in data key input"),
        Err(FfiErrorCode::Panic) => refuse(FfiErrorCode::Panic, "panic in ffi boundary"),
        Err(code) => refuse(code, "invalid data key input"),
    }
}

/// Seals a payload for a user and a guardian under the given data key, stamped with the
/// current time, and hands back the package.
pub fn handle_encrypt_package<A: AeadBackend, K: KemBackend, R: SecureRandom>(
    handle: Option<&FfiFacadeHandle<A, K, R>>,
    request: Option<FfiEncryptPackageRequest>,
    out_buffer_is_null: bool,
) -> (r: Result<CryptoPackage, FfiErrorInfo>)
    ensures
        match request {
            None => fails_with(r, FfiErrorCode::NullPointer, "null encrypt request pointer"@),
            Some(req) => if out_buffer_is_null {
                fails_with(r, FfiErrorCode::NullPointer, "null output buffer"@)
            } else if handle is None {
                fails_with(r, FfiErrorCode::InvalidHandle, "invalid handle"@)
            } else if borrowed_bytes_view(req.plaintext) is None || borrowed_bytes_view(req.user_public_key) is None
                || borrowed_bytes_view(req.guardian_public_key) is None {
                fails_with(r, FfiErrorCode::NullPointer, "null pointer in encrypt request bytes"@)
            } else if data_key_input_refusal(req.data_key) is Some {
                fails_with(r, data_key_input_refusal(req.data_key).unwrap().0, data_key_input_refusal(req.data_key).unwrap().1)
            } else {
                match r {
                    Ok(package) => seals_request(handle.unwrap().facade().encryption().aead(),
                        handle.unwrap().facade().encryption().kem(), package@,
                        encryption_request_view_of(req), data_key_view_of_input(req.data_key), package@.encrypted_data.created_at),
                    Err(_) => fails_with(r, FfiErrorCode::CryptoError, "crypto operation failed while encrypting package"@),
                }
            },
        },
{
    let request = match request {
        Some(request) => request,
        None => return refuse(FfiErrorCode::NullPointer, "null encrypt request pointer"),
    };
    if out_buffer_is_null {
        return refuse(FfiErrorCode::NullPointer, "null output buffer");
    }
    let handle = match handle {
        Some(handle) => handle,
        None => return refuse(FfiErrorCode::InvalidHandle, "invalid handle"),
    };
    let encryption_request = match encryption_request_from_ffi(request) {
        Ok(value) => value,
        Err(FfiErrorCode::NullPointer) => return refuse(FfiErrorCode::NullPointer, "null pointer in encrypt request bytes"),
        Err(FfiErrorCode::InvalidUtf8) => return refuse(FfiErrorCode::InvalidUtf8, "invalid UTF-8 in encrypt request"),
        Err(code) => return refuse(code, "invalid encrypt request"),
    };
    let data_key = match data_key_from_input(request.data_key) {
        Ok(key) => key,
        Err(info) => return Err(info),
    };
    match handle.core_facade().encrypt_package(encryption_request, &data_key) {
        Ok(package) => Ok(package),
        Err(_) => refuse(FfiErrorCode::CryptoError, "crypto operation failed while encrypting package"),
    }
}

/// The caller an interface request names.
pub open spec fn caller_of(caller_id: u64, caller_type: FfiOwnerType) -> DecryptionCaller {
    DecryptionCaller { owner_id: caller_id, owner_type: owner_type_of(caller_type) }
}

/// Opens a package, given as JSON (`parsed_package` is its parse), for the caller with the
/// caller's private key, and hands back the plaintext.
pub fn handle_decrypt_package<A: AeadBackend, K: KemBackend, R: SecureRandom>(
    handle: Option<&FfiFacadeHandle<A, K, R>>,
    request: Option<FfiDecryptPackageRequest>,
    out_buffer_is_null: bool,
    parsed_package: Option<CryptoPackageWire>,
) -> (r: Result<Vec<u8>, FfiErrorInfo>)
    ensures
        match request {
            None => fails_with(r, FfiErrorCode::NullPointer, "null decrypt request pointer"@),
            Some(req) => if out_buffer_is_null {
                fails_with(r, FfiErrorCode::NullPointer, "null output buffer"@)
            } else if handle is None {
                fails_with(r, FfiErrorCode::InvalidHandle, "invalid handle"@)
            } else if borrowed_bytes_view(req.package) is None {
                fails_with(r, FfiErrorCode::NullPointer, "null package bytes pointer"@)
            } else if borrowed_bytes_view(req.package).unwrap().len() == 0 {
                fails_with(r, FfiErrorCode::InvalidLength, "empty package bytes"@)
            } else if borrowed_bytes_view(req.private_key) is None {
                fails_with(r, FfiErrorCode::NullPointer, "null private key bytes pointer"@)
            } else if borrowed_bytes_view(req.private_key).unwrap().len() == 0 {
                fails_with(r, FfiErrorCode::InvalidLength, "empty private key bytes"@)
            } else {
                match parsed_package {
                    None => fails_with(r, FfiErrorCode::InvalidArgument, "malformed CryptoPackage JSON"@),
                    Some(wire) => if wire.encrypted_data.created_at_unix_seconds > crate::domain::timestamp::MAX_CLOCK_SECONDS {
                        fails_with(r, FfiErrorCode::Panic, panic_message())
                    } else if !crypto_package_wire_converts(wire) {
                        fails_with(r, FfiErrorCode::InvalidArgument, "malformed CryptoPackage JSON"@)
                    } else {
                        match decryption_outcome(handle.unwrap().facade().decryption().aead(), handle.unwrap().facade().decryption().kem(),
                            crypto_package_view_of_wire(wire), caller_of(req.caller_id, req.caller_type), borrowed_bytes_view(req.private_key).unwrap()) {
                            Ok(plaintext) => r matches Ok(p) && p@ == plaintext && opened_payload_authentic(
                                handle.unwrap().facade().decryption().aead(), handle.unwrap().facade().decryption().kem(),
                                crypto_package_view_of_wire(wire), caller_of(req.caller_id, req.caller_type),
                                borrowed_bytes_view(req.private_key).unwrap(), p@),
                            Err(_) => fails_with(r, FfiErrorCode::CryptoError, "crypto operation failed while decrypting package"@),
                        }
                    },
                }
            },
        },
{
    let request = match request {
        Some(request) => request,
        None => return refuse(FfiErrorCode::NullPointer, "null decrypt request pointer"),
    };
    if out_buffer_is_null {
        return refuse(FfiErrorCode::NullPointer, "null output buffer");
    }
    let handle = match handle {
        Some(handle) => handle,
        None => return refuse(FfiErrorCode::InvalidHandle, "invalid handle"),
    };
    let package_bytes = match borrowed_bytes_as_slice(request.package) {
        Ok(bytes) => bytes,
        Err(_) => return refuse(FfiErrorCode::NullPointer, "null package bytes pointer"),
    };
    if package_bytes.len() == 0 {
        return refuse(FfiErrorCode::InvalidLength, "empty package bytes");
    }
    let private_key = match borrowed_bytes_as_slice(request.private_key) {
        Ok(bytes) => bytes,
        Err(_) => return refuse(FfiErrorCode::NullPointer, "null private key bytes pointer"),
    };
    if private_key.len() == 0 {
        return refuse(FfiErrorCode::InvalidLength, "empty private key bytes");
    }
    let caller_type = owner_type_from_ffi(request.caller_type);
    let wire = match parsed_package {
        Some(wire) => wire,
        None => return refuse(FfiErrorCode::InvalidArgument, "malformed CryptoPackage JSON"),
    };
    let crypto_package = match crypto_package_from_wire(wire) {
        Ok(package) => package,
        Err(FfiErrorCode::Panic) => return refuse(FfiErrorCode::Panic, "panic in ffi boundary"),
        Err(_) => return refuse(FfiErrorCode::InvalidArgument, "malformed CryptoPackage JSON"),
    };
    match handle.core_facade().decrypt_package(&crypto_package, DecryptionCaller::new(request.caller_id, caller_type), private_key) {
        Ok(plaintext) => Ok(plaintext),
        Err(_) => refuse(FfiErrorCode::CryptoError, "crypto operation failed while decrypting package"),
    }
}

/// Wraps a data key for a recipient and hands back the envelope.
pub fn handle_create_key_envelope<A: AeadBackend, K: KemBackend, R: SecureRandom>(
    handle: Option<&FfiFacadeHandle<A, K, R>>,
    request: Option<FfiCreateKeyEnvelopeRequest>,
    out_buffer_is_null: bool,
) -> (r: Result<KeyEnvelope, FfiErrorInfo>)
    ensures
        match request {
            None => fails_with(r, FfiErrorCode::NullPointer, "null create key envelope request pointer"@),
            Some(req) => if out_buffer_is_null {
                fails_with(r, FfiErrorCode::NullPointer, "null output buffer"@)
            } else if handle is None {
                fails_with(r, FfiErrorCode::InvalidHandle, "invalid handle"@)
            } else if borrowed_bytes_view(req.public_key) is None {
                fails_with(r, FfiErrorCode::NullPointer, "null public key bytes pointer"@)
            } else if borrowed_bytes_view(req.public_key).unwrap().len() == 0 {
                fails_with(r, FfiErrorCode::InvalidLength, "empty public key bytes"@)
            } else if data_key_input_refusal(req.data_key) is Some {
                fails_with(r, data_key_input_refusal(req.data_key).unwrap().0, data_key_input_refusal(req.data_key).unwrap().1)
            } else {
                match r {
                    Ok(envelope) => carries_data_key(handle.unwrap().facade().key_management().kem(), envelope@,
                        data_key_view_of_input(req.data_key), req.owner_id, owner_type_of(req.owner_type),
                        borrowed_bytes_view(req.public_key).unwrap()),
                    Err(_) => fails_with(r, FfiErrorCode::CryptoError, "crypto operation failed while creating key envelope"@),
                }
            },
        },
{
    let request = match request {
        Some(request) => request,
        None => return refuse(FfiErrorCode::NullPointer, "null create key envelope request pointer"),
    };
    if out_buffer_is_null {
        return refuse(FfiErrorCode::NullPointer, "null output buffer");
    }
    let handle = match handle {
        Some(handle) => handle,
        None => return refuse(FfiErrorCode::InvalidHandle, "invalid handle"),
    };
    let public_key = match borrowed_bytes_as_slice(request.public_key) {
        Ok(bytes) => bytes,
        Err(_) => return refuse(FfiErrorCode::NullPointer, "null public key bytes pointer"),
    };
    if public_key.len() == 0 {
        return refuse(FfiErrorCode::InvalidLength, "empty public key bytes");
    }
    let owner_type = owner_type_from_ffi(request.owner_type);
    let data_key = match data_key_from_input(request.data_key) {
        Ok(key) => key,
        Err(info) => return Err(info),
    };
    match handle.core_facade().create_key_envelope(&data_key, request.owner_id, owner_type, public_key) {
        Ok(envelope) => Ok(envelope),
        Err(_) => refuse(FfiErrorCode::CryptoError, "crypto operation failed while creating key envelope"),
    }
}

/// Whether an envelope's wire form names the given owner.
pub open spec fn wire_names_owner(wire: KeyEnvelopeWire, owner_id: u64, owner_type: FfiOwnerType) -> bool {
    wire.owner_id == owner_id && owner_type_of_wire(wire) == owner_type_of(owner_type)
}

/// The owner type an envelope's wire form names.
pub open spec fn owner_type_of_wire(wire: KeyEnvelopeWire) -> OwnerType {
    key_envelope_view_of_wire(wire).owner_type
}

/// The data key an envelope opens to with the given private key through the facade's KEM,
/// `None` when it does not open.
pub open spec fn opened_data_key<A: AeadBackend, K: KemBackend, R: SecureRandom>(
    handle: &FfiFacadeHandle<A, K, R>,
    envelope: KeyEnvelopeView,
    private_key: Seq<u8>,
) -> Option<Seq<u8>> {
    recovered_data_key(handle.facade().key_management().kem().decapsulate_spec(envelope.kem_ciphertext, private_key), envelope.encapsulated_key)
}

/// Opens an envelope, given as JSON (`parsed_envelope` is its parse), for its owner with
/// the owner's private key, and hands back the 32 bytes of the data key.
pub fn handle_open_key_envelope<A: AeadBackend, K: KemBackend, R: SecureRandom>(
    handle: Option<&FfiFacadeHandle<A, K, R>>,
    request: Option<FfiOpenKeyEnvelopeRequest>,
    out_buffer_is_null: bool,
    parsed_envelope: Option<KeyEnvelopeWire>,
) -> (r: Result<Vec<u8>, FfiErrorInfo>)
    ensures
        match request {
            None => fails_with(r, FfiErrorCode::NullPointer, "null open key envelope request pointer"@),
            Some(req) => if out_buffer_is_null {
                fails_with(r, FfiErrorCode::NullPointer, "null output buffer"@)
            } else if handle is None {
                fails_with(r, FfiErrorCode::InvalidHandle, "invalid handle"@)
            } else if borrowed_bytes_view(req.envelope) is None {
                fails_with(r, FfiErrorCode::NullPointer, "null envelope bytes pointer"@)
            } else if borrowed_bytes_view(req.envelope).unwrap().len() == 0 {
                fails_with(r, FfiErrorCode::InvalidLength, "empty envelope bytes"@)
            } else if borrowed_bytes_view(req.private_key) is None {
                fails_with(r, FfiErrorCode::NullPointer, "null private key bytes pointer"@)
            } else if borrowed_bytes_view(req.private_key).unwrap().len() == 0 {
                fails_with(r, FfiErrorCode::InvalidLength, "empty private key bytes"@)
            } else {
                match parsed_envelope {
                    None => fails_with(r, FfiErrorCode::InvalidArgument, "malformed KeyEnvelope JSON"@),
                    Some(wire) => if !is_owner_type_text(wire.owner_type@) {
                        fails_with(r, FfiErrorCode::InvalidArgument, "malformed KeyEnvelope JSON"@)
                    } else if !wire_names_owner(wire, req.caller_id, req.caller_type) {
                        fails_with(r, FfiErrorCode::InvalidArgument, "envelope owner metadata mismatch"@)
                    } else {
                        match opened_data_key(handle.unwrap(), key_envelope_view_of_wire(wire), borrowed_bytes_view(req.private_key).unwrap()) {
                            Some(key) => r matches Ok(v) && v@ == key,
                            None => fails_with(r, FfiErrorCode::CryptoError, "crypto operation failed while opening key envelope"@),
                        }
                    },
                }
            },
        },
{
    let request = match request {
        Some(request) => request,
        None => return refuse(FfiErrorCode::NullPointer, "null open key envelope request pointer"),
    };
    if out_buffer_is_null {
        return refuse(FfiErrorCode::NullPointer, "null output buffer");
    }
    let handle = match handle {
        Some(handle) => handle,
        None => return refuse(FfiErrorCode::InvalidHandle, "invalid handle"),
    };
    let envelope_bytes = match borrowed_bytes_as_slice(request.envelope) {
        Ok(bytes) => bytes,
        Err(_) => return refuse(FfiErrorCode::NullPointer, "null envelope bytes pointer"),
    };
    if envelope_bytes.len() == 0 {
        return refuse(FfiErrorCode::InvalidLength, "empty envelope bytes");
    }
    let private_key = match borrowed_bytes_as_slice(request.private_key) {
        Ok(bytes) => bytes,
        Err(_) => return refuse(FfiErrorCode::NullPointer, "null private key bytes pointer"),
    };
    if private_key.len() == 0 {
        return refuse(FfiErrorCode::InvalidLength, "empty private key bytes");
    }
    let caller_type = owner_type_from_ffi(request.caller_type);
    let wire = match parsed_envelope {
        Some(wire) => wire,
        None => return refuse(FfiErrorCode::InvalidArgument, "malformed KeyEnvelope JSON"),
    };
    let envelope = match key_envelope_from_wire(wire) {
        Ok(envelope) => envelope,
        Err(_) => return refuse(FfiErrorCode::InvalidArgument, "malformed KeyEnvelope JSON"),
    };
    if !envelope_matches_owner(&envelope, request.caller_id, caller_type) {
        return refuse(FfiErrorCode::InvalidArgument, "envelope owner metadata mismatch");
    }
    match handle.core_facade().open_key_envelope(&envelope, private_key) {
        Ok(data_key) => Ok(vstd::slice::slice_to_vec(data_key.as_slice())),
        Err(_) => refuse(FfiErrorCode::CryptoError, "crypto operation failed while opening key envelope"),
    }
}

/// The data key a current recipient passes on: the source envelope's key id and the
/// recovered key value, its validity period both ends at the epoch.
pub open spec fn passed_on_data_key(wire: KeyEnvelopeWire, key_value: Seq<u8>) -> DataKeyView {
    DataKeyView {
        key_id: wire.key_id@,
        key_value,
        created_at: Timestamp::at_unix_seconds(0),
        expires_at: Timestamp::at_unix_seconds(0),
    }
}

/// Opens an envelope, given as JSON (`parsed_source_envelope` is its parse), for its
/// current owner, wraps the data key it carries for a new recipient, and hands back the
/// new envelope.
pub fn handle_create_additional_recipient_envelope<A: AeadBackend, K: KemBackend, R: SecureRandom>(
    handle: Option<&FfiFacadeHandle<A, K, R>>,
    request: Option<FfiCreateAdditionalRecipientEnvelopeRequest>,
    out_buffer_is_null: bool,
    parsed_source_envelope: Option<KeyEnvelopeWire>,
) -> (r: Result<KeyEnvelope, FfiErrorInfo>)
    ensures
        match request {
            None => fails_with(r, FfiErrorCode::NullPointer, "null additional recipient envelope request pointer"@),
            Some(req) => if out_buffer_is_null {
                fails_with(r, FfiErrorCode::NullPointer, "null output buffer"@)
            } else if handle is None {
                fails_with(r, FfiErrorCode::InvalidHandle, "invalid handle"@)
            } else if borrowed_bytes_view(req.source_envelope) is None {
                fails_with(r, FfiErrorCode::NullPointer, "null source envelope bytes pointer"@)
            } else if borrowed_bytes_view(req.source_envelope).unwrap().len() == 0 {
                fails_with(r, FfiErrorCode::InvalidLength, "empty source envelope bytes"@)
            } else if borrowed_bytes_view(req.current_private_key) is None {
                fails_with(r, FfiErrorCode::NullPointer, "null current private key bytes pointer"@)
            } else if borrowed_bytes_view(req.current_private_key).unwrap().len() == 0 {
                fails_with(r, FfiErrorCode::InvalidLength, "empty current private key bytes"@)
            } else if borrowed_bytes_view(req.new_public_key) is None {
                fails_with(r, FfiErrorCode::NullPointer, "null new public key bytes pointer"@)
            } else if borrowed_bytes_view(req.new_public_key).unwrap().len() == 0 {
                fails_with(r, FfiErrorCode::InvalidLength, "empty new public key bytes"@)
            } else {
                match parsed_source_envelope {
                    None => fails_with(r, FfiErrorCode::InvalidArgument, "malformed KeyEnvelope JSON"@),
                    Some(wire) => if !is_owner_type_text(wire.owner_type@) {
                        fails_with(r, FfiErrorCode::InvalidArgument, "malformed KeyEnvelope JSON"@)
                    } else if !wire_names_owner(wire, req.current_owner_id, req.current_owner_type) {
                        fails_with(r, FfiErrorCode::InvalidArgument, "envelope owner metadata mismatch"@)
                    } else {
                        match opened_data_key(handle.unwrap(), key_envelope_view_of_wire(wire), borrowed_bytes_view(req.current_private_key).unwrap()) {
                            None => fails_with(r, FfiErrorCode::CryptoError, "crypto operation failed while opening source envelope"@),
                            Some(key) => match r {
                                Ok(envelope) => carries_data_key(handle.unwrap().facade().sharing().kem(), envelope@,
                                    passed_on_data_key(wire, key), req.new_owner_id, owner_type_of(req.new_owner_type),
                                    borrowed_bytes_view(req.new_public_key).unwrap()),
                                Err(_) => fails_with(r, FfiErrorCode::CryptoError, "crypto operation failed while creating additional recipient envelope"@),
                            },
                        }
                    },
                }
            },
        },
{
    let request = match request {
        Some(request) => request,
        None => return refuse(FfiErrorCode::NullPointer, "null additional recipient envelope request pointer"),
    };
    if out_buffer_is_null {
        return refuse(FfiErrorCode::NullPointer, "null output buffer");
    }
    let handle = match handle {
        Some(handle) => handle,
        None => return refuse(FfiErrorCode::InvalidHandle, "invalid handle"),
    };
    let source_envelope_bytes = match borrowed_bytes_as_slice(request.source_envelope) {
        Ok(bytes) => bytes,
        Err(_) => return refuse(FfiErrorCode::NullPointer, "null source envelope bytes pointer"),
    };
    if source_envelope_bytes.len() == 0 {
        return refuse(FfiErrorCode::InvalidLength, "empty source envelope bytes");
    }
    let current_private_key = match borrowed_bytes_as_slice(request.current_private_key) {
        Ok(bytes) => bytes,
        Err(_) => return refuse(FfiErrorCode::NullPointer, "null current private key bytes pointer"),
    };
    if current_private_key.len() == 0 {
        return refuse(FfiErrorCode::InvalidLength, "empty current private key bytes");
    }
    let new_public_key = match borrowed_bytes_as_slice(request.new_public_key) {
        Ok(bytes) => bytes,
        Err(_) => return refuse(FfiErrorCode::NullPointer, "null new public key bytes pointer"),
    };
    if new_public_key.len() == 0 {
        return refuse(FfiErrorCode::InvalidLength, "empty new public key bytes");
    }
    let current_owner_type = owner_type_from_ffi(request.current_owner_type);
    let new_owner_type = owner_type_from_ffi(request.new_owner_type);
    let wire = match parsed_source_envelope {
        Some(wire) => wire,
        None => return refuse(FfiErrorCode::InvalidArgument, "malformed KeyEnvelope JSON"),
    };
    let source_envelope = match key_envelope_from_wire(wire) {
        Ok(envelope) => envelope,
        Err(_) => return refuse(FfiErrorCode::InvalidArgument, "malformed KeyEnvelope JSON"),
    };
    if !envelope_matches_owner(&source_envelope, request.current_owner_id, current_owner_type) {
        return refuse(FfiErrorCode::InvalidArgument, "envelope owner metadata mismatch");
    }
    let data_key_value = match handle.core_facade().open_key_envelope(&source_envelope, current_private_key) {
        Ok(value) => value,
        Err(_) => return refuse(FfiErrorCode::CryptoError, "crypto operation failed while opening source envelope"),
    };
    let temporary_data_key = DataKey::new(
        source_envelope.key_id.as_str(),
        data_key_value,
        Timestamp::unix_epoch(),
        Timestamp::unix_epoch(),
    );
    match handle.core_facade().create_additional_recipient_envelope(&temporary_data_key, request.new_owner_id, new_owner_type, new_public_key) {
        Ok(envelope) => Ok(envelope),
        Err(_) => refuse(FfiErrorCode::CryptoError, "crypto operation failed while creating additional recipient envelope"),
    }
}

/// Creates the handle over the default facade, given the outcome of assembling it; the
/// caller's slot for the handle must not be null.
pub fn handle_facade_new_default<A: AeadBackend, K: KemBackend, R: SecureRandom>(
    out_handle_is_null: bool,
    built: Result<CoreFacade<A, K, R>, KemBackendError>,
) -> (r: Result<FfiFacadeHandle<A, K, R>, FfiErrorInfo>)
    ensures
        if out_handle_is_null {
            fails_with(r, FfiErrorCode::NullPointer, "null facade handle output pointer"@)
        } else {
            match built {
                Ok(facade) => r matches Ok(handle) && handle.facade() == facade,
                Err(e) => fails_with(r, FfiErrorCode::InternalError, default_facade_failure_message(e)),
            }
        },
{
    if out_handle_is_null {
        return refuse(FfiErrorCode::NullPointer, "null facade handle output pointer");
    }
    match FfiFacadeHandle::new_default(built) {
        Ok(handle) => Ok(handle),
        Err(error) => Err(error.as_error_info()),
    }
}

/// Whether a handle may be released: a null handle is refused.
pub fn handle_facade_free(handle_is_null: bool) -> (r: Result<(), FfiErrorInfo>)
    ensures
        if handle_is_null {
            fails_with(r, FfiErrorCode::InvalidHandle, "invalid handle"@)
        } else {
            r is Ok
        },
{
    if handle_is_null {
        return refuse(FfiErrorCode::InvalidHandle, "invalid handle");
    }
    Ok(())
}

/// A package opens from its wire form exactly as the package itself opens, for every
/// caller and private key; the wire form converts back whenever the package's creation time
/// fits the clock.
pub proof fn lemma_wire_package_opens_as_package<A: AeadBackend, K: KemBackend>(
    aead: A,
    kem: K,
    wire: CryptoPackageWire,
    package: CryptoPackageView,
    caller: DecryptionCaller,
    private_key: Seq<u8>,
)
    requires
        wire_package_of(wire, package),
    ensures
        package.encrypted_data.created_at.seconds() <= crate::domain::timestamp::MAX_CLOCK_SECONDS
            ==> crypto_package_wire_converts(wire),
        decryption_outcome(aead, kem, crypto_package_view_of_wire(wire), caller, private_key)
            == decryption_outcome(aead, kem, package, caller, private_key),
{
    lemma_package_wire_round_trip(wire, package);
}

/// A package sealed through the interface for a user and a guardian, sent as its wire form,
/// opens through the interface for either of them to the sealed payload, with a private key
/// that opens the KEM's encapsulations for that recipient's public key (such as the private
/// key of a pair generated by a KEM whose generated pairs open their encapsulations).
pub proof fn lemma_interface_package_round_trip<A: AeadBackend, K: KemBackend>(
    aead: A,
    kem: K,
    package: CryptoPackageView,
    wire: CryptoPackageWire,
    request: EncryptionRequestView,
    data_key: DataKeyView,
    caller: DecryptionCaller,
    private_key: Seq<u8>,
)
    requires
        data_key.key_value.len() == 32,
        seals_request(aead, kem, package, request, data_key, package.encrypted_data.created_at),
        wire_package_of(wire, package),
        (caller == user_caller(request) && private_key_opens(kem, request.user_public_key, private_key))
            || (caller == guardian_caller(request) && private_key_opens(kem, request.guardian_public_key, private_key)),
    ensures
        decryption_outcome(aead, kem, crypto_package_view_of_wire(wire), caller, private_key)
            == Ok::<Seq<u8>, crate::service::decryption_service::DecryptionFailure>(request.log_data),
{
    if caller == user_caller(request) && private_key_opens(kem, request.user_public_key, private_key) {
        lemma_private_key_opens(kem, request.user_public_key, private_key);
    } else {
        lemma_private_key_opens(kem, request.guardian_public_key, private_key);
    }
    lemma_wire_package_opens_as_package(aead, kem, wire, package, caller, private_key);
    crate::core_facade::lemma_package_round_trip(aead, kem, package, request, data_key,
        package.encrypted_data.created_at, caller, private_key);
}

/// An envelope created through the interface for a public key, sent as its wire form, is
/// accepted by the interface for its owner and opens to the data key it carries, with a
/// private key that opens the KEM's encapsulations for that public key (`private_key_opens`).
pub proof fn lemma_interface_envelope_round_trip<K: KemBackend>(
    kem: K,
    envelope: KeyEnvelopeView,
    wire: KeyEnvelopeWire,
    data_key: DataKeyView,
    owner_id: u64,
    owner_type: FfiOwnerType,
    public_key: Seq<u8>,
    private_key: Seq<u8>,
)
    requires
        data_key.key_value.len() == 32,
        carries_data_key(kem, envelope, data_key, owner_id, owner_type_of(owner_type), public_key),
        wire_envelope_of(wire, envelope),
        private_key_opens(kem, public_key, private_key),
    ensures
        is_owner_type_text(wire.owner_type@),
        wire_names_owner(wire, owner_id, owner_type),
        recovered_data_key(
            kem.decapsulate_spec(key_envelope_view_of_wire(wire).kem_ciphertext, private_key),
            key_envelope_view_of_wire(wire).encapsulated_key,
        ) == Some(data_key.key_value),
{
    lemma_envelope_wire_round_trip(wire, envelope);
    lemma_private_key_opens(kem, public_key, private_key);
    crate::service::key_management_service::lemma_open_after_create(kem, envelope, data_key, owner_id,
        owner_type_of(owner_type), public_key, private_key);
}

/// The envelope a current owner creates for a new recipient's public key opens, with a
/// private key that opens the KEM's encapsulations for that public key, to the same data key
/// that the source envelope opened to for the current owner.
pub proof fn lemma_shared_key_opens_for_new_recipient<K: KemBackend>(
    kem: K,
    source_wire: KeyEnvelopeWire,
    current_private_key: Seq<u8>,
    key_value: Seq<u8>,
    new_envelope: KeyEnvelopeView,
    new_owner_id: u64,
    new_owner_type: FfiOwnerType,
    new_public_key: Seq<u8>,
    new_private_key: Seq<u8>,
)
    requires
        recovered_data_key(
            kem.decapsulate_spec(key_envelope_view_of_wire(source_wire).kem_ciphertext, current_private_key),
            key_envelope_view_of_wire(source_wire).encapsulated_key,
        ) == Some(key_value),
        carries_data_key(kem, new_envelope, passed_on_data_key(source_wire, key_value), new_owner_id,
            owner_type_of(new_owner_type), new_public_key),
        private_key_opens(kem, new_public_key, new_private_key),
    ensures
        new_envelope.key_id == source_wire.key_id@,
        new_envelope.owner_id == new_owner_id,
        recovered_data_key(kem.decapsulate_spec(new_envelope.kem_ciphertext, new_private_key), new_envelope.encapsulated_key)
            == Some(key_value),
{
    lemma_private_key_opens(kem, new_public_key, new_private_key);
    crate::service::key_management_service::lemma_open_after_create(kem, new_envelope,
        passed_on_data_key(source_wire, key_value), new_owner_id, owner_type_of(new_owner_type),
        new_public_key, new_private_key);
}

} // verus!

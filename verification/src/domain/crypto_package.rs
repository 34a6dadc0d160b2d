//! One sealed payload together with the envelopes for its user and guardian.
use vstd::prelude::*;

use crate::domain::encrypted_log::{EncryptedLogData, EncryptedLogDataView};
use crate::domain::key_envelope::{KeyEnvelope, KeyEnvelopeView};

verus! {

/// A sealed payload and two envelopes, one per recipient, each able to recover its data key.
#[derive(Debug, Clone)]
pub struct CryptoPackage {
    pub encrypted_data: EncryptedLogData,
    pub user_envelope: KeyEnvelope,
    pub guardian_envelope: KeyEnvelope,
}

/// The contents of a package.
pub struct CryptoPackageView {
    pub encrypted_data: EncryptedLogDataView,
    pub user_envelope: KeyEnvelopeView,
    pub guardian_envelope: KeyEnvelopeView,
}

impl View for CryptoPackage {
    type V = CryptoPackageView;

    open spec fn view(&self) -> CryptoPackageView {
        CryptoPackageView {
            encrypted_data: self.encrypted_data@,
            user_envelope: self.user_envelope@,
            guardian_envelope: self.guardian_envelope@,
        }
    }
}

impl CryptoPackage {
    pub fn new(encrypted_data: EncryptedLogData, user_envelope: KeyEnvelope, guardian_envelope: KeyEnvelope) -> (p: Self)
        ensures
            p@ == (CryptoPackageView {
                encrypted_data: encrypted_data@,
                user_envelope: user_envelope@,
                guardian_envelope: guardian_envelope@,
            }),
    {
        CryptoPackage { encrypted_data, user_envelope, guardian_envelope }
    }
}

} // verus!

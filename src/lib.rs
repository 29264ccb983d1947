//! Device capability boundary of a key-management engine: the platform-specific operations
//! (root keys, attestation signing, attestation identifiers, bootloader and user-presence state,
//! storage-key wrapping) that an integrator supplies, with the contracts the engine relies on.

pub mod attest;
pub mod device;
pub mod error;
pub mod keys;

pub use attest::{check_cert_chain, AttestationIdInfo, Certificate, SigningKey};
pub use device::{
    derive_unique_id_hbk, hbk_from_derivation, BootloaderDone, BootloaderStatus, Implementation, RetrieveAttestationIds, RetrieveCertSigningInfo,
    RetrieveKeyMaterial, SecureDeletionData, SecureDeletionSecretManager, SecureDeletionSlot,
    StorageKeyWrapper, TrustedPresenceUnsupported, TrustedUserPresence, UNIQUE_ID_HBK_LEN,
};
pub use error::{Error, ErrorKind};
pub use keys::{AesKey, Ckdf, HmacKey, KeyMaterial, RawKeyMaterial};

//! The capabilities a device supplies, and the aggregate handed to the engine.
use vstd::prelude::*;

use crate::attest::{chain_is_ordered, ids_visible, AttestationIdInfo, Certificate, SigningKey};
use crate::error::{Error, ErrorKind};
use crate::keys::{AesKey, Ckdf, HmacKey, KeyMaterial, RawKeyMaterial};

verus! {

/// The label under which the unique-ID key is derived: "UniqueID HBK 32B".
pub open spec fn unique_id_label() -> Seq<u8> {
    seq![85u8, 110, 105, 113, 117, 101, 73, 68, 32, 72, 66, 75, 32, 51, 50, 66]
}

/// Length in bytes of the unique-ID key.
pub const UNIQUE_ID_HBK_LEN: usize = 32;

/// The unique-ID key that `ckdf` derives from the key-agreement key `kak`.
pub open spec fn unique_id_hbk_of<C: Ckdf + ?Sized>(ckdf: &C, kak: Seq<u8>) -> Seq<u8> {
    ckdf.derived(kak, unique_id_label(), Seq::empty(), UNIQUE_ID_HBK_LEN as nat)
}

/// Whether `ckdf` may refuse, with `e`, to derive the unique-ID key from `kak`.
pub open spec fn unique_id_hbk_refused<C: Ckdf + ?Sized>(ckdf: &C, kak: Seq<u8>, e: Error) -> bool {
    ckdf.fails_with(kak, unique_id_label(), Seq::empty(), UNIQUE_ID_HBK_LEN as nat, e)
}

/// What the default derivation of the unique-ID key from `kak` may give: without a derivation
/// function an unimplemented error; with one, the key it derives, or an error it may refuse
/// with, and the key whenever it cannot refuse.
pub open spec fn unique_id_hbk_outcome(ckdf: Option<&dyn Ckdf>, kak: Seq<u8>, r: Result<HmacKey, Error>) -> bool {
    match ckdf {
        None => r is Err && r->Err_0.kind == ErrorKind::Unimplemented,
        Some(c) => {
            &&& r is Ok ==> r->Ok_0@ == unique_id_hbk_of(c, kak)
            &&& r is Err ==> unique_id_hbk_refused(c, kak, r->Err_0)
            &&& (forall|e: Error| !#[trigger] unique_id_hbk_refused(c, kak, e)) ==> r is Ok
        },
    }
}

/// The unique-ID key from the outcome of its derivation: the derived bytes as an HMAC key, or
/// the derivation's error unchanged.
pub fn hbk_from_derivation(res: Result<Vec<u8>, Error>) -> (r: Result<HmacKey, Error>)
    ensures
        r is Ok <==> res is Ok,
        res is Ok ==> r->Ok_0@ == res->Ok_0@,
        res is Err ==> r->Err_0 == res->Err_0,
{
    match res {
        Ok(bytes) => Ok(HmacKey::new(bytes)),
        Err(e) => Err(e),
    }
}

/// The default unique-ID key: 32 bytes derived once by `ckdf` from the key-agreement key `kak`,
/// under the unique-ID label and an empty context, with a refusal handed back unchanged. Without
/// a derivation function it fails as unimplemented.
pub fn derive_unique_id_hbk(kak: &AesKey, ckdf: Option<&dyn Ckdf>) -> (r: Result<HmacKey, Error>)
    ensures
        unique_id_hbk_outcome(ckdf, kak@, r),
        r is Ok ==> r->Ok_0@.len() == UNIQUE_ID_HBK_LEN,
{
    match ckdf {
        Some(c) => {
            let label: Vec<u8> = vec![85u8, 110, 105, 113, 117, 101, 73, 68, 32, 72, 66, 75, 32, 51, 50, 66];
            assert(label@ =~= unique_id_label());
            let no_chunks: Vec<&[u8]> = Vec::new();
            assert(crate::keys::chunk_views(no_chunks@) =~= Seq::empty());
            let res = c.ckdf(kak, label.as_slice(), no_chunks.as_slice(), UNIQUE_ID_HBK_LEN);
            proof {
                if res is Err {
                    assert(unique_id_hbk_refused(c, kak@, res->Err_0));
                }
            }
            hbk_from_derivation(res)
        },
        None => Err(Error::unimplemented("default implementation requires a CKDF implementation")),
    }
}

/// Retrieval of key material. The caller drops the key material as soon as it is done with it.
pub trait RetrieveKeyMaterial {
    /// The bytes of the key-agreement key; unspecified unless an implementation defines them.
    open spec fn kak_bytes(&self) -> Seq<u8> {
        arbitrary()
    }

    /// Whether `unique_id_hbk` follows the default derivation; an implementation that derives
    /// the key otherwise defines this as false.
    open spec fn derives_default_unique_id_hbk(&self) -> bool {
        true
    }

    /// The root key from which per-keyblob key encryption keys are derived.
    fn root_kek(&self) -> RawKeyMaterial;

    /// The key-agreement key used to negotiate shared secrets.
    fn kak(&self) -> (r: AesKey)
        ensures
            r@ == self.kak_bytes(),
    ;

    /// The hardware-backed 32-byte key from which unique IDs are computed. By default it is
    /// derived by `derive_unique_id_hbk` from the key-agreement key.
    fn unique_id_hbk(&self, ckdf: Option<&dyn Ckdf>) -> (r: Result<HmacKey, Error>)
        ensures
            self.derives_default_unique_id_hbk() ==> unique_id_hbk_outcome(ckdf, self.kak_bytes(), r),
            r is Ok ==> r->Ok_0@.len() == UNIQUE_ID_HBK_LEN,
    {
        derive_unique_id_hbk(&self.kak(), ckdf)
    }
}

/// The default unique-ID key is reproducible: with one derivation function that cannot refuse,
/// two providers holding the same key-agreement key both obtain a key, and the same one.
pub proof fn lemma_unique_id_hbk_reproducible(
    ckdf: Option<&dyn Ckdf>,
    kak: Seq<u8>,
    first: Result<HmacKey, Error>,
    second: Result<HmacKey, Error>,
)
    requires
        ckdf is Some,
        forall|e: Error| !#[trigger] unique_id_hbk_refused(ckdf->0, kak, e),
        unique_id_hbk_outcome(ckdf, kak, first),
        unique_id_hbk_outcome(ckdf, kak, second),
    ensures
        first is Ok,
        second is Ok,
        first->Ok_0@ == second->Ok_0@,
{
}

/// Retrieval of attestation signing information. The caller drops private key material after
/// use, but may cache public material.
pub trait RetrieveCertSigningInfo {
    /// Whether this device holds a device-unique signing key; by default it holds none.
    open spec fn has_device_unique_key(&self) -> bool {
        false
    }

    /// The private signing key of the given kind; a device-unique key is refused where the
    /// device has none.
    fn signing_key(&self, key_type: SigningKey) -> (r: Result<KeyMaterial, Error>)
        ensures
            key_type == SigningKey::DeviceUnique && !self.has_device_unique_key() ==> r is Err,
    ;

    /// The certificate chain of the given signing key: the first certificate holds its public
    /// key, each is issued by the next, and the last is a self-issued root (names are compared;
    /// signatures are not checked).
    fn cert_chain(&self, key_type: SigningKey) -> (r: Result<Vec<Certificate>, Error>)
        ensures
            r is Ok ==> chain_is_ordered(r->Ok_0@),
            key_type == SigningKey::DeviceUnique && !self.has_device_unique_key() ==> r is Err,
    ;
}

/// Retrieval and destruction of the device's attestation identifiers. The identifiers do not
/// change until destroyed, so a caller may cache them.
pub trait RetrieveAttestationIds {
    /// The identifiers the device was provisioned with, in the order of
    /// `AttestationIdInfo`'s view; unspecified unless an implementation defines them.
    open spec fn provisioned(&self) -> Seq<Seq<u8>> {
        arbitrary()
    }

    /// Whether the identifiers have been destroyed; unspecified unless an implementation
    /// defines it.
    open spec fn destroyed(&self) -> bool {
        arbitrary()
    }

    /// The device's identifiers, where available: the provisioned record until it is destroyed,
    /// and a record withholding it afterwards.
    fn get(&self) -> (r: Result<AttestationIdInfo, Error>)
        ensures
            r is Ok ==> ids_visible(self.destroyed(), self.provisioned(), r->Ok_0@),
    ;

    /// Destroys the identifiers for good.
    fn destroy_all(&mut self) -> (r: Result<(), Error>)
        ensures
            final(self).provisioned() == old(self).provisioned(),
            old(self).destroyed() ==> final(self).destroyed(),
            r is Ok ==> final(self).destroyed(),
    ;
}

/// A slot of the secure-deletion store.
#[derive(Debug, Clone, Copy, PartialEq, Eq, Structural)]
pub struct SecureDeletionSlot(pub u32);

/// The secrets bound into a rollback-resistant keyblob.
pub struct SecureDeletionData {
    /// Secret that changes on every factory reset.
    pub factory_reset_secret: Vec<u8>,
    /// Secret that is erased when the key is deleted.
    pub secure_deletion_secret: Vec<u8>,
}

/// Manager of secure-deletion secrets; without one, rollback-resistant keys are not supported.
pub trait SecureDeletionSecretManager {
    /// A fresh secret in a newly allocated slot.
    fn new_secret(&mut self) -> Result<(SecureDeletionSlot, SecureDeletionData), Error>;

    /// The secret held in `slot`.
    fn get_secret(&self, slot: SecureDeletionSlot) -> Result<SecureDeletionData, Error>;

    /// Erases the secret in `slot`.
    fn delete_secret(&mut self, slot: SecureDeletionSlot) -> Result<(), Error>;

    /// Erases every secret.
    fn delete_all(&mut self);
}

/// Bootloader status.
pub trait BootloaderStatus {
    /// Whether bootloader processing is complete; by default it is complete before the engine
    /// starts.
    open spec fn is_done(&self) -> bool {
        true
    }

    /// Whether bootloader processing is complete; keys for the bootloader alone can only be
    /// created before then.
    fn done(&self) -> (r: bool)
        ensures
            r == self.is_done(),
    ;
}

/// Status of a device without bootloader-only keys: the bootloader is always done before the
/// engine starts.
pub struct BootloaderDone;

impl BootloaderStatus for BootloaderDone {
    fn done(&self) -> (r: bool) {
        true
    }
}

/// The fallback bootloader status always reports the bootloader as done.
pub proof fn lemma_bootloader_done_default(b: BootloaderDone)
    ensures
        b.is_done(),
{
}

/// Trusted user presence indicator.
pub trait TrustedUserPresence {
    /// Whether user presence is detected; by default presence is not supported.
    open spec fn is_available(&self) -> bool {
        false
    }

    /// Whether user presence is detected by a mechanism of the current secure environment.
    fn available(&self) -> (r: bool)
        ensures
            r == self.is_available(),
    ;
}

/// Indicator of a device without trusted user presence: presence is never claimed.
pub struct TrustedPresenceUnsupported;

impl TrustedUserPresence for TrustedPresenceUnsupported {
    fn available(&self) -> (r: bool) {
        false
    }
}

/// The fallback presence indicator never reports user presence.
pub proof fn lemma_presence_unsupported_default(t: TrustedPresenceUnsupported)
    ensures
        !t.is_available(),
{
}

/// Storage key wrapping.
pub trait StorageKeyWrapper {
    /// Whether `blob` wraps `key_material` under some ephemeral storage key; unspecified unless
    /// an implementation defines it. A relation, as the ephemeral key varies from call to call.
    open spec fn wraps(&self, key_material: KeyMaterial, blob: Seq<u8>) -> bool {
        arbitrary()
    }

    /// Whether wrapping `key_material` may fail with `e`; unspecified unless an implementation
    /// defines it.
    open spec fn refuses(&self, key_material: KeyMaterial, e: Error) -> bool {
        arbitrary()
    }

    /// Wraps `key_material` under an ephemeral storage key into an opaque blob.
    fn ephemeral_wrap(&self, key_material: &KeyMaterial) -> (r: Result<Vec<u8>, Error>)
        ensures
            r is Ok ==> self.wraps(*key_material, r->Ok_0@),
            r is Err ==> self.refuses(*key_material, r->Err_0),
    ;
}

/// The capabilities of one device, handed to the engine for a session. Optional ones that are
/// absent mark features the device does not support; requests for them are refused with
/// `Unimplemented` before any capability is reached.
pub struct Implementation<'a> {
    /// Retrieval of root key material.
    pub keys: &'a dyn RetrieveKeyMaterial,
    /// Retrieval of attestation certificate signing information.
    pub sign_info: &'a dyn RetrieveCertSigningInfo,
    /// Retrieval of attestation identifiers.
    pub attest_ids: Option<&'a mut dyn RetrieveAttestationIds>,
    /// Secure-deletion secret manager; without it rollback-resistant keys are not supported.
    pub sdd_mgr: Option<&'a mut dyn SecureDeletionSecretManager>,
    /// Retrieval of bootloader status.
    pub bootloader: &'a dyn BootloaderStatus,
    /// Storage key wrapping; without it ephemeral storage-key conversion is not supported.
    pub sk_wrapper: Option<&'a dyn StorageKeyWrapper>,
    /// Trusted user presence indicator.
    pub tup: &'a dyn TrustedUserPresence,
}

impl<'a> Implementation<'a> {
    /// Admits a key request: one for a rollback-resistant key is refused as unimplemented
    /// where the device has no secure-deletion secret manager.
    pub fn check_rollback_resistance(&self, rollback_resistant: bool) -> (r: Result<(), Error>)
        ensures
            r is Err <==> rollback_resistant && self.sdd_mgr is None,
            r is Err ==> r->Err_0.kind == ErrorKind::Unimplemented,
    {
        if rollback_resistant && self.sdd_mgr.is_none() {
            Err(Error::unimplemented("rollback-resistant keys need a secure deletion secret manager"))
        } else {
            Ok(())
        }
    }

    /// Converts a storage key into an ephemeral one through the storage key wrapper, which is
    /// handed `key_material` itself and whose outcome comes back unchanged; refused as
    /// unimplemented where the device has no wrapper.
    pub fn convert_storage_key_to_ephemeral(&self, key_material: &KeyMaterial) -> (r: Result<Vec<u8>, Error>)
        ensures
            self.sk_wrapper is None ==> r is Err && r->Err_0.kind == ErrorKind::Unimplemented,
            self.sk_wrapper is Some && r is Ok ==> self.sk_wrapper->0.wraps(*key_material, r->Ok_0@),
            self.sk_wrapper is Some && r is Err ==> self.sk_wrapper->0.refuses(*key_material, r->Err_0),
    {
        match self.sk_wrapper {
            Some(wrapper) => wrapper.ephemeral_wrap(key_material),
            None => Err(Error::unimplemented("storage key wrapping is not supported")),
        }
    }

    /// The device's attestation identifiers; refused as unimplemented where the device has no
    /// provider of them.
    pub fn attestation_ids(&self) -> (r: Result<AttestationIdInfo, Error>)
        ensures
            self.attest_ids is None ==> r is Err && r->Err_0.kind == ErrorKind::Unimplemented,
            self.attest_ids is Some && r is Ok ==> ids_visible(
                self.attest_ids->0.destroyed(),
                self.attest_ids->0.provisioned(),
                r->Ok_0@,
            ),
    {
        match &self.attest_ids {
            Some(ids) => ids.get(),
            None => Err(Error::unimplemented("attestation identifiers are not supported")),
        }
    }

    /// Destroys the device's attestation identifiers; refused as unimplemented where the device
    /// has no provider of them.
    pub fn destroy_attestation_ids(&mut self) -> (r: Result<(), Error>)
        ensures
            old(self).attest_ids is None ==> final(self).attest_ids is None && r is Err
                && r->Err_0.kind == ErrorKind::Unimplemented,
            old(self).attest_ids is Some ==> final(self).attest_ids is Some,
            old(self).attest_ids is Some ==> final(self).attest_ids->0.provisioned()
                == old(self).attest_ids->0.provisioned(),
            old(self).attest_ids is Some && old(self).attest_ids->0.destroyed()
                ==> final(self).attest_ids->0.destroyed(),
            old(self).attest_ids is Some && r is Ok ==> final(self).attest_ids->0.destroyed(),
    {
        match &mut self.attest_ids {
            Some(ids) => ids.destroy_all(),
            None => Err(Error::unimplemented("attestation identifiers are not supported")),
        }
    }

    /// Whether bootloader processing is complete.
    pub fn bootloader_done(&self) -> (r: bool)
        ensures
            r == self.bootloader.is_done(),
    {
        self.bootloader.done()
    }

    /// Whether trusted user presence is detected.
    pub fn user_present(&self) -> (r: bool)
        ensures
            r == self.tup.is_available(),
    {
        self.tup.available()
    }
}

} // verus!

//! Key material handed across the device boundary, and the key-derivation collaborator.
use vstd::prelude::*;

use crate::error::{Error, ErrorKind};

verus! {

/// Whether `n` is the length in bytes of an AES-128, AES-192 or AES-256 key.
pub open spec fn is_aes_key_len(n: nat) -> bool {
    n == 16 || n == 24 || n == 32
}

/// An AES key: 16, 24 or 32 bytes.
pub struct AesKey {
    bytes: Vec<u8>,
}

impl View for AesKey {
    type V = Seq<u8>;

    closed spec fn view(&self) -> Seq<u8> {
        self.bytes@
    }
}

impl AesKey {
    #[verifier::type_invariant]
    closed spec fn inv(&self) -> bool {
        is_aes_key_len(self.bytes@.len())
    }

    /// An AES key holding `bytes`; fails with `InvalidArgument` unless there are 16, 24 or 32.
    pub fn new(bytes: Vec<u8>) -> (r: Result<AesKey, Error>)
        ensures
            is_aes_key_len(bytes@.len()) <==> r is Ok,
            r is Ok ==> r->Ok_0@ == bytes@,
            r is Err ==> r->Err_0.kind == ErrorKind::InvalidArgument,
    {
        let n = bytes.len();
        if n == 16 || n == 24 || n == 32 {
            Ok(AesKey { bytes })
        } else {
            Err(Error::new(ErrorKind::InvalidArgument, "AES key must be 16, 24 or 32 bytes"))
        }
    }

    /// The key's bytes.
    pub fn as_bytes(&self) -> (r: &[u8])
        ensures
            r@ == self@,
            is_aes_key_len(r@.len()),
    {
        proof {
            use_type_invariant(self);
        }
        self.bytes.as_slice()
    }
}

/// An HMAC key.
pub struct HmacKey(pub Vec<u8>);

impl View for HmacKey {
    type V = Seq<u8>;

    open spec fn view(&self) -> Seq<u8> {
        self.0@
    }
}

impl HmacKey {
    /// An HMAC key holding `bytes`.
    pub fn new(bytes: Vec<u8>) -> (r: HmacKey)
        ensures
            r@ == bytes@,
    {
        HmacKey(bytes)
    }
}

/// Root key bytes, handed to the engine for derivation only.
pub struct RawKeyMaterial(pub Vec<u8>);

/// Private key material of some algorithm.
pub enum KeyMaterial {
    Aes(AesKey),
    Hmac(HmacKey),
    /// An EC private key, DER-encoded.
    Ec(Vec<u8>),
    /// An RSA private key, DER-encoded.
    Rsa(Vec<u8>),
}

/// The views of a sequence of byte slices.
pub open spec fn chunk_views(chunks: Seq<&[u8]>) -> Seq<Seq<u8>> {
    chunks.map_values(|c: &[u8]| c@)
}

/// A CKDF key-derivation function, supplied by the integrator.
pub trait Ckdf {
    /// The `out_len` bytes derived from `key` under `label` and the context `chunks`;
    /// unspecified unless an implementation defines them.
    open spec fn derived(&self, key: Seq<u8>, label: Seq<u8>, chunks: Seq<Seq<u8>>, out_len: nat) -> Seq<u8> {
        arbitrary()
    }

    /// Whether the derivation of `out_len` bytes from `key`, `label` and `chunks` may fail with
    /// `e`; unspecified unless an implementation defines it.
    open spec fn fails_with(&self, key: Seq<u8>, label: Seq<u8>, chunks: Seq<Seq<u8>>, out_len: nat, e: Error) -> bool {
        arbitrary()
    }

    /// Derives `out_len` bytes from `key`, `label` and the context `chunks`.
    fn ckdf(&self, key: &AesKey, label: &[u8], chunks: &[&[u8]], out_len: usize) -> (r: Result<Vec<u8>, Error>)
        ensures
            r is Ok ==> r->Ok_0@ == self.derived(key@, label@, chunk_views(chunks@), out_len as nat),
            r is Ok ==> r->Ok_0@.len() == out_len,
            r is Err ==> self.fails_with(key@, label@, chunk_views(chunks@), out_len as nat, r->Err_0),
    ;
}

} // verus!

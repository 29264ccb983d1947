//! Attestation material: signing-key selection, certificate chains and device identifiers.
use vstd::prelude::*;

verus! {

/// Which attestation signing key is asked for.
#[derive(Debug, Clone, Copy, PartialEq, Eq, Structural)]
pub enum SigningKey {
    /// A batch key shared across many devices, so that it identifies no single device.
    Batch,
    /// A key unique to this device; only the most isolated deployment tier has one.
    DeviceUnique,
}

/// A DER-encoded certificate, with the subject and issuer names it carries. Whoever builds one
/// fills `subject` and `issuer` with the names that `encoded_certificate` holds; nothing here
/// decodes the certificate to compare them.
pub struct Certificate {
    pub encoded_certificate: Vec<u8>,
    /// The DER encoding of the subject name.
    pub subject: Vec<u8>,
    /// The DER encoding of the issuer name.
    pub issuer: Vec<u8>,
}

/// Whether `c` names itself as its issuer.
pub open spec fn is_self_issued(c: Certificate) -> bool {
    c.issuer@ == c.subject@
}

/// Whether `chain` runs from a leaf to a self-issued root, each certificate issued by the next.
/// Names are compared; signatures are not checked.
pub open spec fn chain_is_ordered(chain: Seq<Certificate>) -> bool {
    &&& chain.len() > 0
    &&& forall|i: int| 0 <= i < chain.len() - 1 ==> (#[trigger] chain[i]).issuer@ == chain[i + 1].subject@
    &&& is_self_issued(chain.last())
}

/// Whether two byte strings are equal.
fn bytes_equal(a: &[u8], b: &[u8]) -> (r: bool)
    ensures
        r == (a@ == b@),
{
    if a.len() != b.len() {
        return false;
    }
    let mut i: usize = 0;
    while i < a.len()
        invariant
            a@.len() == b@.len(),
            i <= a@.len(),
            forall|j: int| 0 <= j < i ==> a@[j] == b@[j],
        decreases a@.len() - i,
    {
        if a[i] != b[i] {
            return false;
        }
        i = i + 1;
    }
    assert(a@ =~= b@);
    true
}

/// Walks `chain` from the leaf and tells whether it is ordered: non-empty, each certificate's
/// issuer the subject of the next, and the last one self-issued.
pub fn check_cert_chain(chain: &[Certificate]) -> (r: bool)
    ensures
        r == chain_is_ordered(chain@),
{
    let n = chain.len();
    if n == 0 {
        return false;
    }
    let mut i: usize = 0;
    while i + 1 < n
        invariant
            n == chain@.len(),
            n > 0,
            i < n,
            forall|j: int| 0 <= j < i ==> (#[trigger] chain@[j]).issuer@ == chain@[j + 1].subject@,
        decreases n - i,
    {
        if !bytes_equal(chain[i].issuer.as_slice(), chain[i + 1].subject.as_slice()) {
            return false;
        }
        i = i + 1;
    }
    bytes_equal(chain[n - 1].issuer.as_slice(), chain[n - 1].subject.as_slice())
}

/// The fixed identity fields of a device.
pub struct AttestationIdInfo {
    pub brand: Vec<u8>,
    pub device: Vec<u8>,
    pub product: Vec<u8>,
    pub serial: Vec<u8>,
    pub imei: Vec<u8>,
    pub meid: Vec<u8>,
    pub manufacturer: Vec<u8>,
    pub model: Vec<u8>,
}

impl View for AttestationIdInfo {
    /// The fields in declaration order.
    type V = Seq<Seq<u8>>;

    open spec fn view(&self) -> Seq<Seq<u8>> {
        seq![
            self.brand@,
            self.device@,
            self.product@,
            self.serial@,
            self.imei@,
            self.meid@,
            self.manufacturer@,
            self.model@,
        ]
    }
}

/// Whether `record` holds none of the provisioned identity data: no field of it equals any
/// non-empty provisioned field, whichever field that was.
pub open spec fn ids_withheld(record: Seq<Seq<u8>>, provisioned: Seq<Seq<u8>>) -> bool {
    &&& record.len() == provisioned.len()
    &&& forall|i: int, j: int|
        0 <= i < record.len() && 0 <= j < provisioned.len() && provisioned[j].len() > 0
            ==> #[trigger] record[i] != #[trigger] provisioned[j]
}

/// What a successful retrieval of identifiers may hand out: the provisioned record while it
/// stands, and a record withholding it once it has been destroyed.
pub open spec fn ids_visible(destroyed: bool, provisioned: Seq<Seq<u8>>, record: Seq<Seq<u8>>) -> bool {
    if destroyed {
        ids_withheld(record, provisioned)
    } else {
        record == provisioned
    }
}

/// Once the identifiers are destroyed, no retrieval hands out the provisioned record again,
/// provided that record held some identity data at all.
pub proof fn lemma_destroyed_ids_not_returned(provisioned: Seq<Seq<u8>>, record: Seq<Seq<u8>>)
    requires
        ids_visible(true, provisioned, record),
        exists|i: int| 0 <= i < provisioned.len() && (#[trigger] provisioned[i]).len() > 0,
    ensures
        record != provisioned,
{
    let i = choose|i: int| 0 <= i < provisioned.len() && (#[trigger] provisioned[i]).len() > 0;
    assert(record[i] != provisioned[i]);
}

} // verus!

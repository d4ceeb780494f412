//! Fields shared by several record kinds: key-derivation paths, merkle
//! witnesses, proof-generation keys, and the transaction-wide global record.

use vstd::prelude::*;

use crate::bytemap::{map_compat, map_union, map_wf, ByteMap};
use crate::bytes::{bytes_eq, clone_bytes, opt_compat, opt_merge};

verus! {

/// The number of levels in a shielded note-commitment merkle tree.
pub const MERKLE_DEPTH: usize = 32;

/// A hardened-derivation locator for the key that controls a record. Once
/// set it is opaque: two derivations reconcile only when identical.
#[derive(Clone)]
pub struct Zip32Derivation {
    /// The fingerprint of the seed that roots the derivation (32 bytes).
    pub seed_fingerprint: Vec<u8>,
    /// The child indices along the derivation path.
    pub derivation_path: Vec<u32>,
}

/// The abstract value of a [`Zip32Derivation`].
pub ghost struct ZipV {
    pub seed_fingerprint: Seq<u8>,
    pub derivation_path: Seq<u32>,
}

impl View for Zip32Derivation {
    type V = ZipV;

    open spec fn view(&self) -> ZipV {
        ZipV { seed_fingerprint: self.seed_fingerprint@, derivation_path: self.derivation_path@ }
    }
}

/// A derivation locator carries a 32-byte seed fingerprint.
pub open spec fn zipv_wf(z: ZipV) -> bool {
    z.seed_fingerprint.len() == 32
}

impl Zip32Derivation {

    /// Copies this derivation locator.
    pub fn clone_zip(&self) -> (r: Zip32Derivation)
        ensures
            r@ == self@,
    {
        let r = Zip32Derivation {
            seed_fingerprint: clone_bytes(&self.seed_fingerprint),
            derivation_path: vstd::slice::slice_to_vec(self.derivation_path.as_slice()),
        };
        r
    }
}

/// Verified equality of derivation locators.
pub fn zip_eq(a: &Zip32Derivation, b: &Zip32Derivation) -> (r: bool)
    ensures
        r == (a@ == b@),
{
    if !bytes_eq(&a.seed_fingerprint, &b.seed_fingerprint) {
        return false;
    }
    if a.derivation_path.len() != b.derivation_path.len() {
        return false;
    }
    let n: usize = a.derivation_path.len();
    let mut i: usize = 0;
    while i < n
        invariant
            n == a.derivation_path@.len() == b.derivation_path@.len(),
            0 <= i <= n,
            forall|k: int| 0 <= k < i ==> a.derivation_path@[k] == b.derivation_path@[k],
        decreases n - i,
    {
        if a.derivation_path[i] != b.derivation_path[i] {
            return false;
        }
        i += 1;
    }
    proof {
        assert(a.derivation_path@ =~= b.derivation_path@);
    }
    true
}

/// The abstract value of an optional derivation locator.
pub open spec fn ovz(a: Option<Zip32Derivation>) -> Option<ZipV> {
    match a {
        Some(z) => Some(z@),
        None => None,
    }
}

/// Whether an optional derivation locator is well-formed.
pub open spec fn opt_zipv_wf(a: Option<ZipV>) -> bool {
    match a {
        Some(z) => zipv_wf(z),
        None => true,
    }
}

/// Reconciles two optional derivation locators; they are compared for exact
/// equality, never merged field by field.
pub fn merge_opt_zip(a: &Option<Zip32Derivation>, b: &Option<Zip32Derivation>) -> (r: Option<
    Option<Zip32Derivation>,
>)
    ensures
        r is Some <==> opt_compat(ovz(*a), ovz(*b)),
        r is Some ==> ovz(r.unwrap()) == opt_merge(ovz(*a), ovz(*b)),
        r is Some && opt_zipv_wf(ovz(*a)) && opt_zipv_wf(ovz(*b)) ==> opt_zipv_wf(
            ovz(r.unwrap()),
        ),
{
    match (a, b) {
        (Some(x), Some(y)) => {
            if zip_eq(x, y) {
                Some(Some(x.clone_zip()))
            } else {
                None
            }
        },
        (Some(x), None) => Some(Some(x.clone_zip())),
        (None, Some(y)) => Some(Some(y.clone_zip())),
        (None, None) => Some(None),
    }
}

/// A path from a note commitment to the anchor of its tree.
#[derive(Clone)]
pub struct MerkleWitness {
    /// The position of the note commitment in the tree.
    pub position: u32,
    /// The sibling hashes from the leaf to the root, 32 bytes each.
    pub auth_path: Vec<Vec<u8>>,
}

/// The abstract value of a [`MerkleWitness`].
pub ghost struct WitnessV {
    pub position: u32,
    pub auth_path: Seq<Seq<u8>>,
}

impl View for MerkleWitness {
    type V = WitnessV;

    open spec fn view(&self) -> WitnessV {
        WitnessV {
            position: self.position,
            auth_path: Seq::new(self.auth_path@.len(), |i: int| self.auth_path@[i]@),
        }
    }
}

/// A witness carries one 32-byte sibling hash per tree level.
pub open spec fn witnessv_wf(w: WitnessV) -> bool {
    w.auth_path.len() == MERKLE_DEPTH && forall|i: int|
        0 <= i < w.auth_path.len() ==> (#[trigger] w.auth_path[i]).len() == 32
}

impl MerkleWitness {

    /// Copies this witness.
    pub fn clone_witness(&self) -> (r: MerkleWitness)
        ensures
            r@ == self@,
    {
        let mut path: Vec<Vec<u8>> = Vec::new();
        let n: usize = self.auth_path.len();
        let mut i: usize = 0;
        while i < n
            invariant
                n == self.auth_path@.len(),
                0 <= i <= n,
                path@.len() == i,
                forall|k: int| 0 <= k < i ==> (#[trigger] path@[k])@ == self.auth_path@[k]@,
            decreases n - i,
        {
            path.push(clone_bytes(&self.auth_path[i]));
            i += 1;
        }
        let r = MerkleWitness { position: self.position, auth_path: path };
        proof {
            assert(r@.auth_path =~= self@.auth_path);
            assert(r@ == self@);
        }
        r
    }
}

/// Verified equality of merkle witnesses.
pub fn witness_eq(a: &MerkleWitness, b: &MerkleWitness) -> (r: bool)
    ensures
        r == (a@ == b@),
{
    if a.position != b.position {
        return false;
    }
    if a.auth_path.len() != b.auth_path.len() {
        proof {
            assert(a@.auth_path.len() != b@.auth_path.len());
        }
        return false;
    }
    let n: usize = a.auth_path.len();
    let mut i: usize = 0;
    while i < n
        invariant
            n == a.auth_path@.len() == b.auth_path@.len(),
            a.position == b.position,
            0 <= i <= n,
            forall|k: int| 0 <= k < i ==> a.auth_path@[k]@ == b.auth_path@[k]@,
        decreases n - i,
    {
        if !bytes_eq(&a.auth_path[i], &b.auth_path[i]) {
            proof {
                assert(a@.auth_path[i as int] != b@.auth_path[i as int]);
            }
            return false;
        }
        i += 1;
    }
    proof {
        assert(a@.auth_path =~= b@.auth_path);
        assert(a@ == b@);
    }
    true
}

/// The abstract value of an optional merkle witness.
pub open spec fn ovw(a: Option<MerkleWitness>) -> Option<WitnessV> {
    match a {
        Some(w) => Some(w@),
        None => None,
    }
}

/// Whether an optional merkle witness is well-formed.
pub open spec fn opt_witnessv_wf(a: Option<WitnessV>) -> bool {
    match a {
        Some(w) => witnessv_wf(w),
        None => true,
    }
}

/// Reconciles two optional merkle witnesses.
pub fn merge_opt_witness(a: &Option<MerkleWitness>, b: &Option<MerkleWitness>) -> (r: Option<
    Option<MerkleWitness>,
>)
    ensures
        r is Some <==> opt_compat(ovw(*a), ovw(*b)),
        r is Some ==> ovw(r.unwrap()) == opt_merge(ovw(*a), ovw(*b)),
        r is Some && opt_witnessv_wf(ovw(*a)) && opt_witnessv_wf(ovw(*b)) ==> opt_witnessv_wf(
            ovw(r.unwrap()),
        ),
{
    match (a, b) {
        (Some(x), Some(y)) => {
            if witness_eq(x, y) {
                Some(Some(x.clone_witness()))
            } else {
                None
            }
        },
        (Some(x), None) => Some(Some(x.clone_witness())),
        (None, Some(y)) => Some(Some(y.clone_witness())),
        (None, None) => Some(None),
    }
}

/// The proof-generation key pair `(ak, nsk)` for a shielded spend.
#[derive(Clone)]
pub struct ProofGenerationKey {
    /// The spend-validating key component (32 bytes).
    pub ak: Vec<u8>,
    /// The nullifier-deriving secret component (32 bytes).
    pub nsk: Vec<u8>,
}

/// The abstract value of a [`ProofGenerationKey`].
pub ghost struct PgkV {
    pub ak: Seq<u8>,
    pub nsk: Seq<u8>,
}

impl View for ProofGenerationKey {
    type V = PgkV;

    open spec fn view(&self) -> PgkV {
        PgkV { ak: self.ak@, nsk: self.nsk@ }
    }
}

/// Both components of a proof-generation key are 32 bytes.
pub open spec fn pgkv_wf(p: PgkV) -> bool {
    p.ak.len() == 32 && p.nsk.len() == 32
}

impl ProofGenerationKey {

    /// Copies this key pair.
    pub fn clone_pgk(&self) -> (r: ProofGenerationKey)
        ensures
            r@ == self@,
    {
        ProofGenerationKey { ak: clone_bytes(&self.ak), nsk: clone_bytes(&self.nsk) }
    }
}

/// The abstract value of an optional proof-generation key.
pub open spec fn ovp(a: Option<ProofGenerationKey>) -> Option<PgkV> {
    match a {
        Some(p) => Some(p@),
        None => None,
    }
}

/// Whether an optional proof-generation key is well-formed.
pub open spec fn opt_pgkv_wf(a: Option<PgkV>) -> bool {
    match a {
        Some(p) => pgkv_wf(p),
        None => true,
    }
}

/// Reconciles two optional proof-generation keys.
pub fn merge_opt_pgk(a: &Option<ProofGenerationKey>, b: &Option<ProofGenerationKey>) -> (r: Option<
    Option<ProofGenerationKey>,
>)
    ensures
        r is Some <==> opt_compat(ovp(*a), ovp(*b)),
        r is Some ==> ovp(r.unwrap()) == opt_merge(ovp(*a), ovp(*b)),
        r is Some && opt_pgkv_wf(ovp(*a)) && opt_pgkv_wf(ovp(*b)) ==> opt_pgkv_wf(
            ovp(r.unwrap()),
        ),
{
    match (a, b) {
        (Some(x), Some(y)) => {
            if bytes_eq(&x.ak, &y.ak) && bytes_eq(&x.nsk, &y.nsk) {
                proof {
                    assert(x@ == y@);
                }
                Some(Some(x.clone_pgk()))
            } else {
                proof {
                    assert(x@ != y@);
                }
                None
            }
        },
        (Some(x), None) => Some(Some(x.clone_pgk())),
        (None, Some(y)) => Some(Some(y.clone_pgk())),
        (None, None) => Some(None),
    }
}

/// Fields that are relevant to the transaction as a whole. All scalar fields
/// are fixed by the Creator; two global records reconcile only when every
/// scalar field is identical, while the proprietary table merges by key-wise
/// union.
#[derive(Clone)]
pub struct Global {
    pub tx_version: u32,
    pub version_group_id: u32,
    /// The consensus branch for which this transaction is being built. A
    /// mismatch here means two documents describe unrelated transactions.
    pub consensus_branch_id: u32,
    pub lock_time: u32,
    pub expiry_height: u32,
    /// Application-specific key-value data.
    pub proprietary: ByteMap,
}

/// The abstract value of a [`Global`] record.
pub ghost struct GlobalV {
    pub tx_version: u32,
    pub version_group_id: u32,
    pub consensus_branch_id: u32,
    pub lock_time: u32,
    pub expiry_height: u32,
    pub proprietary: Seq<(Seq<u8>, Seq<u8>)>,
}

impl View for Global {
    type V = GlobalV;

    open spec fn view(&self) -> GlobalV {
        GlobalV {
            tx_version: self.tx_version,
            version_group_id: self.version_group_id,
            consensus_branch_id: self.consensus_branch_id,
            lock_time: self.lock_time,
            expiry_height: self.expiry_height,
            proprietary: self.proprietary@,
        }
    }
}

/// The reconciliation of two global records: every scalar field must match,
/// and the proprietary tables must agree on shared keys.
pub open spec fn spec_merge_global(a: GlobalV, b: GlobalV) -> Option<GlobalV> {
    if a.tx_version == b.tx_version && a.version_group_id == b.version_group_id
        && a.consensus_branch_id == b.consensus_branch_id && a.lock_time == b.lock_time
        && a.expiry_height == b.expiry_height && map_compat(a.proprietary, b.proprietary) {
        Some(
            GlobalV {
                tx_version: a.tx_version,
                version_group_id: a.version_group_id,
                consensus_branch_id: a.consensus_branch_id,
                lock_time: a.lock_time,
                expiry_height: a.expiry_height,
                proprietary: map_union(a.proprietary, b.proprietary),
            },
        )
    } else {
        None
    }
}

impl Global {
    /// The proprietary table is canonically sorted.
    pub open spec fn wf(&self) -> bool {
        map_wf(self@.proprietary)
    }

    /// Copies this global record.
    pub fn clone_global(&self) -> (r: Global)
        ensures
            r@ == self@,
    {
        Global {
            tx_version: self.tx_version,
            version_group_id: self.version_group_id,
            consensus_branch_id: self.consensus_branch_id,
            lock_time: self.lock_time,
            expiry_height: self.expiry_height,
            proprietary: self.proprietary.clone_map(),
        }
    }

    /// Reconciles this global record with another copy of it; `None` reports
    /// an irreconcilable conflict.
    pub fn merge(&self, other: &Global) -> (r: Option<Global>)
        requires
            self.wf(),
            other.wf(),
        ensures
            r is Some <==> spec_merge_global(self@, other@) is Some,
            r is Some ==> r.unwrap()@ == spec_merge_global(self@, other@).unwrap()
                && r.unwrap().wf(),
    {
        if self.tx_version != other.tx_version || self.version_group_id != other.version_group_id
            || self.consensus_branch_id != other.consensus_branch_id || self.lock_time
            != other.lock_time || self.expiry_height != other.expiry_height {
            return None;
        }
        match self.proprietary.merged_with(&other.proprietary) {
            Some(m) => Some(
                Global {
                    tx_version: self.tx_version,
                    version_group_id: self.version_group_id,
                    consensus_branch_id: self.consensus_branch_id,
                    lock_time: self.lock_time,
                    expiry_height: self.expiry_height,
                    proprietary: m,
                },
            ),
            None => None,
        }
    }
}

} // verus!

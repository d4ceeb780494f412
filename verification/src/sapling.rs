//! The Sapling shielded value pool.
//!
//! A Sapling bundle accumulates spends and outputs together with a running
//! value balance, and is frozen by the IO Finalizer writing the
//! binding-signature signing key (`bsk`). Before the freeze two copies may
//! hold different numbers of records and the longer side's extra trailing
//! records are adopted, with the value balance adjusted by the adopted
//! amounts; after the freeze the record counts and the balance are immutable
//! and must match exactly.

use vstd::prelude::*;

use crate::bytemap::{map_compat, map_union, map_wf, ByteMap};
use crate::bytes::{
    bytes_eq, clone_bytes, clone_opt_bytes, merge_opt_bytes, merge_opt_u64, opt_compat, opt_merge,
    ovb,
};
use crate::common::{
    merge_opt_pgk, merge_opt_witness, merge_opt_zip, opt_pgkv_wf, opt_witnessv_wf, opt_zipv_wf,
    ovp, ovw, ovz, MerkleWitness, PgkV, ProofGenerationKey, WitnessV, Zip32Derivation, ZipV,
};
use crate::crypto::{
    check_bls_scalar, check_jubjub_scalar, check_sapling_ak, check_sapling_recipient,
    is_bls_scalar, is_jubjub_scalar, is_sapling_ak, is_sapling_recipient,
};
use crate::transparent::seq_view;

verus! {

/// The length of a Groth16 proof encoding.
pub const GROTH_PROOF_SIZE: usize = 192;

/// Whether an optional byte string, when present, has the given length.
pub open spec fn opt_len(a: Option<Seq<u8>>, n: int) -> bool {
    match a {
        Some(v) => v.len() == n,
        None => true,
    }
}

/// A Sapling note being spent.
#[derive(Clone)]
pub struct Spend {
    /// The value commitment for this spend (32 bytes), fixed at construction.
    pub cv: Vec<u8>,
    /// The nullifier revealed by this spend (32 bytes), fixed at construction.
    pub nullifier: Vec<u8>,
    /// The randomized spend-validating key (32 bytes), fixed at construction.
    pub rk: Vec<u8>,
    /// The zero-knowledge spend proof, set by the Prover.
    pub zkproof: Option<Vec<u8>>,
    /// The spend-authorization signature, set by the Signer.
    pub spend_auth_sig: Option<Vec<u8>>,
    /// The address that received the note being spent (43 bytes).
    pub recipient: Option<Vec<u8>>,
    /// The value of the note being spent.
    pub value: Option<u64>,
    /// The seed randomness of the note being spent (32 bytes).
    pub rseed: Option<Vec<u8>>,
    /// The value-commitment trapdoor (32 bytes); the IO Finalizer folds it
    /// into the bundle's binding-signature key.
    pub rcv: Option<Vec<u8>>,
    /// The proof-generation key, needed by the Prover.
    pub proof_generation_key: Option<ProofGenerationKey>,
    /// The merkle path from the note commitment to the bundle anchor.
    pub witness: Option<MerkleWitness>,
    /// The spend-authorization randomizer (32 bytes), needed by the Signer.
    pub alpha: Option<Vec<u8>>,
    /// Where the spending key can be derived, treated as opaque.
    pub zip32_derivation: Option<Zip32Derivation>,
    /// Application-specific key-value data.
    pub proprietary: ByteMap,
}

/// The abstract value of a Sapling [`Spend`].
pub ghost struct SpendV {
    pub cv: Seq<u8>,
    pub nullifier: Seq<u8>,
    pub rk: Seq<u8>,
    pub zkproof: Option<Seq<u8>>,
    pub spend_auth_sig: Option<Seq<u8>>,
    pub recipient: Option<Seq<u8>>,
    pub value: Option<u64>,
    pub rseed: Option<Seq<u8>>,
    pub rcv: Option<Seq<u8>>,
    pub proof_generation_key: Option<PgkV>,
    pub witness: Option<WitnessV>,
    pub alpha: Option<Seq<u8>>,
    pub zip32_derivation: Option<ZipV>,
    pub proprietary: Seq<(Seq<u8>, Seq<u8>)>,
}

impl View for Spend {
    type V = SpendV;

    open spec fn view(&self) -> SpendV {
        SpendV {
            cv: self.cv@,
            nullifier: self.nullifier@,
            rk: self.rk@,
            zkproof: ovb(self.zkproof),
            spend_auth_sig: ovb(self.spend_auth_sig),
            recipient: ovb(self.recipient),
            value: self.value,
            rseed: ovb(self.rseed),
            rcv: ovb(self.rcv),
            proof_generation_key: ovp(self.proof_generation_key),
            witness: ovw(self.witness),
            alpha: ovb(self.alpha),
            zip32_derivation: ovz(self.zip32_derivation),
            proprietary: self.proprietary@,
        }
    }
}

/// Well-formedness of a Sapling spend: every fixed-length field has its
/// length and the proprietary table is canonically sorted.
pub open spec fn spend_wf(s: SpendV) -> bool {
    s.cv.len() == 32 && s.nullifier.len() == 32 && s.rk.len() == 32 && opt_len(
        s.zkproof,
        GROTH_PROOF_SIZE as int,
    ) && opt_len(s.spend_auth_sig, 64) && opt_len(s.recipient, 43) && opt_len(s.rseed, 32)
        && opt_len(s.rcv, 32) && opt_pgkv_wf(s.proof_generation_key) && opt_witnessv_wf(s.witness)
        && opt_len(s.alpha, 32) && opt_zipv_wf(s.zip32_derivation) && map_wf(s.proprietary)
}

/// The reconciliation of two spends describing the same note: the fields
/// fixed at construction must be identical, every optional field reconciles
/// by presence, and the proprietary table merges by key-wise union.
pub open spec fn spec_merge_spend(a: SpendV, b: SpendV) -> Option<SpendV> {
    if a.cv == b.cv && a.nullifier == b.nullifier && a.rk == b.rk && opt_compat(
        a.zkproof,
        b.zkproof,
    ) && opt_compat(a.spend_auth_sig, b.spend_auth_sig) && opt_compat(a.recipient, b.recipient)
        && opt_compat(a.value, b.value) && opt_compat(a.rseed, b.rseed) && opt_compat(a.rcv, b.rcv)
        && opt_compat(a.proof_generation_key, b.proof_generation_key) && opt_compat(
        a.witness,
        b.witness,
    ) && opt_compat(a.alpha, b.alpha) && opt_compat(a.zip32_derivation, b.zip32_derivation)
        && map_compat(a.proprietary, b.proprietary) {
        Some(
            SpendV {
                zkproof: opt_merge(a.zkproof, b.zkproof),
                spend_auth_sig: opt_merge(a.spend_auth_sig, b.spend_auth_sig),
                recipient: opt_merge(a.recipient, b.recipient),
                value: opt_merge(a.value, b.value),
                rseed: opt_merge(a.rseed, b.rseed),
                rcv: opt_merge(a.rcv, b.rcv),
                proof_generation_key: opt_merge(a.proof_generation_key, b.proof_generation_key),
                witness: opt_merge(a.witness, b.witness),
                alpha: opt_merge(a.alpha, b.alpha),
                zip32_derivation: opt_merge(a.zip32_derivation, b.zip32_derivation),
                proprietary: map_union(a.proprietary, b.proprietary),
                ..a
            },
        )
    } else {
        None
    }
}

impl Spend {
    /// Copies this spend.
    pub fn clone_spend(&self) -> (r: Spend)
        ensures
            r@ == self@,
    {
        Spend {
            cv: clone_bytes(&self.cv),
            nullifier: clone_bytes(&self.nullifier),
            rk: clone_bytes(&self.rk),
            zkproof: clone_opt_bytes(&self.zkproof),
            spend_auth_sig: clone_opt_bytes(&self.spend_auth_sig),
            recipient: clone_opt_bytes(&self.recipient),
            value: self.value,
            rseed: clone_opt_bytes(&self.rseed),
            rcv: clone_opt_bytes(&self.rcv),
            proof_generation_key: match &self.proof_generation_key {
                Some(p) => Some(p.clone_pgk()),
                None => None,
            },
            witness: match &self.witness {
                Some(w) => Some(w.clone_witness()),
                None => None,
            },
            alpha: clone_opt_bytes(&self.alpha),
            zip32_derivation: match &self.zip32_derivation {
                Some(z) => Some(z.clone_zip()),
                None => None,
            },
            proprietary: self.proprietary.clone_map(),
        }
    }

    /// Reconciles this spend with another copy of it.
    pub fn merge_spend(&self, other: &Spend) -> (r: Option<Spend>)
        requires
            spend_wf(self@),
            spend_wf(other@),
        ensures
            r is Some <==> spec_merge_spend(self@, other@) is Some,
            r is Some ==> r.unwrap()@ == spec_merge_spend(self@, other@).unwrap() && spend_wf(
                r.unwrap()@,
            ),
    {
        if !(bytes_eq(&self.cv, &other.cv) && bytes_eq(&self.nullifier, &other.nullifier)
            && bytes_eq(&self.rk, &other.rk)) {
            return None;
        }
        let zkproof = match merge_opt_bytes(&self.zkproof, &other.zkproof) {
            Some(v) => v,
            None => {
                return None;
            },
        };
        let spend_auth_sig = match merge_opt_bytes(&self.spend_auth_sig, &other.spend_auth_sig) {
            Some(v) => v,
            None => {
                return None;
            },
        };
        let recipient = match merge_opt_bytes(&self.recipient, &other.recipient) {
            Some(v) => v,
            None => {
                return None;
            },
        };
        let value = match merge_opt_u64(&self.value, &other.value) {
            Some(v) => v,
            None => {
                return None;
            },
        };
        let rseed = match merge_opt_bytes(&self.rseed, &other.rseed) {
            Some(v) => v,
            None => {
                return None;
            },
        };
        let rcv = match merge_opt_bytes(&self.rcv, &other.rcv) {
            Some(v) => v,
            None => {
                return None;
            },
        };
        let proof_generation_key = match merge_opt_pgk(
            &self.proof_generation_key,
            &other.proof_generation_key,
        ) {
            Some(v) => v,
            None => {
                return None;
            },
        };
        let witness = match merge_opt_witness(&self.witness, &other.witness) {
            Some(v) => v,
            None => {
                return None;
            },
        };
        let alpha = match merge_opt_bytes(&self.alpha, &other.alpha) {
            Some(v) => v,
            None => {
                return None;
            },
        };
        let zip32_derivation = match merge_opt_zip(&self.zip32_derivation, &other.zip32_derivation)
            {
            Some(v) => v,
            None => {
                return None;
            },
        };
        let proprietary = match self.proprietary.merged_with(&other.proprietary) {
            Some(v) => v,
            None => {
                return None;
            },
        };
        Some(
            Spend {
                cv: clone_bytes(&self.cv),
                nullifier: clone_bytes(&self.nullifier),
                rk: clone_bytes(&self.rk),
                zkproof,
                spend_auth_sig,
                recipient,
                value,
                rseed,
                rcv,
                proof_generation_key,
                witness,
                alpha,
                zip32_derivation,
                proprietary,
            },
        )
    }
}

/// A Sapling note being created.
#[derive(Clone)]
pub struct Output {
    /// The value commitment for this output (32 bytes), fixed at
    /// construction.
    pub cv: Vec<u8>,
    /// The note commitment (32 bytes), fixed at construction.
    pub cmu: Vec<u8>,
    /// The ephemeral key for note encryption (32 bytes), fixed at
    /// construction.
    pub ephemeral_key: Vec<u8>,
    /// The encrypted note plaintext, fixed at construction.
    pub enc_ciphertext: Vec<u8>,
    /// The encrypted recovery data, fixed at construction.
    pub out_ciphertext: Vec<u8>,
    /// The zero-knowledge output proof, set by the Prover.
    pub zkproof: Option<Vec<u8>>,
    /// The address that will receive the output (43 bytes).
    pub recipient: Option<Vec<u8>>,
    /// The value of the output.
    pub value: Option<u64>,
    /// The seed randomness of the output (32 bytes).
    pub rseed: Option<Vec<u8>>,
    /// The value-commitment trapdoor (32 bytes); the IO Finalizer folds it
    /// into the bundle's binding-signature key.
    pub rcv: Option<Vec<u8>>,
    /// The symmetric secret that encrypted `enc_ciphertext` (32 bytes).
    pub shared_secret: Option<Vec<u8>>,
    /// The key that encrypted `out_ciphertext` (32 bytes).
    pub ock: Option<Vec<u8>>,
    /// Where the spending key can be derived, treated as opaque.
    pub zip32_derivation: Option<Zip32Derivation>,
    /// Application-specific key-value data.
    pub proprietary: ByteMap,
}

/// The abstract value of a Sapling [`Output`].
pub ghost struct OutputV {
    pub cv: Seq<u8>,
    pub cmu: Seq<u8>,
    pub ephemeral_key: Seq<u8>,
    pub enc_ciphertext: Seq<u8>,
    pub out_ciphertext: Seq<u8>,
    pub zkproof: Option<Seq<u8>>,
    pub recipient: Option<Seq<u8>>,
    pub value: Option<u64>,
    pub rseed: Option<Seq<u8>>,
    pub rcv: Option<Seq<u8>>,
    pub shared_secret: Option<Seq<u8>>,
    pub ock: Option<Seq<u8>>,
    pub zip32_derivation: Option<ZipV>,
    pub proprietary: Seq<(Seq<u8>, Seq<u8>)>,
}

impl View for Output {
    type V = OutputV;

    open spec fn view(&self) -> OutputV {
        OutputV {
            cv: self.cv@,
            cmu: self.cmu@,
            ephemeral_key: self.ephemeral_key@,
            enc_ciphertext: self.enc_ciphertext@,
            out_ciphertext: self.out_ciphertext@,
            zkproof: ovb(self.zkproof),
            recipient: ovb(self.recipient),
            value: self.value,
            rseed: ovb(self.rseed),
            rcv: ovb(self.rcv),
            shared_secret: ovb(self.shared_secret),
            ock: ovb(self.ock),
            zip32_derivation: ovz(self.zip32_derivation),
            proprietary: self.proprietary@,
        }
    }
}

/// Well-formedness of a Sapling output.
pub open spec fn output_wf(o: OutputV) -> bool {
    o.cv.len() == 32 && o.cmu.len() == 32 && o.ephemeral_key.len() == 32 && opt_len(
        o.zkproof,
        GROTH_PROOF_SIZE as int,
    ) && opt_len(o.recipient, 43) && opt_len(o.rseed, 32) && opt_len(o.rcv, 32) && opt_len(
        o.shared_secret,
        32,
    ) && opt_len(o.ock, 32) && opt_zipv_wf(o.zip32_derivation) && map_wf(o.proprietary)
}

/// The reconciliation of two outputs describing the same note.
pub open spec fn spec_merge_output(a: OutputV, b: OutputV) -> Option<OutputV> {
    if a.cv == b.cv && a.cmu == b.cmu && a.ephemeral_key == b.ephemeral_key && a.enc_ciphertext
        == b.enc_ciphertext && a.out_ciphertext == b.out_ciphertext && opt_compat(
        a.zkproof,
        b.zkproof,
    ) && opt_compat(a.recipient, b.recipient) && opt_compat(a.value, b.value) && opt_compat(
        a.rseed,
        b.rseed,
    ) && opt_compat(a.rcv, b.rcv) && opt_compat(a.shared_secret, b.shared_secret) && opt_compat(
        a.ock,
        b.ock,
    ) && opt_compat(a.zip32_derivation, b.zip32_derivation) && map_compat(
        a.proprietary,
        b.proprietary,
    ) {
        Some(
            OutputV {
                zkproof: opt_merge(a.zkproof, b.zkproof),
                recipient: opt_merge(a.recipient, b.recipient),
                value: opt_merge(a.value, b.value),
                rseed: opt_merge(a.rseed, b.rseed),
                rcv: opt_merge(a.rcv, b.rcv),
                shared_secret: opt_merge(a.shared_secret, b.shared_secret),
                ock: opt_merge(a.ock, b.ock),
                zip32_derivation: opt_merge(a.zip32_derivation, b.zip32_derivation),
                proprietary: map_union(a.proprietary, b.proprietary),
                ..a
            },
        )
    } else {
        None
    }
}

impl Output {
    /// Copies this output.
    pub fn clone_output(&self) -> (r: Output)
        ensures
            r@ == self@,
    {
        Output {
            cv: clone_bytes(&self.cv),
            cmu: clone_bytes(&self.cmu),
            ephemeral_key: clone_bytes(&self.ephemeral_key),
            enc_ciphertext: clone_bytes(&self.enc_ciphertext),
            out_ciphertext: clone_bytes(&self.out_ciphertext),
            zkproof: clone_opt_bytes(&self.zkproof),
            recipient: clone_opt_bytes(&self.recipient),
            value: self.value,
            rseed: clone_opt_bytes(&self.rseed),
            rcv: clone_opt_bytes(&self.rcv),
            shared_secret: clone_opt_bytes(&self.shared_secret),
            ock: clone_opt_bytes(&self.ock),
            zip32_derivation: match &self.zip32_derivation {
                Some(z) => Some(z.clone_zip()),
                None => None,
            },
            proprietary: self.proprietary.clone_map(),
        }
    }

    /// Reconciles this output with another copy of it.
    pub fn merge_output(&self, other: &Output) -> (r: Option<Output>)
        requires
            output_wf(self@),
            output_wf(other@),
        ensures
            r is Some <==> spec_merge_output(self@, other@) is Some,
            r is Some ==> r.unwrap()@ == spec_merge_output(self@, other@).unwrap() && output_wf(
                r.unwrap()@,
            ),
    {
        if !(bytes_eq(&self.cv, &other.cv) && bytes_eq(&self.cmu, &other.cmu) && bytes_eq(
            &self.ephemeral_key,
            &other.ephemeral_key,
        ) && bytes_eq(&self.enc_ciphertext, &other.enc_ciphertext) && bytes_eq(
            &self.out_ciphertext,
            &other.out_ciphertext,
        )) {
            return None;
        }
        let zkproof = match merge_opt_bytes(&self.zkproof, &other.zkproof) {
            Some(v) => v,
            None => {
                return None;
            },
        };
        let recipient = match merge_opt_bytes(&self.recipient, &other.recipient) {
            Some(v) => v,
            None => {
                return None;
            },
        };
        let value = match merge_opt_u64(&self.value, &other.value) {
            Some(v) => v,
            None => {
                return None;
            },
        };
        let rseed = match merge_opt_bytes(&self.rseed, &other.rseed) {
            Some(v) => v,
            None => {
                return None;
            },
        };
        let rcv = match merge_opt_bytes(&self.rcv, &other.rcv) {
            Some(v) => v,
            None => {
                return None;
            },
        };
        let shared_secret = match merge_opt_bytes(&self.shared_secret, &other.shared_secret) {
            Some(v) => v,
            None => {
                return None;
            },
        };
        let ock = match merge_opt_bytes(&self.ock, &other.ock) {
            Some(v) => v,
            None => {
                return None;
            },
        };
        let zip32_derivation = match merge_opt_zip(&self.zip32_derivation, &other.zip32_derivation)
            {
            Some(v) => v,
            None => {
                return None;
            },
        };
        let proprietary = match self.proprietary.merged_with(&other.proprietary) {
            Some(v) => v,
            None => {
                return None;
            },
        };
        Some(
            Output {
                cv: clone_bytes(&self.cv),
                cmu: clone_bytes(&self.cmu),
                ephemeral_key: clone_bytes(&self.ephemeral_key),
                enc_ciphertext: clone_bytes(&self.enc_ciphertext),
                out_ciphertext: clone_bytes(&self.out_ciphertext),
                zkproof,
                recipient,
                value,
                rseed,
                rcv,
                shared_secret,
                ock,
                zip32_derivation,
                proprietary,
            },
        )
    }
}

/// The value of a spend, counting an absent value as zero. The predicates
/// below require presence wherever a sum is relied upon.
pub open spec fn spend_amount(s: SpendV) -> int {
    match s.value {
        Some(v) => v as int,
        None => 0,
    }
}

/// The value of an output, counting an absent value as zero.
pub open spec fn output_amount(o: OutputV) -> int {
    match o.value {
        Some(v) => v as int,
        None => 0,
    }
}

/// Whether every spend in a list still carries its value field.
pub open spec fn spend_values_present(s: Seq<SpendV>) -> bool {
    forall|i: int| 0 <= i < s.len() ==> (#[trigger] s[i]).value is Some
}

/// Whether every output in a list still carries its value field.
pub open spec fn output_values_present(s: Seq<OutputV>) -> bool {
    forall|i: int| 0 <= i < s.len() ==> (#[trigger] s[i]).value is Some
}

/// The sum of the values spent by a list of spends.
pub open spec fn sum_spend_values(s: Seq<SpendV>) -> int
    decreases s.len(),
{
    if s.len() == 0 {
        0
    } else {
        sum_spend_values(s.drop_last()) + spend_amount(s.last())
    }
}

/// The sum of the values created by a list of outputs.
pub open spec fn sum_output_values(s: Seq<OutputV>) -> int
    decreases s.len(),
{
    if s.len() == 0 {
        0
    } else {
        sum_output_values(s.drop_last()) + output_amount(s.last())
    }
}

/// A step of the spend-value sum: extending a prefix by one record.
pub proof fn lemma_sum_spend_take(s: Seq<SpendV>, k: int)
    requires
        0 <= k < s.len(),
    ensures
        sum_spend_values(s.take(k + 1)) == sum_spend_values(s.take(k)) + spend_amount(s[k]),
{
    assert(s.take(k + 1).drop_last() =~= s.take(k));
    assert(s.take(k + 1).last() == s[k]);
}

/// A step of the output-value sum: extending a prefix by one record.
pub proof fn lemma_sum_output_take(s: Seq<OutputV>, k: int)
    requires
        0 <= k < s.len(),
    ensures
        sum_output_values(s.take(k + 1)) == sum_output_values(s.take(k)) + output_amount(s[k]),
{
    assert(s.take(k + 1).drop_last() =~= s.take(k));
    assert(s.take(k + 1).last() == s[k]);
}

/// Prefix sums of spend values never exceed the whole sum.
pub proof fn lemma_sum_spend_mono(s: Seq<SpendV>, k: int)
    requires
        0 <= k <= s.len(),
    ensures
        sum_spend_values(s.take(k)) <= sum_spend_values(s),
    decreases s.len() - k,
{
    if k == s.len() {
        assert(s.take(k) =~= s);
    } else {
        lemma_sum_spend_take(s, k);
        lemma_sum_spend_mono(s, k + 1);
    }
}

/// Prefix sums of output values never exceed the whole sum.
pub proof fn lemma_sum_output_mono(s: Seq<OutputV>, k: int)
    requires
        0 <= k <= s.len(),
    ensures
        sum_output_values(s.take(k)) <= sum_output_values(s),
    decreases s.len() - k,
{
    if k == s.len() {
        assert(s.take(k) =~= s);
    } else {
        lemma_sum_output_take(s, k);
        lemma_sum_output_mono(s, k + 1);
    }
}

/// Record-by-record reconciliation of two spend lists.
pub open spec fn zip_merge_spends(a: Seq<SpendV>, b: Seq<SpendV>) -> Option<Seq<SpendV>> {
    let n = if a.len() <= b.len() {
        a.len() as int
    } else {
        b.len() as int
    };
    if forall|i: int| 0 <= i < n ==> (#[trigger] spec_merge_spend(a[i], b[i])) is Some {
        Some(
            Seq::new(n as nat, |i: int| spec_merge_spend(a[i], b[i]).unwrap()) + if a.len()
                >= b.len() {
                a.skip(n)
            } else {
                b.skip(n)
            },
        )
    } else {
        None
    }
}

/// Record-by-record reconciliation of two output lists.
pub open spec fn zip_merge_outputs(a: Seq<OutputV>, b: Seq<OutputV>) -> Option<Seq<OutputV>> {
    let n = if a.len() <= b.len() {
        a.len() as int
    } else {
        b.len() as int
    };
    if forall|i: int| 0 <= i < n ==> (#[trigger] spec_merge_output(a[i], b[i])) is Some {
        Some(
            Seq::new(n as nat, |i: int| spec_merge_output(a[i], b[i]).unwrap()) + if a.len()
                >= b.len() {
                a.skip(n)
            } else {
                b.skip(n)
            },
        )
    } else {
        None
    }
}

/// The Sapling bundle: the records appended so far, the running value
/// balance, the anchor all spends prove against, and the binding-signature
/// key once the bundle is frozen.
#[derive(Clone)]
pub struct Bundle {
    pub spends: Vec<Spend>,
    pub outputs: Vec<Output>,
    /// The net value of spends minus outputs, kept in step with the record
    /// lists by every operation that touches them.
    pub value_balance: u64,
    /// The anchor (32 bytes) fixed by the Creator for the lifetime of the
    /// transaction.
    pub anchor: Vec<u8>,
    /// The binding-signature signing key (32 bytes). `None` until the IO
    /// Finalizer runs; its presence freezes the record counts and balance.
    pub bsk: Option<Vec<u8>>,
}

/// The abstract value of a Sapling [`Bundle`].
pub ghost struct BundleV {
    pub spends: Seq<SpendV>,
    pub outputs: Seq<OutputV>,
    pub value_balance: u64,
    pub anchor: Seq<u8>,
    pub bsk: Option<Seq<u8>>,
}

impl View for Bundle {
    type V = BundleV;

    open spec fn view(&self) -> BundleV {
        BundleV {
            spends: seq_view(self.spends@),
            outputs: seq_view(self.outputs@),
            value_balance: self.value_balance,
            anchor: self.anchor@,
            bsk: ovb(self.bsk),
        }
    }
}

/// Well-formedness of a Sapling bundle.
pub open spec fn sapling_wf(a: BundleV) -> bool {
    a.anchor.len() == 32 && opt_len(a.bsk, 32) && (forall|i: int|
        0 <= i < a.spends.len() ==> spend_wf(#[trigger] a.spends[i])) && (forall|i: int|
        0 <= i < a.outputs.len() ==> output_wf(#[trigger] a.outputs[i]))
}

/// The extra trailing spends that a reconciliation of `a` with `b` adopts
/// from `b`.
pub open spec fn adopted_spends(a: BundleV, b: BundleV) -> Seq<SpendV> {
    if b.spends.len() > a.spends.len() {
        b.spends.skip(a.spends.len() as int)
    } else {
        Seq::empty()
    }
}

/// The extra trailing outputs that a reconciliation of `a` with `b` adopts
/// from `b`.
pub open spec fn adopted_outputs(a: BundleV, b: BundleV) -> Seq<OutputV> {
    if b.outputs.len() > a.outputs.len() {
        b.outputs.skip(a.outputs.len() as int)
    } else {
        Seq::empty()
    }
}

/// The value balance after a reconciliation: the left balance adjusted by
/// the adopted records' values.
pub open spec fn merged_balance(a: BundleV, b: BundleV) -> int {
    a.value_balance + sum_spend_values(adopted_spends(a, b)) - sum_output_values(
        adopted_outputs(a, b),
    )
}

/// The reconciliation of two Sapling bundles. Once either side is frozen
/// (`bsk` present) the record counts and balance must already match; before
/// the freeze the longer side's extra records are adopted and the balance is
/// adjusted by their values, which must therefore still be present. The
/// adjustment must stay within the balance accumulator's range.
pub open spec fn spec_merge_sapling(a: BundleV, b: BundleV) -> Option<BundleV> {
    if a.anchor == b.anchor && opt_compat(a.bsk, b.bsk) && ((a.bsk is Some || b.bsk is Some) ==> (
    a.spends.len() == b.spends.len() && a.outputs.len() == b.outputs.len() && a.value_balance
        == b.value_balance)) && zip_merge_spends(a.spends, b.spends) is Some && zip_merge_outputs(
        a.outputs,
        b.outputs,
    ) is Some && spend_values_present(adopted_spends(a, b)) && output_values_present(
        adopted_outputs(a, b),
    ) && a.value_balance + sum_spend_values(adopted_spends(a, b)) <= u64::MAX && merged_balance(
        a,
        b,
    ) >= 0 {
        Some(
            BundleV {
                spends: zip_merge_spends(a.spends, b.spends).unwrap(),
                outputs: zip_merge_outputs(a.outputs, b.outputs).unwrap(),
                value_balance: merged_balance(a, b) as u64,
                anchor: a.anchor,
                bsk: opt_merge(a.bsk, b.bsk),
            },
        )
    } else {
        None
    }
}

impl Bundle {
    /// The well-formedness of this bundle.
    pub open spec fn wf(&self) -> bool {
        sapling_wf(self@)
    }

    /// Reconciles this bundle with another copy of it; `None` reports an
    /// irreconcilable conflict.
    #[verifier::loop_isolation(false)]
    pub fn merge(&self, other: &Bundle) -> (r: Option<Bundle>)
        requires
            self.wf(),
            other.wf(),
        ensures
            r is Some <==> spec_merge_sapling(self@, other@) is Some,
            r is Some ==> r.unwrap()@ == spec_merge_sapling(self@, other@).unwrap()
                && r.unwrap().wf(),
    {
        let ghost av = self@;
        let ghost bv = other@;
        let bsk = match merge_opt_bytes(&self.bsk, &other.bsk) {
            Some(v) => v,
            None => {
                return None;
            },
        };
        if self.bsk.is_some() || other.bsk.is_some() {
            if self.spends.len() != other.spends.len() || self.outputs.len() != other.outputs.len()
                || self.value_balance != other.value_balance {
                return None;
            }
        }
        if !bytes_eq(&self.anchor, &other.anchor) {
            return None;
        }
        let mut vb: u64 = self.value_balance;
        let sp_min: usize = if self.spends.len() <= other.spends.len() {
            self.spends.len()
        } else {
            other.spends.len()
        };
        let mut spends: Vec<Spend> = Vec::new();
        let mut i: usize = 0;
        while i < sp_min
            invariant
                0 <= i <= sp_min,
                spends@.len() == i,
                forall|k: int|
                    0 <= k < i ==> (#[trigger] spec_merge_spend(av.spends[k], bv.spends[k]))
                        is Some,
                forall|k: int|
                    0 <= k < i ==> (#[trigger] spends@[k])@ == spec_merge_spend(
                        av.spends[k],
                        bv.spends[k],
                    ).unwrap(),
                forall|k: int| 0 <= k < i ==> spend_wf((#[trigger] spends@[k])@),
            decreases sp_min - i,
        {
            match self.spends[i].merge_spend(&other.spends[i]) {
                Some(m) => {
                    spends.push(m);
                },
                None => {
                    proof {
                        assert(spec_merge_spend(av.spends[i as int], bv.spends[i as int])
                            is None);
                        assert(zip_merge_spends(av.spends, bv.spends) is None);
                    }
                    return None;
                },
            }
            i += 1;
        }
        let ghost adopted_sp = adopted_spends(av, bv);
        if self.spends.len() > sp_min {
            let n: usize = self.spends.len();
            let mut k: usize = sp_min;
            while k < n
                invariant
                    sp_min <= k <= n,
                    spends@.len() == k,
                    forall|x: int|
                        0 <= x < sp_min ==> (#[trigger] spends@[x])@ == spec_merge_spend(
                            av.spends[x],
                            bv.spends[x],
                        ).unwrap(),
                    forall|x: int| sp_min <= x < k ==> (#[trigger] spends@[x])@ == av.spends[x],
                    forall|x: int| 0 <= x < k ==> spend_wf((#[trigger] spends@[x])@),
                decreases n - k,
            {
                proof {
                    assert(av.spends[k as int] == self.spends@[k as int]@);
                }
                spends.push(self.spends[k].clone_spend());
                k += 1;
            }
        } else if other.spends.len() > sp_min {
            let n: usize = other.spends.len();
            let mut k: usize = sp_min;
            proof {
                assert(adopted_sp =~= bv.spends.skip(sp_min as int));
                assert(adopted_sp.take(0) =~= Seq::<SpendV>::empty());
            }
            while k < n
                invariant
                    sp_min <= k <= n,
                    spends@.len() == k,
                    vb as int == av.value_balance + sum_spend_values(
                        adopted_sp.take(k - sp_min as int),
                    ),
                    forall|x: int|
                        0 <= x < sp_min ==> (#[trigger] spends@[x])@ == spec_merge_spend(
                            av.spends[x],
                            bv.spends[x],
                        ).unwrap(),
                    forall|x: int| sp_min <= x < k ==> (#[trigger] spends@[x])@ == bv.spends[x],
                    forall|x: int| 0 <= x < k ==> spend_wf((#[trigger] spends@[x])@),
                    forall|x: int|
                        0 <= x < k - sp_min ==> (#[trigger] adopted_sp[x]).value is Some,
                decreases n - k,
            {
                let ghost kk = k - sp_min as int;
                proof {
                    assert(bv.spends[k as int] == other.spends@[k as int]@);
                    assert(adopted_sp[kk] == bv.spends[k as int]);
                    lemma_sum_spend_take(adopted_sp, kk);
                }
                let v = match &other.spends[k].value {
                    Some(v) => *v,
                    None => {
                        proof {
                            assert(!spend_values_present(adopted_sp));
                        }
                        return None;
                    },
                };
                vb = match vb.checked_add(v) {
                    Some(nv) => nv,
                    None => {
                        proof {
                            lemma_sum_spend_mono(adopted_sp, kk + 1);
                            assert(av.value_balance + sum_spend_values(adopted_sp) > u64::MAX);
                        }
                        return None;
                    },
                };
                spends.push(other.spends[k].clone_spend());
                k += 1;
            }
            proof {
                assert(adopted_sp.take(n - sp_min as int) =~= adopted_sp);
            }
        }
        proof {
            assert(seq_view(spends@) =~= zip_merge_spends(av.spends, bv.spends).unwrap());
            if adopted_spends(av, bv).len() == 0 {
                assert(vb as int == av.value_balance + sum_spend_values(adopted_spends(av, bv)));
            }
        }
        let out_min: usize = if self.outputs.len() <= other.outputs.len() {
            self.outputs.len()
        } else {
            other.outputs.len()
        };
        let mut outputs: Vec<Output> = Vec::new();
        let mut j: usize = 0;
        while j < out_min
            invariant
                0 <= j <= out_min,
                outputs@.len() == j,
                vb as int == av.value_balance + sum_spend_values(adopted_spends(av, bv)),
                forall|k: int|
                    0 <= k < j ==> (#[trigger] spec_merge_output(av.outputs[k], bv.outputs[k]))
                        is Some,
                forall|k: int|
                    0 <= k < j ==> (#[trigger] outputs@[k])@ == spec_merge_output(
                        av.outputs[k],
                        bv.outputs[k],
                    ).unwrap(),
                forall|k: int| 0 <= k < j ==> output_wf((#[trigger] outputs@[k])@),
            decreases out_min - j,
        {
            match self.outputs[j].merge_output(&other.outputs[j]) {
                Some(m) => {
                    outputs.push(m);
                },
                None => {
                    proof {
                        assert(spec_merge_output(av.outputs[j as int], bv.outputs[j as int])
                            is None);
                        assert(zip_merge_outputs(av.outputs, bv.outputs) is None);
                    }
                    return None;
                },
            }
            j += 1;
        }
        let ghost adopted_out = adopted_outputs(av, bv);
        if self.outputs.len() > out_min {
            let n: usize = self.outputs.len();
            let mut k: usize = out_min;
            while k < n
                invariant
                    out_min <= k <= n,
                    outputs@.len() == k,
                    forall|x: int|
                        0 <= x < out_min ==> (#[trigger] outputs@[x])@ == spec_merge_output(
                            av.outputs[x],
                            bv.outputs[x],
                        ).unwrap(),
                    forall|x: int| out_min <= x < k ==> (#[trigger] outputs@[x])@ == av.outputs[x],
                    forall|x: int| 0 <= x < k ==> output_wf((#[trigger] outputs@[x])@),
                decreases n - k,
            {
                proof {
                    assert(av.outputs[k as int] == self.outputs@[k as int]@);
                }
                outputs.push(self.outputs[k].clone_output());
                k += 1;
            }
        } else if other.outputs.len() > out_min {
            let n: usize = other.outputs.len();
            let mut k: usize = out_min;
            let ghost vb_mid = vb as int;
            proof {
                assert(adopted_out =~= bv.outputs.skip(out_min as int));
                assert(adopted_out.take(0) =~= Seq::<OutputV>::empty());
            }
            while k < n
                invariant
                    out_min <= k <= n,
                    outputs@.len() == k,
                    vb as int == vb_mid - sum_output_values(adopted_out.take(k - out_min as int)),
                    vb_mid == av.value_balance + sum_spend_values(adopted_spends(av, bv)),
                    forall|x: int|
                        0 <= x < out_min ==> (#[trigger] outputs@[x])@ == spec_merge_output(
                            av.outputs[x],
                            bv.outputs[x],
                        ).unwrap(),
                    forall|x: int| out_min <= x < k ==> (#[trigger] outputs@[x])@ == bv.outputs[x],
                    forall|x: int| 0 <= x < k ==> output_wf((#[trigger] outputs@[x])@),
                    forall|x: int|
                        0 <= x < k - out_min ==> (#[trigger] adopted_out[x]).value is Some,
                decreases n - k,
            {
                let ghost kk = k - out_min as int;
                proof {
                    assert(bv.outputs[k as int] == other.outputs@[k as int]@);
                    assert(adopted_out[kk] == bv.outputs[k as int]);
                    lemma_sum_output_take(adopted_out, kk);
                }
                let v = match &other.outputs[k].value {
                    Some(v) => *v,
                    None => {
                        proof {
                            assert(!output_values_present(adopted_out));
                        }
                        return None;
                    },
                };
                vb = match vb.checked_sub(v) {
                    Some(nv) => nv,
                    None => {
                        proof {
                            lemma_sum_output_mono(adopted_out, kk + 1);
                            assert(merged_balance(av, bv) < 0);
                        }
                        return None;
                    },
                };
                outputs.push(other.outputs[k].clone_output());
                k += 1;
            }
            proof {
                assert(adopted_out.take(n - out_min as int) =~= adopted_out);
            }
        }
        proof {
            assert(seq_view(outputs@) =~= zip_merge_outputs(av.outputs, bv.outputs).unwrap());
            if adopted_outputs(av, bv).len() == 0 {
                assert(vb as int == merged_balance(av, bv));
            }
        }
        proof {
            assert(spend_values_present(adopted_spends(av, bv))) by {
                if av.spends.len() >= bv.spends.len() {
                    assert(adopted_spends(av, bv) =~= Seq::<SpendV>::empty());
                }
            }
            assert(output_values_present(adopted_outputs(av, bv))) by {
                if av.outputs.len() >= bv.outputs.len() {
                    assert(adopted_outputs(av, bv) =~= Seq::<OutputV>::empty());
                }
            }
            assert(zip_merge_spends(av.spends, bv.spends) is Some);
            assert(zip_merge_outputs(av.outputs, bv.outputs) is Some);
            assert(spec_merge_sapling(av, bv) is Some);
        }
        let r = Bundle {
            spends,
            outputs,
            value_balance: vb,
            anchor: clone_bytes(&self.anchor),
            bsk,
        };
        proof {
            assert(r@ == spec_merge_sapling(av, bv).unwrap());
            assert(sapling_wf(r@));
        }
        Some(r)
    }
}


/// Failures while reducing a Sapling bundle to its final authorized form, or
/// while folding its trapdoors into the binding-signature key.
#[derive(Debug, PartialEq, Eq, Structural)]
pub enum Error {
    InvalidAnchor,
    InvalidEncCiphertext,
    InvalidExtractedNoteCommitment,
    InvalidOutCiphertext,
    InvalidProofGenerationKey,
    InvalidRandomizedKey,
    InvalidRecipient,
    InvalidSpendAuthRandomizer,
    InvalidValueBalance,
    InvalidValueCommitment,
    InvalidValueCommitTrapdoor,
    InvalidWitness,
    MissingProofGenerationKey,
    MissingRandomSeed,
    MissingRecipient,
    MissingSpendAuthRandomizer,
    MissingValue,
    MissingValueCommitTrapdoor,
    MissingWitness,
    MissingProof,
    MissingSpendAuthSignature,
    MissingBindingSignatureKey,
    InvalidBindingSignatureKey,
}


impl Spend {
    /// Returns the parts of the note being spent (recipient, value, seed),
    /// as the Prover consumes them. A present recipient that is not a valid
    /// address encoding is reported as invalid before any missing part is
    /// reported, so that absence and invalidity stay distinguishable.
    pub fn note_from_fields(&self) -> (r: Result<(Vec<u8>, u64, Vec<u8>), Error>)
        ensures
            r == Err::<(Vec<u8>, u64, Vec<u8>), Error>(Error::InvalidRecipient) <==> (
            self@.recipient matches Some(a) && !(a.len() == 43 && is_sapling_recipient(a))),
            r == Err::<(Vec<u8>, u64, Vec<u8>), Error>(Error::MissingRecipient) <==> self@.recipient
                is None,
            r == Err::<(Vec<u8>, u64, Vec<u8>), Error>(Error::MissingValue) <==> (
            self@.recipient matches Some(a) && a.len() == 43 && is_sapling_recipient(a)
                && self@.value is None),
            r == Err::<(Vec<u8>, u64, Vec<u8>), Error>(Error::MissingRandomSeed) <==> (
            self@.recipient matches Some(a) && a.len() == 43 && is_sapling_recipient(a)
                && self@.value is Some && self@.rseed is None),
            r matches Ok(parts) ==> (Some(parts.0@) == self@.recipient && Some(parts.1)
                == self@.value && Some(parts.2@) == self@.rseed),
            r is Ok <==> (self@.recipient matches Some(a) && a.len() == 43
                && is_sapling_recipient(a) && self@.value is Some && self@.rseed is Some),
    {
        if let Some(a) = &self.recipient {
            if !check_sapling_recipient(a) {
                return Err(Error::InvalidRecipient);
            }
        }
        let recipient = match &self.recipient {
            Some(v) => clone_bytes(v),
            None => {
                return Err(Error::MissingRecipient);
            },
        };
        let value = match &self.value {
            Some(v) => *v,
            None => {
                return Err(Error::MissingValue);
            },
        };
        let rseed = match &self.rseed {
            Some(v) => clone_bytes(v),
            None => {
                return Err(Error::MissingRandomSeed);
            },
        };
        Ok((recipient, value, rseed))
    }

    /// Returns the value-commitment trapdoor, which the IO Finalizer folds
    /// into the binding-signature key; a present trapdoor that is not a
    /// canonical scalar encoding is reported as invalid.
    pub fn rcv_from_field(&self) -> (r: Result<Vec<u8>, Error>)
        ensures
            r == Err::<Vec<u8>, Error>(Error::MissingValueCommitTrapdoor) <==> self@.rcv is None,
            r == Err::<Vec<u8>, Error>(Error::InvalidValueCommitTrapdoor) <==> (self@.rcv matches
                Some(t) && !(t.len() == 32 && is_jubjub_scalar(t))),
            r matches Ok(v) ==> Some(v@) == self@.rcv,
            r is Ok <==> (self@.rcv matches Some(t) && t.len() == 32 && is_jubjub_scalar(t)),
    {
        match &self.rcv {
            Some(v) => {
                if check_jubjub_scalar(v) {
                    Ok(clone_bytes(v))
                } else {
                    Err(Error::InvalidValueCommitTrapdoor)
                }
            },
            None => Err(Error::MissingValueCommitTrapdoor),
        }
    }

    /// Returns the merkle path from the note commitment to the bundle
    /// anchor, which the Prover needs; a present path with an element that
    /// is not a canonical node encoding is reported as invalid.
    #[verifier::loop_isolation(false)]
    pub fn witness_from_field(&self) -> (r: Result<MerkleWitness, Error>)
        ensures
            r == Err::<MerkleWitness, Error>(Error::MissingWitness) <==> self@.witness is None,
            r == Err::<MerkleWitness, Error>(Error::InvalidWitness) <==> (self@.witness matches
                Some(w) && !witness_path_canonical(w)),
            r matches Ok(w) ==> Some(w@) == self@.witness,
            r is Ok <==> (self@.witness matches Some(w) && witness_path_canonical(w)),
    {
        match &self.witness {
            Some(w) => {
                let n: usize = w.auth_path.len();
                let mut i: usize = 0;
                while i < n
                    invariant
                        n == w.auth_path@.len(),
                        0 <= i <= n,
                        forall|k: int|
                            0 <= k < i ==> ((#[trigger] w@.auth_path[k]).len() == 32
                                && is_bls_scalar(w@.auth_path[k])),
                    decreases n - i,
                {
                    if !check_bls_scalar(&w.auth_path[i]) {
                        proof {
                            assert(w@.auth_path[i as int] == w.auth_path@[i as int]@);
                            assert(!witness_path_canonical(w@));
                        }
                        return Err(Error::InvalidWitness);
                    }
                    i += 1;
                }
                Ok(w.clone_witness())
            },
            None => Err(Error::MissingWitness),
        }
    }

    /// Returns the spend-authorization randomizer, which the Signer needs;
    /// a present randomizer that is not a canonical scalar encoding is
    /// reported as invalid.
    pub fn alpha_from_field(&self) -> (r: Result<Vec<u8>, Error>)
        ensures
            r == Err::<Vec<u8>, Error>(Error::MissingSpendAuthRandomizer) <==> self@.alpha is None,
            r == Err::<Vec<u8>, Error>(Error::InvalidSpendAuthRandomizer) <==> (self@.alpha matches
                Some(a) && !(a.len() == 32 && is_jubjub_scalar(a))),
            r matches Ok(v) ==> Some(v@) == self@.alpha,
            r is Ok <==> (self@.alpha matches Some(a) && a.len() == 32 && is_jubjub_scalar(a)),
    {
        match &self.alpha {
            Some(v) => {
                if check_jubjub_scalar(v) {
                    Ok(clone_bytes(v))
                } else {
                    Err(Error::InvalidSpendAuthRandomizer)
                }
            },
            None => Err(Error::MissingSpendAuthRandomizer),
        }
    }

    /// Returns the proof-generation key, which the Prover needs; a present
    /// key whose spend-validating component is not a valid non-identity
    /// subgroup point, or whose secret component is not a canonical scalar,
    /// is reported as invalid.
    pub fn proof_generation_key_from_field(&self) -> (r: Result<ProofGenerationKey, Error>)
        ensures
            r == Err::<ProofGenerationKey, Error>(Error::MissingProofGenerationKey)
                <==> self@.proof_generation_key is None,
            r == Err::<ProofGenerationKey, Error>(Error::InvalidProofGenerationKey) <==> (
            self@.proof_generation_key matches Some(p) && !pgk_components_valid(p)),
            r matches Ok(p) ==> Some(p@) == self@.proof_generation_key,
            r is Ok <==> (self@.proof_generation_key matches Some(p) && pgk_components_valid(p)),
    {
        match &self.proof_generation_key {
            Some(p) => {
                if check_sapling_ak(&p.ak) && check_jubjub_scalar(&p.nsk) {
                    Ok(p.clone_pgk())
                } else {
                    Err(Error::InvalidProofGenerationKey)
                }
            },
            None => Err(Error::MissingProofGenerationKey),
        }
    }
}

/// Every element of a witness path is a canonical node encoding.
pub open spec fn witness_path_canonical(w: WitnessV) -> bool {
    forall|i: int|
        0 <= i < w.auth_path.len() ==> ((#[trigger] w.auth_path[i]).len() == 32 && is_bls_scalar(
            w.auth_path[i],
        ))
}

/// Both components of a proof-generation key decode: the spend-validating
/// part as a non-identity subgroup point, the secret part as a canonical
/// scalar.
pub open spec fn pgk_components_valid(p: PgkV) -> bool {
    p.ak.len() == 32 && is_sapling_ak(p.ak) && p.nsk.len() == 32 && is_jubjub_scalar(p.nsk)
}

impl Output {
    /// Returns the value-commitment trapdoor, which the IO Finalizer folds
    /// into the binding-signature key; a present trapdoor that is not a
    /// canonical scalar encoding is reported as invalid.
    pub fn rcv_from_field(&self) -> (r: Result<Vec<u8>, Error>)
        ensures
            r == Err::<Vec<u8>, Error>(Error::MissingValueCommitTrapdoor) <==> self@.rcv is None,
            r == Err::<Vec<u8>, Error>(Error::InvalidValueCommitTrapdoor) <==> (self@.rcv matches
                Some(t) && !(t.len() == 32 && is_jubjub_scalar(t))),
            r matches Ok(v) ==> Some(v@) == self@.rcv,
            r is Ok <==> (self@.rcv matches Some(t) && t.len() == 32 && is_jubjub_scalar(t)),
    {
        match &self.rcv {
            Some(v) => {
                if check_jubjub_scalar(v) {
                    Ok(clone_bytes(v))
                } else {
                    Err(Error::InvalidValueCommitTrapdoor)
                }
            },
            None => Err(Error::MissingValueCommitTrapdoor),
        }
    }
}

} // verus!

//! The Constructor role: appends spends and outputs to a document.
//!
//! Each append derives the record's value commitment from the supplied
//! trapdoor, freshly samples a spend-authorization randomizer where one is
//! needed, fills the required fields, pre-populates the private witness
//! fields that later roles consume, and updates the pool's running value
//! balance atomically with the append.

use vstd::prelude::*;

use crate::bytemap::ByteMap;
use crate::crypto::{
    fresh_jubjub_scalar, fresh_pallas_scalar, is_jubjub_scalar, is_orchard_fvk, is_orchard_note,
    is_orchard_recipient, is_orchard_rho, is_orchard_rseed, is_pallas_scalar, is_sapling_fvk,
    is_sapling_recipient, orchard_cmx_of, orchard_cv_of, orchard_derive_cmx, orchard_derive_cv,
    orchard_derive_nullifier, orchard_nf_of, orchard_randomize_ak, orchard_rk_of, sapling_cmu_of,
    sapling_cv_of, sapling_derive_cmu, sapling_derive_cv, sapling_derive_nullifier,
    sapling_nf_of, sapling_randomize_ak, sapling_rk_of,
};
use crate::{orchard, sapling, transparent, Pczt, PcztV};

verus! {

/// Appends records to a document on behalf of one party.
pub struct Constructor {
    pub pczt: Pczt,
}

/// Failures while appending to the Sapling pool.
#[derive(Debug, PartialEq, Eq, Structural)]
pub enum SaplingError {
    /// The running value balance would leave its representable range.
    BalanceViolation,
    /// The supplied trapdoor is not a canonical scalar encoding.
    InvalidValueCommitTrapdoor,
    /// The supplied full viewing key does not decode.
    InvalidFullViewingKey,
    /// The supplied address does not decode.
    InvalidRecipient,
}

/// Failures while appending to the Orchard pool.
#[derive(Debug, PartialEq, Eq, Structural)]
pub enum OrchardError {
    /// The action's net value or the running balance would leave the signed
    /// accumulator's range.
    BalanceViolation,
    /// The supplied trapdoor is not a canonical scalar encoding.
    InvalidValueCommitTrapdoor,
    /// The supplied full viewing key does not decode.
    InvalidFullViewingKey,
    /// The parts of the note being spent do not form a valid note.
    InvalidSpendNote,
    /// The parts of the note being created do not form a valid note.
    InvalidOutputNote,
}

/// Everything outside the Sapling bundle is untouched, and within it the
/// anchor, freeze marker and output list are untouched.
pub open spec fn sapling_spends_context_unchanged(a: PcztV, b: PcztV) -> bool {
    a.global == b.global && a.transparent == b.transparent && a.orchard == b.orchard
        && a.sapling.anchor == b.sapling.anchor && a.sapling.bsk == b.sapling.bsk
        && a.sapling.outputs == b.sapling.outputs
}

/// Everything outside the Sapling bundle is untouched, and within it the
/// anchor, freeze marker and spend list are untouched.
pub open spec fn sapling_outputs_context_unchanged(a: PcztV, b: PcztV) -> bool {
    a.global == b.global && a.transparent == b.transparent && a.orchard == b.orchard
        && a.sapling.anchor == b.sapling.anchor && a.sapling.bsk == b.sapling.bsk
        && a.sapling.spends == b.sapling.spends
}

/// Everything outside the Orchard action list and balance is untouched.
pub open spec fn orchard_context_unchanged(a: PcztV, b: PcztV) -> bool {
    a.global == b.global && a.transparent == b.transparent && a.sapling == b.sapling
        && a.orchard.anchor == b.orchard.anchor && a.orchard.bsk == b.orchard.bsk
        && a.orchard.flags == b.orchard.flags && a.orchard.zkproof == b.orchard.zkproof
}

/// The shape of a freshly appended Sapling spend: required fields derived
/// from the note's parts, private fields pre-populated, proof and signature
/// absent.
pub open spec fn built_sapling_spend(
    rec: sapling::SpendV,
    fvk: Seq<u8>,
    recipient: Seq<u8>,
    value: u64,
    rseed: Seq<u8>,
    position: u64,
    rcv: Seq<u8>,
) -> bool {
    rec.cv == sapling_cv_of(value, rcv) && rec.nullifier == sapling_nf_of(
        fvk,
        recipient,
        value,
        rseed,
        position,
    ) && rec.alpha is Some && rec.alpha.unwrap().len() == 32 && is_jubjub_scalar(rec.alpha.unwrap())
        && rec.rk == sapling_rk_of(fvk, rec.alpha.unwrap()) && rec.zkproof is None
        && rec.spend_auth_sig is None && rec.recipient == Some(recipient) && rec.value == Some(
        value,
    ) && rec.rseed == Some(rseed) && rec.rcv == Some(rcv) && rec.proof_generation_key is None
        && rec.witness is None && rec.zip32_derivation is None && rec.proprietary == Seq::<
        (Seq<u8>, Seq<u8>),
    >::empty()
}

/// The shape of a freshly appended Sapling output.
pub open spec fn built_sapling_output(
    rec: sapling::OutputV,
    recipient: Seq<u8>,
    value: u64,
    rseed: Seq<u8>,
    ephemeral_key: Seq<u8>,
    enc_ciphertext: Seq<u8>,
    out_ciphertext: Seq<u8>,
    rcv: Seq<u8>,
) -> bool {
    rec.cv == sapling_cv_of(value, rcv) && rec.cmu == sapling_cmu_of(recipient, value, rseed)
        && rec.ephemeral_key == ephemeral_key && rec.enc_ciphertext == enc_ciphertext
        && rec.out_ciphertext == out_ciphertext && rec.zkproof is None && rec.recipient == Some(
        recipient,
    ) && rec.value == Some(value) && rec.rseed == Some(rseed) && rec.rcv == Some(rcv)
        && rec.shared_secret is None && rec.ock is None && rec.zip32_derivation is None
        && rec.proprietary == Seq::<(Seq<u8>, Seq<u8>)>::empty()
}

/// The shape of a freshly appended Orchard action.
pub open spec fn built_orchard_action(
    rec: orchard::ActionV,
    spend_fvk: Seq<u8>,
    spend_recipient: Seq<u8>,
    spend_value: u64,
    spend_rho: Seq<u8>,
    spend_rseed: Seq<u8>,
    output_recipient: Seq<u8>,
    output_value: u64,
    output_rho: Seq<u8>,
    output_rseed: Seq<u8>,
    ephemeral_key: Seq<u8>,
    enc_ciphertext: Seq<u8>,
    out_ciphertext: Seq<u8>,
    rcv: Seq<u8>,
) -> bool {
    rec.cv == orchard_cv_of(spend_value, output_value, rcv) && rec.rcv == Some(rcv)
        && rec.spend.nullifier == orchard_nf_of(
        spend_fvk,
        spend_recipient,
        spend_value,
        spend_rho,
        spend_rseed,
    ) && rec.spend.alpha is Some && rec.spend.alpha.unwrap().len() == 32 && is_pallas_scalar(
        rec.spend.alpha.unwrap(),
    ) && rec.spend.rk == orchard_rk_of(spend_fvk, rec.spend.alpha.unwrap())
        && rec.spend.spend_auth_sig is None && rec.spend.recipient == Some(spend_recipient)
        && rec.spend.value == Some(spend_value) && rec.spend.rho == Some(spend_rho)
        && rec.spend.rseed == Some(spend_rseed) && rec.spend.fvk == Some(spend_fvk)
        && rec.spend.witness is None && rec.spend.zip32_derivation is None && rec.spend.proprietary
        == Seq::<(Seq<u8>, Seq<u8>)>::empty() && rec.output.cmx == orchard_cmx_of(
        output_recipient,
        output_value,
        output_rho,
        output_rseed,
    ) && rec.output.ephemeral_key == ephemeral_key && rec.output.enc_ciphertext == enc_ciphertext
        && rec.output.out_ciphertext == out_ciphertext && rec.output.recipient == Some(
        output_recipient,
    ) && rec.output.value == Some(output_value) && rec.output.rseed == Some(output_rseed)
        && rec.output.shared_secret is None && rec.output.ock is None
        && rec.output.zip32_derivation is None && rec.output.proprietary == Seq::<
        (Seq<u8>, Seq<u8>),
    >::empty()
}

impl Constructor {
    /// Takes custody of a document for appending.
    pub fn new(pczt: Pczt) -> (r: Constructor)
        ensures
            r.pczt == pczt,
    {
        Constructor { pczt }
    }

    /// Releases the document with all appends applied.
    pub fn finish(self) -> (r: Pczt)
        ensures
            r == self.pczt,
    {
        self.pczt
    }

    /// Appends a transparent coin to be spent. The coin's identity, value and
    /// script are fixed here; every witness-producing field starts absent.
    pub fn add_transparent_input(
        &mut self,
        prevout_txid: &[u8; 32],
        prevout_index: u32,
        value: u64,
        script_pubkey: Vec<u8>,
        sequence: u32,
        required_locktime: u32,
        sighash_type: u32,
    )
        requires
            old(self).pczt.wf(),
        ensures
            final(self).pczt.wf(),
            final(self).pczt@.global == old(self).pczt@.global,
            final(self).pczt@.sapling == old(self).pczt@.sapling,
            final(self).pczt@.orchard == old(self).pczt@.orchard,
            final(self).pczt@.transparent.outputs == old(self).pczt@.transparent.outputs,
            final(self).pczt@.transparent.inputs == old(self).pczt@.transparent.inputs.push(
                final(self).pczt@.transparent.inputs.last(),
            ),
            final(self).pczt@.transparent.inputs.last() == (transparent::InputV {
                prevout_txid: prevout_txid@,
                prevout_index: prevout_index,
                sequence: sequence,
                required_locktime: required_locktime,
                script_sig: None,
                value: value,
                script_pubkey: script_pubkey@,
                redeem_script: None,
                partial_signatures: Seq::empty(),
                sighash_type: sighash_type,
                ripemd160_preimages: Seq::empty(),
                sha256_preimages: Seq::empty(),
                hash160_preimages: Seq::empty(),
                hash256_preimages: Seq::empty(),
            }),
    {
        let rec = transparent::Input {
            prevout_txid: vstd::slice::slice_to_vec(prevout_txid),
            prevout_index,
            sequence,
            required_locktime,
            script_sig: None,
            value,
            script_pubkey,
            redeem_script: None,
            partial_signatures: ByteMap::new(),
            sighash_type,
            ripemd160_preimages: ByteMap::new(),
            sha256_preimages: ByteMap::new(),
            hash160_preimages: ByteMap::new(),
            hash256_preimages: ByteMap::new(),
        };
        self.pczt.transparent.inputs.push(rec);
        proof {
            let s = self.pczt@.transparent.inputs;
            assert(s =~= old(self).pczt@.transparent.inputs.push(s.last()));
            assert(self.pczt@.transparent.outputs =~= old(self).pczt@.transparent.outputs);
        }
    }

    /// Appends a transparent coin to be created.
    pub fn add_transparent_output(&mut self, value: u64, script_pubkey: Vec<u8>)
        requires
            old(self).pczt.wf(),
        ensures
            final(self).pczt.wf(),
            final(self).pczt@.global == old(self).pczt@.global,
            final(self).pczt@.sapling == old(self).pczt@.sapling,
            final(self).pczt@.orchard == old(self).pczt@.orchard,
            final(self).pczt@.transparent.inputs == old(self).pczt@.transparent.inputs,
            final(self).pczt@.transparent.outputs == old(self).pczt@.transparent.outputs.push(
                final(self).pczt@.transparent.outputs.last(),
            ),
            final(self).pczt@.transparent.outputs.last() == (transparent::OutputV {
                value: value,
                script_pubkey: script_pubkey@,
                redeem_script: None,
            }),
    {
        let rec = transparent::Output { value, script_pubkey, redeem_script: None };
        self.pczt.transparent.outputs.push(rec);
        proof {
            let s = self.pczt@.transparent.outputs;
            assert(s =~= old(self).pczt@.transparent.outputs.push(s.last()));
            assert(self.pczt@.transparent.inputs =~= old(self).pczt@.transparent.inputs);
        }
    }

    /// Appends a Sapling note to be spent, described by its parts: the full
    /// viewing key that controls it, the address, value and seed of the note,
    /// its position in the commitment tree, and the value-commitment trapdoor
    /// (freshly sampled by the caller). Derives the value commitment, the
    /// nullifier and the randomized verification key, and records the
    /// randomizer for the Signer.
    pub fn add_sapling_spend(
        &mut self,
        fvk: &[u8; 96],
        recipient: &[u8; 43],
        value: u64,
        rseed: &[u8; 32],
        position: u64,
        rcv: &[u8; 32],
    ) -> (r: Result<(), SaplingError>)
        requires
            old(self).pczt.wf(),
        ensures
            final(self).pczt.wf(),
            r is Err ==> final(self).pczt@ == old(self).pczt@,
            r == Err::<(), SaplingError>(SaplingError::BalanceViolation) <==> old(self).pczt@.sapling.value_balance + value > u64::MAX,
            r == Err::<(), SaplingError>(SaplingError::InvalidValueCommitTrapdoor) <==> (old(self).pczt@.sapling.value_balance + value <= u64::MAX && !is_jubjub_scalar(rcv@)),
            r == Err::<(), SaplingError>(SaplingError::InvalidFullViewingKey) <==> (old(self).pczt@.sapling.value_balance + value <= u64::MAX && is_jubjub_scalar(rcv@)
                && !is_sapling_fvk(fvk@)),
            r == Err::<(), SaplingError>(SaplingError::InvalidRecipient) <==> (old(self).pczt@.sapling.value_balance + value <= u64::MAX && is_jubjub_scalar(rcv@)
                && is_sapling_fvk(fvk@) && !is_sapling_recipient(recipient@)),
            r is Ok <==> (old(self).pczt@.sapling.value_balance + value <= u64::MAX
                && is_jubjub_scalar(rcv@) && is_sapling_fvk(fvk@) && is_sapling_recipient(
                recipient@,
            )),
            r is Ok ==> (sapling_spends_context_unchanged(final(self).pczt@, old(self).pczt@)
                && final(self).pczt@.sapling.value_balance == old(self).pczt@.sapling.value_balance
                + value && final(self).pczt@.sapling.spends == old(self).pczt@.sapling.spends.push(
                final(self).pczt@.sapling.spends.last(),
            ) && built_sapling_spend(
                final(self).pczt@.sapling.spends.last(),
                fvk@,
                recipient@,
                value,
                rseed@,
                position,
                rcv@,
            )),
    {
        let vrcv = vstd::slice::slice_to_vec(rcv);
        let vfvk = vstd::slice::slice_to_vec(fvk);
        let vrecipient = vstd::slice::slice_to_vec(recipient);
        let vrseed = vstd::slice::slice_to_vec(rseed);
        let new_balance = match self.pczt.sapling.value_balance.checked_add(value) {
            Some(nv) => nv,
            None => {
                return Err(SaplingError::BalanceViolation);
            },
        };
        let cv = match sapling_derive_cv(value, &vrcv) {
            Some(v) => v,
            None => {
                return Err(SaplingError::InvalidValueCommitTrapdoor);
            },
        };
        let alpha = fresh_jubjub_scalar();
        let rk = match sapling_randomize_ak(&vfvk, &alpha) {
            Some(v) => v,
            None => {
                return Err(SaplingError::InvalidFullViewingKey);
            },
        };
        let nullifier = match sapling_derive_nullifier(&vfvk, &vrecipient, value, &vrseed, position)
            {
            Some(v) => v,
            None => {
                return Err(SaplingError::InvalidRecipient);
            },
        };
        let rec = sapling::Spend {
            cv,
            nullifier,
            rk,
            zkproof: None,
            spend_auth_sig: None,
            recipient: Some(vrecipient),
            value: Some(value),
            rseed: Some(vrseed),
            rcv: Some(vrcv),
            proof_generation_key: None,
            witness: None,
            alpha: Some(alpha),
            zip32_derivation: None,
            proprietary: ByteMap::new(),
        };
        self.pczt.sapling.spends.push(rec);
        self.pczt.sapling.value_balance = new_balance;
        proof {
            let s = self.pczt@.sapling.spends;
            assert(s =~= old(self).pczt@.sapling.spends.push(s.last()));
            assert(self.pczt@.sapling.outputs =~= old(self).pczt@.sapling.outputs);
        }
        Ok(())
    }

    /// Appends a Sapling note to be created, described by its parts together
    /// with the already-encrypted note ciphertexts and the value-commitment
    /// trapdoor. Derives the value commitment and the note commitment.
    pub fn add_sapling_output(
        &mut self,
        recipient: &[u8; 43],
        value: u64,
        rseed: &[u8; 32],
        ephemeral_key: &[u8; 32],
        enc_ciphertext: Vec<u8>,
        out_ciphertext: Vec<u8>,
        rcv: &[u8; 32],
    ) -> (r: Result<(), SaplingError>)
        requires
            old(self).pczt.wf(),
        ensures
            final(self).pczt.wf(),
            r is Err ==> final(self).pczt@ == old(self).pczt@,
            r == Err::<(), SaplingError>(SaplingError::BalanceViolation) <==> old(self).pczt@.sapling.value_balance < value,
            r == Err::<(), SaplingError>(SaplingError::InvalidValueCommitTrapdoor) <==> (old(self).pczt@.sapling.value_balance >= value && !is_jubjub_scalar(rcv@)),
            r == Err::<(), SaplingError>(SaplingError::InvalidRecipient) <==> (old(self).pczt@.sapling.value_balance >= value && is_jubjub_scalar(rcv@)
                && !is_sapling_recipient(recipient@)),
            r is Ok <==> (old(self).pczt@.sapling.value_balance >= value && is_jubjub_scalar(rcv@)
                && is_sapling_recipient(recipient@)),
            r is Ok ==> (sapling_outputs_context_unchanged(final(self).pczt@, old(self).pczt@)
                && old(self).pczt@.sapling.value_balance == final(self).pczt@.sapling.value_balance
                + value && final(self).pczt@.sapling.outputs == old(self).pczt@.sapling.outputs.push(final(self).pczt@.sapling.outputs.last())
                && built_sapling_output(
                final(self).pczt@.sapling.outputs.last(),
                recipient@,
                value,
                rseed@,
                ephemeral_key@,
                enc_ciphertext@,
                out_ciphertext@,
                rcv@,
            )),
    {
        let vrcv = vstd::slice::slice_to_vec(rcv);
        let vrecipient = vstd::slice::slice_to_vec(recipient);
        let vrseed = vstd::slice::slice_to_vec(rseed);
        let new_balance = match self.pczt.sapling.value_balance.checked_sub(value) {
            Some(nv) => nv,
            None => {
                return Err(SaplingError::BalanceViolation);
            },
        };
        let cv = match sapling_derive_cv(value, &vrcv) {
            Some(v) => v,
            None => {
                return Err(SaplingError::InvalidValueCommitTrapdoor);
            },
        };
        let cmu = match sapling_derive_cmu(&vrecipient, value, &vrseed) {
            Some(v) => v,
            None => {
                return Err(SaplingError::InvalidRecipient);
            },
        };
        let rec = sapling::Output {
            cv,
            cmu,
            ephemeral_key: vstd::slice::slice_to_vec(ephemeral_key),
            enc_ciphertext,
            out_ciphertext,
            zkproof: None,
            recipient: Some(vrecipient),
            value: Some(value),
            rseed: Some(vrseed),
            rcv: Some(vrcv),
            shared_secret: None,
            ock: None,
            zip32_derivation: None,
            proprietary: ByteMap::new(),
        };
        self.pczt.sapling.outputs.push(rec);
        self.pczt.sapling.value_balance = new_balance;
        proof {
            let s = self.pczt@.sapling.outputs;
            assert(s =~= old(self).pczt@.sapling.outputs.push(s.last()));
            assert(self.pczt@.sapling.spends =~= old(self).pczt@.sapling.spends);
        }
        Ok(())
    }

    /// Appends an Orchard action: one note spent and one note created as an
    /// atomic unit, with a joint value commitment over the action's net
    /// value. Derives the commitment, the spend's nullifier and randomized
    /// key, and the output's extracted note commitment.
    pub fn add_orchard_action(
        &mut self,
        spend_fvk: &[u8; 96],
        spend_recipient: &[u8; 43],
        spend_value: u64,
        spend_rho: &[u8; 32],
        spend_rseed: &[u8; 32],
        output_recipient: &[u8; 43],
        output_value: u64,
        output_rho: &[u8; 32],
        output_rseed: &[u8; 32],
        ephemeral_key: &[u8; 32],
        enc_ciphertext: Vec<u8>,
        out_ciphertext: Vec<u8>,
        rcv: &[u8; 32],
    ) -> (r: Result<(), OrchardError>)
        requires
            old(self).pczt.wf(),
        ensures
            final(self).pczt.wf(),
            r is Err ==> final(self).pczt@ == old(self).pczt@,
            r == Err::<(), OrchardError>(OrchardError::BalanceViolation) <==> !orchard_append_fits(
                old(self).pczt@.orchard.value_balance as int,
                spend_value,
                output_value,
            ),
            r == Err::<(), OrchardError>(OrchardError::InvalidValueCommitTrapdoor) <==> (
            orchard_append_fits(
                old(self).pczt@.orchard.value_balance as int,
                spend_value,
                output_value,
            ) && !is_pallas_scalar(rcv@)),
            r == Err::<(), OrchardError>(OrchardError::InvalidFullViewingKey) <==> (
            orchard_append_fits(
                old(self).pczt@.orchard.value_balance as int,
                spend_value,
                output_value,
            ) && is_pallas_scalar(rcv@) && !is_orchard_fvk(spend_fvk@)),
            r == Err::<(), OrchardError>(OrchardError::InvalidSpendNote) <==> (orchard_append_fits(
                old(self).pczt@.orchard.value_balance as int,
                spend_value,
                output_value,
            ) && is_pallas_scalar(rcv@) && is_orchard_fvk(spend_fvk@) && !orchard_spend_note_ok(
                spend_recipient@,
                spend_value,
                spend_rho@,
                spend_rseed@,
            )),
            r == Err::<(), OrchardError>(OrchardError::InvalidOutputNote) <==> (orchard_append_fits(
                old(self).pczt@.orchard.value_balance as int,
                spend_value,
                output_value,
            ) && is_pallas_scalar(rcv@) && is_orchard_fvk(spend_fvk@) && orchard_spend_note_ok(
                spend_recipient@,
                spend_value,
                spend_rho@,
                spend_rseed@,
            ) && !orchard_spend_note_ok(output_recipient@, output_value, output_rho@, output_rseed@)),
            r is Ok <==> (orchard_append_fits(
                old(self).pczt@.orchard.value_balance as int,
                spend_value,
                output_value,
            ) && is_pallas_scalar(rcv@) && is_orchard_fvk(spend_fvk@) && orchard_spend_note_ok(
                spend_recipient@,
                spend_value,
                spend_rho@,
                spend_rseed@,
            ) && orchard_spend_note_ok(output_recipient@, output_value, output_rho@, output_rseed@)),
            r is Ok ==> (orchard_context_unchanged(final(self).pczt@, old(self).pczt@) && final(self).pczt@.orchard.value_balance == old(self).pczt@.orchard.value_balance + spend_value
                - output_value && final(self).pczt@.orchard.actions == old(self).pczt@.orchard.actions.push(final(self).pczt@.orchard.actions.last())
                && built_orchard_action(
                final(self).pczt@.orchard.actions.last(),
                spend_fvk@,
                spend_recipient@,
                spend_value,
                spend_rho@,
                spend_rseed@,
                output_recipient@,
                output_value,
                output_rho@,
                output_rseed@,
                ephemeral_key@,
                enc_ciphertext@,
                out_ciphertext@,
                rcv@,
            )),
    {
        let bal: i128 = spend_value as i128 - output_value as i128;
        if bal > i64::MAX as i128 || bal < i64::MIN as i128 {
            return Err(OrchardError::BalanceViolation);
        }
        let new_balance = match self.pczt.orchard.value_balance.checked_add(bal as i64) {
            Some(nv) => nv,
            None => {
                return Err(OrchardError::BalanceViolation);
            },
        };
        let vrcv = vstd::slice::slice_to_vec(rcv);
        let cv = match orchard_derive_cv(spend_value, output_value, &vrcv) {
            Some(v) => v,
            None => {
                return Err(OrchardError::InvalidValueCommitTrapdoor);
            },
        };
        let vfvk = vstd::slice::slice_to_vec(spend_fvk);
        let alpha = fresh_pallas_scalar();
        let rk = match orchard_randomize_ak(&vfvk, &alpha) {
            Some(v) => v,
            None => {
                return Err(OrchardError::InvalidFullViewingKey);
            },
        };
        let vsrecipient = vstd::slice::slice_to_vec(spend_recipient);
        let vsrho = vstd::slice::slice_to_vec(spend_rho);
        let vsrseed = vstd::slice::slice_to_vec(spend_rseed);
        let nullifier = match orchard_derive_nullifier(
            spend_fvk,
            spend_recipient,
            spend_value,
            spend_rho,
            spend_rseed,
        ) {
            Some(v) => v,
            None => {
                return Err(OrchardError::InvalidSpendNote);
            },
        };
        let vorecipient = vstd::slice::slice_to_vec(output_recipient);
        let vorho = vstd::slice::slice_to_vec(output_rho);
        let vorseed = vstd::slice::slice_to_vec(output_rseed);
        let cmx = match orchard_derive_cmx(output_recipient, output_value, output_rho, output_rseed) {
            Some(v) => v,
            None => {
                return Err(OrchardError::InvalidOutputNote);
            },
        };
        let rec = orchard::Action {
            cv,
            spend: orchard::Spend {
                nullifier,
                rk,
                spend_auth_sig: None,
                recipient: Some(vsrecipient),
                value: Some(spend_value),
                rho: Some(vsrho),
                rseed: Some(vsrseed),
                fvk: Some(vfvk),
                witness: None,
                alpha: Some(alpha),
                zip32_derivation: None,
                proprietary: ByteMap::new(),
            },
            output: orchard::Output {
                cmx,
                ephemeral_key: vstd::slice::slice_to_vec(ephemeral_key),
                enc_ciphertext,
                out_ciphertext,
                recipient: Some(vorecipient),
                value: Some(output_value),
                rseed: Some(vorseed),
                shared_secret: None,
                ock: None,
                zip32_derivation: None,
                proprietary: ByteMap::new(),
            },
            rcv: Some(vrcv),
        };
        self.pczt.orchard.actions.push(rec);
        self.pczt.orchard.value_balance = new_balance;
        proof {
            let s = self.pczt@.orchard.actions;
            assert(s =~= old(self).pczt@.orchard.actions.push(s.last()));
        }
        Ok(())
    }
}

/// Whether appending an action with the given spend and output values keeps
/// the signed balance accumulator in range.
pub open spec fn orchard_append_fits(vb: int, spend_value: u64, output_value: u64) -> bool {
    i64::MIN <= spend_value - output_value <= i64::MAX && i64::MIN <= vb + spend_value
        - output_value <= i64::MAX
}

/// Whether the encoded parts of an Orchard note decode to a valid note.
pub open spec fn orchard_spend_note_ok(
    recipient: Seq<u8>,
    value: u64,
    rho: Seq<u8>,
    rseed: Seq<u8>,
) -> bool {
    is_orchard_recipient(recipient) && is_orchard_rho(rho) && is_orchard_rseed(rseed, rho)
        && is_orchard_note(recipient, value, rho, rseed)
}

} // verus!

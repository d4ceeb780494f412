//! The Transaction Extractor role: reduces a fully authorized document to
//! the effects of the final transaction.
//!
//! Extraction checks, in order: that the declared version maps to a known
//! transaction format; that the consensus branch is known; and that every
//! pool reduces to its final authorized form, meaning every required field
//! decodes, every proof and signature is present, and the balances are
//! representable. The result carries every field of the transaction in plain
//! bytes; computing the shared signature digest, deriving the binding
//! signatures and re-verifying the proofs against it are the host's final
//! steps over these effects.

use vstd::prelude::*;

use crate::bytes::clone_bytes;
use crate::transparent::Error as TransparentError;
use crate::crypto::{
    branch_id_known, check_bls_scalar, check_orchard_cv, check_pallas_base, check_redjubjub_vk,
    check_redpallas_vk, check_sapling_cmu, check_sapling_cv, is_bls_scalar, is_jubjub_scalar,
    is_known_branch, is_orchard_cv_enc, is_pallas_base, is_pallas_scalar, is_redjubjub_vk,
    is_redpallas_vk, is_sapling_cmu_enc, is_sapling_cv_enc, redjubjub_binding_sig_valid,
    redjubjub_spend_sig_valid, redjubjub_vk_of_sk, redpallas_binding_sig_valid,
    redpallas_spend_sig_valid, redpallas_vk_of_sk, sign_redjubjub_binding, sign_redpallas_binding,
    verify_redjubjub_spend_sig, verify_redpallas_spend_sig, zat_balance_from_u64, MAX_MONEY,
};
use crate::{orchard, sapling, transparent, Pczt, PcztV, V5_TX_VERSION, V5_VERSION_GROUP_ID};

verus! {

/// Produces the final transaction effects from a fully authorized document.
pub struct TransactionExtractor {
    pub pczt: Pczt,
}

/// Failures of the global checks.
#[derive(Debug, PartialEq, Eq, Structural)]
pub enum GlobalError {
    /// The consensus branch identifier is not one the protocol knows.
    UnknownConsensusBranchId,
    /// The declared version pair does not map to a known format.
    UnsupportedTxVersion { version: u32, version_group_id: u32 },
}

/// Failures while extracting a transaction from a document.
#[derive(Debug, PartialEq, Eq, Structural)]
pub enum Error {
    Global(GlobalError),
    Transparent(TransparentError),
    Sapling(crate::sapling::Error),
    Orchard(crate::orchard::Error),
}

/// A finalized transparent input.
pub struct TxInEffect {
    pub prevout_txid: Vec<u8>,
    pub prevout_index: u32,
    pub sequence: u32,
    pub script_sig: Vec<u8>,
    pub value: u64,
    pub script_pubkey: Vec<u8>,
}

/// A finalized transparent output.
pub struct TxOutEffect {
    pub value: u64,
    pub script_pubkey: Vec<u8>,
}

/// A finalized Sapling spend description.
pub struct SaplingSpendEffect {
    pub cv: Vec<u8>,
    pub nullifier: Vec<u8>,
    pub rk: Vec<u8>,
    pub zkproof: Vec<u8>,
    pub spend_auth_sig: Vec<u8>,
}

/// A finalized Sapling output description.
pub struct SaplingOutputEffect {
    pub cv: Vec<u8>,
    pub cmu: Vec<u8>,
    pub ephemeral_key: Vec<u8>,
    pub enc_ciphertext: Vec<u8>,
    pub out_ciphertext: Vec<u8>,
    pub zkproof: Vec<u8>,
}

/// A finalized Orchard action description.
pub struct OrchardActionEffect {
    pub cv: Vec<u8>,
    pub nullifier: Vec<u8>,
    pub rk: Vec<u8>,
    pub cmx: Vec<u8>,
    pub ephemeral_key: Vec<u8>,
    pub enc_ciphertext: Vec<u8>,
    pub out_ciphertext: Vec<u8>,
    pub spend_auth_sig: Vec<u8>,
}

/// The full effects of the extracted transaction, in plain bytes, ready for
/// digesting, binding-signature derivation and final verification.
pub struct TransactionEffects {
    pub tx_version: u32,
    pub version_group_id: u32,
    pub consensus_branch_id: u32,
    pub lock_time: u32,
    pub expiry_height: u32,
    pub transparent_inputs: Vec<TxInEffect>,
    pub transparent_outputs: Vec<TxOutEffect>,
    pub sapling_spends: Vec<SaplingSpendEffect>,
    pub sapling_outputs: Vec<SaplingOutputEffect>,
    pub sapling_value_balance: i64,
    pub sapling_anchor: Vec<u8>,
    pub sapling_bsk: Option<Vec<u8>>,
    pub orchard_actions: Vec<OrchardActionEffect>,
    pub orchard_flags: u8,
    pub orchard_value_balance: i64,
    pub orchard_anchor: Vec<u8>,
    pub orchard_zkproof: Option<Vec<u8>>,
    pub orchard_bsk: Option<Vec<u8>>,
}

/// The problem with one transparent input, if any.
pub open spec fn tin_err(i: transparent::InputV) -> Option<TransparentError> {
    if i.script_sig is None {
        Some(TransparentError::MissingScriptSig)
    } else {
        None
    }
}

/// The first problem among the transparent inputs.
pub open spec fn first_tin_err(s: Seq<transparent::InputV>) -> Option<TransparentError>
    decreases s.len(),
{
    if s.len() == 0 {
        None
    } else if tin_err(s[0]) is Some {
        tin_err(s[0])
    } else {
        first_tin_err(s.skip(1))
    }
}

/// The problem with one transparent output, if any.
pub open spec fn tout_err(o: transparent::OutputV) -> Option<TransparentError> {
    if o.value > MAX_MONEY {
        Some(TransparentError::InvalidValue)
    } else {
        None
    }
}

/// The first problem among the transparent outputs.
pub open spec fn first_tout_err(s: Seq<transparent::OutputV>) -> Option<TransparentError>
    decreases s.len(),
{
    if s.len() == 0 {
        None
    } else if tout_err(s[0]) is Some {
        tout_err(s[0])
    } else {
        first_tout_err(s.skip(1))
    }
}

/// The problem with one Sapling spend, if any.
pub open spec fn sspend_err(s: sapling::SpendV) -> Option<crate::sapling::Error> {
    if !is_sapling_cv_enc(s.cv) {
        Some(crate::sapling::Error::InvalidValueCommitment)
    } else if !is_redjubjub_vk(s.rk) {
        Some(crate::sapling::Error::InvalidRandomizedKey)
    } else if s.zkproof is None {
        Some(crate::sapling::Error::MissingProof)
    } else if s.spend_auth_sig is None {
        Some(crate::sapling::Error::MissingSpendAuthSignature)
    } else {
        None
    }
}

/// The first problem among the Sapling spends.
pub open spec fn first_sspend_err(s: Seq<sapling::SpendV>) -> Option<crate::sapling::Error>
    decreases s.len(),
{
    if s.len() == 0 {
        None
    } else if sspend_err(s[0]) is Some {
        sspend_err(s[0])
    } else {
        first_sspend_err(s.skip(1))
    }
}

/// The problem with one Sapling output, if any.
pub open spec fn sout_err(o: sapling::OutputV) -> Option<crate::sapling::Error> {
    if !is_sapling_cv_enc(o.cv) {
        Some(crate::sapling::Error::InvalidValueCommitment)
    } else if !is_sapling_cmu_enc(o.cmu) {
        Some(crate::sapling::Error::InvalidExtractedNoteCommitment)
    } else if o.enc_ciphertext.len() != 580 {
        Some(crate::sapling::Error::InvalidEncCiphertext)
    } else if o.out_ciphertext.len() != 80 {
        Some(crate::sapling::Error::InvalidOutCiphertext)
    } else if o.zkproof is None {
        Some(crate::sapling::Error::MissingProof)
    } else {
        None
    }
}

/// The first problem among the Sapling outputs.
pub open spec fn first_sout_err(s: Seq<sapling::OutputV>) -> Option<crate::sapling::Error>
    decreases s.len(),
{
    if s.len() == 0 {
        None
    } else if sout_err(s[0]) is Some {
        sout_err(s[0])
    } else {
        first_sout_err(s.skip(1))
    }
}

/// The first problem in the Sapling bundle's reduction. An empty bundle
/// reduces to nothing and reports no problem.
pub open spec fn sapling_err(b: sapling::BundleV) -> Option<crate::sapling::Error> {
    if b.spends.len() == 0 && b.outputs.len() == 0 {
        None
    } else if !is_bls_scalar(b.anchor) {
        Some(crate::sapling::Error::InvalidAnchor)
    } else if first_sspend_err(b.spends) is Some {
        first_sspend_err(b.spends)
    } else if first_sout_err(b.outputs) is Some {
        first_sout_err(b.outputs)
    } else if b.value_balance > MAX_MONEY {
        Some(crate::sapling::Error::InvalidValueBalance)
    } else if b.bsk is None {
        Some(crate::sapling::Error::MissingBindingSignatureKey)
    } else {
        None
    }
}

/// The problem with one Orchard action, if any.
pub open spec fn action_err(a: orchard::ActionV) -> Option<crate::orchard::Error> {
    if !is_orchard_cv_enc(a.cv) {
        Some(crate::orchard::Error::InvalidValueCommitment)
    } else if !is_pallas_base(a.spend.nullifier) {
        Some(crate::orchard::Error::InvalidNullifier)
    } else if !is_redpallas_vk(a.spend.rk) {
        Some(crate::orchard::Error::InvalidRandomizedKey)
    } else if !is_pallas_base(a.output.cmx) {
        Some(crate::orchard::Error::InvalidExtractedNoteCommitment)
    } else if a.output.enc_ciphertext.len() != 580 {
        Some(crate::orchard::Error::InvalidEncCiphertext)
    } else if a.output.out_ciphertext.len() != 80 {
        Some(crate::orchard::Error::InvalidOutCiphertext)
    } else if a.spend.spend_auth_sig is None {
        Some(crate::orchard::Error::MissingSpendAuthSignature)
    } else {
        None
    }
}

/// The first problem among the Orchard actions.
pub open spec fn first_action_err(s: Seq<orchard::ActionV>) -> Option<crate::orchard::Error>
    decreases s.len(),
{
    if s.len() == 0 {
        None
    } else if action_err(s[0]) is Some {
        action_err(s[0])
    } else {
        first_action_err(s.skip(1))
    }
}

/// The first problem in the Orchard bundle's reduction. An empty bundle
/// reduces to nothing and reports no problem.
pub open spec fn orchard_err(b: orchard::BundleV) -> Option<crate::orchard::Error> {
    if b.actions.len() == 0 {
        None
    } else if !is_pallas_base(b.anchor) {
        Some(crate::orchard::Error::InvalidAnchor)
    } else if first_action_err(b.actions) is Some {
        first_action_err(b.actions)
    } else if b.value_balance > MAX_MONEY || b.value_balance < -(MAX_MONEY as i64) {
        Some(crate::orchard::Error::InvalidValueBalance)
    } else if b.zkproof is None {
        Some(crate::orchard::Error::MissingProof)
    } else if b.bsk is None {
        Some(crate::orchard::Error::MissingBindingSignatureKey)
    } else {
        None
    }
}

/// The first problem anywhere in the document's reduction, in extraction
/// order; `None` means extraction succeeds.
pub open spec fn spec_extract_err(d: PcztV) -> Option<Error> {
    if !(d.global.tx_version == V5_TX_VERSION && d.global.version_group_id
        == V5_VERSION_GROUP_ID) {
        Some(
            Error::Global(
                GlobalError::UnsupportedTxVersion {
                    version: d.global.tx_version,
                    version_group_id: d.global.version_group_id,
                },
            ),
        )
    } else if !is_known_branch(d.global.consensus_branch_id) {
        Some(Error::Global(GlobalError::UnknownConsensusBranchId))
    } else if first_tin_err(d.transparent.inputs) is Some {
        Some(Error::Transparent(first_tin_err(d.transparent.inputs).unwrap()))
    } else if first_tout_err(d.transparent.outputs) is Some {
        Some(Error::Transparent(first_tout_err(d.transparent.outputs).unwrap()))
    } else if sapling_err(d.sapling) is Some {
        Some(Error::Sapling(sapling_err(d.sapling).unwrap()))
    } else if orchard_err(d.orchard) is Some {
        Some(Error::Orchard(orchard_err(d.orchard).unwrap()))
    } else {
        None
    }
}

impl TransactionExtractor {
    /// Takes custody of a fully authorized document for extraction.
    pub fn new(pczt: Pczt) -> (r: TransactionExtractor)
        ensures
            r.pczt == pczt,
    {
        TransactionExtractor { pczt }
    }

    /// Attempts to reduce the document to the effects of the final
    /// transaction. Fails exactly on the first problem in extraction order.
    #[verifier::loop_isolation(false)]
    pub fn extract(self) -> (r: Result<TransactionEffects, Error>)
        requires
            self.pczt.wf(),
        ensures
            r is Ok <==> spec_extract_err(self.pczt@) is None,
            r matches Err(e) ==> Some(e) == spec_extract_err(self.pczt@),
            r matches Ok(fx) ==> effects_match(fx, self.pczt@),
    {
        let ghost d = self.pczt@;
        let p = &self.pczt;
        if !(p.global.tx_version == V5_TX_VERSION && p.global.version_group_id
            == V5_VERSION_GROUP_ID) {
            return Err(
                Error::Global(
                    GlobalError::UnsupportedTxVersion {
                        version: p.global.tx_version,
                        version_group_id: p.global.version_group_id,
                    },
                ),
            );
        }
        if !branch_id_known(p.global.consensus_branch_id) {
            return Err(Error::Global(GlobalError::UnknownConsensusBranchId));
        }
        let ghost tins = d.transparent.inputs;
        let mut transparent_inputs: Vec<TxInEffect> = Vec::new();
        let tin_n: usize = p.transparent.inputs.len();
        let mut i: usize = 0;
        proof {
            assert(tins.skip(0) =~= tins);
        }
        while i < tin_n
            invariant
                0 <= i <= tin_n,
                transparent_inputs@.len() == i,
                first_tin_err(tins) == first_tin_err(tins.skip(i as int)),
                forall|k: int| 0 <= k < i ==> tin_effect_matches(
                    #[trigger] transparent_inputs@[k],
                    tins[k],
                ),
            decreases tin_n - i,
        {
            let ghost ii = i as int;
            proof {
                assert(tins.skip(ii)[0] == tins[ii]);
                assert(tins.skip(ii).skip(1) =~= tins.skip(ii + 1));
            }
            let rec = &p.transparent.inputs[i];
            let script_sig = match &rec.script_sig {
                Some(v) => clone_bytes(v),
                None => {
                    return Err(Error::Transparent(TransparentError::MissingScriptSig));
                },
            };
            transparent_inputs.push(
                TxInEffect {
                    prevout_txid: clone_bytes(&rec.prevout_txid),
                    prevout_index: rec.prevout_index,
                    sequence: rec.sequence,
                    script_sig,
                    value: rec.value,
                    script_pubkey: clone_bytes(&rec.script_pubkey),
                },
            );
            i += 1;
        }
        proof {
            assert(tins.skip(tin_n as int) =~= Seq::<transparent::InputV>::empty());
        }
        let ghost touts = d.transparent.outputs;
        let mut transparent_outputs: Vec<TxOutEffect> = Vec::new();
        let tout_n: usize = p.transparent.outputs.len();
        let mut j: usize = 0;
        proof {
            assert(touts.skip(0) =~= touts);
        }
        while j < tout_n
            invariant
                0 <= j <= tout_n,
                transparent_outputs@.len() == j,
                first_tout_err(touts) == first_tout_err(touts.skip(j as int)),
                forall|k: int| 0 <= k < j ==> tout_effect_matches(
                    #[trigger] transparent_outputs@[k],
                    touts[k],
                ),
            decreases tout_n - j,
        {
            let ghost jj = j as int;
            proof {
                assert(touts.skip(jj)[0] == touts[jj]);
                assert(touts.skip(jj).skip(1) =~= touts.skip(jj + 1));
            }
            let rec = &p.transparent.outputs[j];
            if zat_balance_from_u64(rec.value).is_none() {
                return Err(Error::Transparent(TransparentError::InvalidValue));
            }
            transparent_outputs.push(
                TxOutEffect { value: rec.value, script_pubkey: clone_bytes(&rec.script_pubkey) },
            );
            j += 1;
        }
        proof {
            assert(touts.skip(tout_n as int) =~= Seq::<transparent::OutputV>::empty());
        }
        let mut sapling_spends: Vec<SaplingSpendEffect> = Vec::new();
        let mut sapling_outputs: Vec<SaplingOutputEffect> = Vec::new();
        let mut sapling_value_balance: i64 = 0;
        let mut sapling_bsk: Option<Vec<u8>> = None;
        let sapling_populated = p.sapling.spends.len() > 0 || p.sapling.outputs.len() > 0;
        if sapling_populated {
            if !check_bls_scalar(&p.sapling.anchor) {
                return Err(Error::Sapling(crate::sapling::Error::InvalidAnchor));
            }
            let ghost sspends = d.sapling.spends;
            let ss_n: usize = p.sapling.spends.len();
            let mut si: usize = 0;
            proof {
                assert(sspends.skip(0) =~= sspends);
            }
            while si < ss_n
                invariant
                    0 <= si <= ss_n,
                    sapling_spends@.len() == si,
                    first_sspend_err(sspends) == first_sspend_err(sspends.skip(si as int)),
                    forall|k: int| 0 <= k < si ==> sspend_effect_matches(
                        #[trigger] sapling_spends@[k],
                        sspends[k],
                    ),
                decreases ss_n - si,
            {
                let ghost ii = si as int;
                proof {
                    assert(sspends.skip(ii)[0] == sspends[ii]);
                    assert(sspends.skip(ii).skip(1) =~= sspends.skip(ii + 1));
                }
                let rec = &p.sapling.spends[si];
                if !check_sapling_cv(&rec.cv) {
                    return Err(Error::Sapling(crate::sapling::Error::InvalidValueCommitment));
                }
                if !check_redjubjub_vk(&rec.rk) {
                    return Err(Error::Sapling(crate::sapling::Error::InvalidRandomizedKey));
                }
                let zkproof = match &rec.zkproof {
                    Some(v) => clone_bytes(v),
                    None => {
                        return Err(Error::Sapling(crate::sapling::Error::MissingProof));
                    },
                };
                let spend_auth_sig = match &rec.spend_auth_sig {
                    Some(v) => clone_bytes(v),
                    None => {
                        return Err(
                            Error::Sapling(crate::sapling::Error::MissingSpendAuthSignature),
                        );
                    },
                };
                sapling_spends.push(
                    SaplingSpendEffect {
                        cv: clone_bytes(&rec.cv),
                        nullifier: clone_bytes(&rec.nullifier),
                        rk: clone_bytes(&rec.rk),
                        zkproof,
                        spend_auth_sig,
                    },
                );
                si += 1;
            }
            proof {
                assert(sspends.skip(ss_n as int) =~= Seq::<sapling::SpendV>::empty());
            }
            let ghost souts = d.sapling.outputs;
            let so_n: usize = p.sapling.outputs.len();
            let mut so: usize = 0;
            proof {
                assert(souts.skip(0) =~= souts);
            }
            while so < so_n
                invariant
                    0 <= so <= so_n,
                    sapling_outputs@.len() == so,
                    first_sout_err(souts) == first_sout_err(souts.skip(so as int)),
                    forall|k: int| 0 <= k < so ==> sout_effect_matches(
                        #[trigger] sapling_outputs@[k],
                        souts[k],
                    ),
                decreases so_n - so,
            {
                let ghost jj = so as int;
                proof {
                    assert(souts.skip(jj)[0] == souts[jj]);
                    assert(souts.skip(jj).skip(1) =~= souts.skip(jj + 1));
                }
                let rec = &p.sapling.outputs[so];
                if !check_sapling_cv(&rec.cv) {
                    return Err(Error::Sapling(crate::sapling::Error::InvalidValueCommitment));
                }
                if !check_sapling_cmu(&rec.cmu) {
                    return Err(
                        Error::Sapling(crate::sapling::Error::InvalidExtractedNoteCommitment),
                    );
                }
                if rec.enc_ciphertext.len() != 580 {
                    return Err(Error::Sapling(crate::sapling::Error::InvalidEncCiphertext));
                }
                if rec.out_ciphertext.len() != 80 {
                    return Err(Error::Sapling(crate::sapling::Error::InvalidOutCiphertext));
                }
                let zkproof = match &rec.zkproof {
                    Some(v) => clone_bytes(v),
                    None => {
                        return Err(Error::Sapling(crate::sapling::Error::MissingProof));
                    },
                };
                sapling_outputs.push(
                    SaplingOutputEffect {
                        cv: clone_bytes(&rec.cv),
                        cmu: clone_bytes(&rec.cmu),
                        ephemeral_key: clone_bytes(&rec.ephemeral_key),
                        enc_ciphertext: clone_bytes(&rec.enc_ciphertext),
                        out_ciphertext: clone_bytes(&rec.out_ciphertext),
                        zkproof,
                    },
                );
                so += 1;
            }
            proof {
                assert(souts.skip(so_n as int) =~= Seq::<sapling::OutputV>::empty());
            }
            sapling_value_balance = match zat_balance_from_u64(p.sapling.value_balance) {
                Some(v) => v,
                None => {
                    return Err(Error::Sapling(crate::sapling::Error::InvalidValueBalance));
                },
            };
            sapling_bsk = match &p.sapling.bsk {
                Some(v) => Some(clone_bytes(v)),
                None => {
                    return Err(Error::Sapling(crate::sapling::Error::MissingBindingSignatureKey));
                },
            };
        }
        let mut orchard_actions: Vec<OrchardActionEffect> = Vec::new();
        let mut orchard_value_balance: i64 = 0;
        let mut orchard_zkproof: Option<Vec<u8>> = None;
        let mut orchard_bsk: Option<Vec<u8>> = None;
        let orchard_populated = p.orchard.actions.len() > 0;
        if orchard_populated {
            if !check_pallas_base(&p.orchard.anchor) {
                return Err(Error::Orchard(crate::orchard::Error::InvalidAnchor));
            }
            let ghost acts = d.orchard.actions;
            let a_n: usize = p.orchard.actions.len();
            let mut ai: usize = 0;
            proof {
                assert(acts.skip(0) =~= acts);
            }
            while ai < a_n
                invariant
                    0 <= ai <= a_n,
                    orchard_actions@.len() == ai,
                    first_action_err(acts) == first_action_err(acts.skip(ai as int)),
                    forall|k: int| 0 <= k < ai ==> action_effect_matches(
                        #[trigger] orchard_actions@[k],
                        acts[k],
                    ),
                decreases a_n - ai,
            {
                let ghost ii = ai as int;
                proof {
                    assert(acts.skip(ii)[0] == acts[ii]);
                    assert(acts.skip(ii).skip(1) =~= acts.skip(ii + 1));
                }
                let rec = &p.orchard.actions[ai];
                if !check_orchard_cv(&rec.cv) {
                    return Err(Error::Orchard(crate::orchard::Error::InvalidValueCommitment));
                }
                if !check_pallas_base(&rec.spend.nullifier) {
                    return Err(Error::Orchard(crate::orchard::Error::InvalidNullifier));
                }
                if !check_redpallas_vk(&rec.spend.rk) {
                    return Err(Error::Orchard(crate::orchard::Error::InvalidRandomizedKey));
                }
                if !check_pallas_base(&rec.output.cmx) {
                    return Err(
                        Error::Orchard(crate::orchard::Error::InvalidExtractedNoteCommitment),
                    );
                }
                if rec.output.enc_ciphertext.len() != 580 {
                    return Err(Error::Orchard(crate::orchard::Error::InvalidEncCiphertext));
                }
                if rec.output.out_ciphertext.len() != 80 {
                    return Err(Error::Orchard(crate::orchard::Error::InvalidOutCiphertext));
                }
                let spend_auth_sig = match &rec.spend.spend_auth_sig {
                    Some(v) => clone_bytes(v),
                    None => {
                        return Err(
                            Error::Orchard(crate::orchard::Error::MissingSpendAuthSignature),
                        );
                    },
                };
                orchard_actions.push(
                    OrchardActionEffect {
                        cv: clone_bytes(&rec.cv),
                        nullifier: clone_bytes(&rec.spend.nullifier),
                        rk: clone_bytes(&rec.spend.rk),
                        cmx: clone_bytes(&rec.output.cmx),
                        ephemeral_key: clone_bytes(&rec.output.ephemeral_key),
                        enc_ciphertext: clone_bytes(&rec.output.enc_ciphertext),
                        out_ciphertext: clone_bytes(&rec.output.out_ciphertext),
                        spend_auth_sig,
                    },
                );
                ai += 1;
            }
            proof {
                assert(acts.skip(a_n as int) =~= Seq::<orchard::ActionV>::empty());
            }
            if p.orchard.value_balance > MAX_MONEY as i64 || p.orchard.value_balance < -(
            MAX_MONEY as i64) {
                return Err(Error::Orchard(crate::orchard::Error::InvalidValueBalance));
            }
            orchard_value_balance = p.orchard.value_balance;
            orchard_zkproof = match &p.orchard.zkproof {
                Some(v) => Some(clone_bytes(v)),
                None => {
                    return Err(Error::Orchard(crate::orchard::Error::MissingProof));
                },
            };
            orchard_bsk = match &p.orchard.bsk {
                Some(v) => Some(clone_bytes(v)),
                None => {
                    return Err(Error::Orchard(crate::orchard::Error::MissingBindingSignatureKey));
                },
            };
        }
        Ok(
            TransactionEffects {
                tx_version: p.global.tx_version,
                version_group_id: p.global.version_group_id,
                consensus_branch_id: p.global.consensus_branch_id,
                lock_time: p.global.lock_time,
                expiry_height: p.global.expiry_height,
                transparent_inputs,
                transparent_outputs,
                sapling_spends,
                sapling_outputs,
                sapling_value_balance,
                sapling_anchor: clone_bytes(&p.sapling.anchor),
                sapling_bsk,
                orchard_actions,
                orchard_flags: p.orchard.flags,
                orchard_value_balance,
                orchard_anchor: clone_bytes(&p.orchard.anchor),
                orchard_zkproof,
                orchard_bsk,
            },
        )
    }
}

/// A finalized transparent input reproduces its record's fields.
pub open spec fn tin_effect_matches(e: TxInEffect, i: transparent::InputV) -> bool {
    e.prevout_txid@ == i.prevout_txid && e.prevout_index == i.prevout_index && e.sequence
        == i.sequence && Some(e.script_sig@) == i.script_sig && e.value == i.value
        && e.script_pubkey@ == i.script_pubkey
}

/// A finalized transparent output reproduces its record's fields.
pub open spec fn tout_effect_matches(e: TxOutEffect, o: transparent::OutputV) -> bool {
    e.value == o.value && e.script_pubkey@ == o.script_pubkey
}

/// A finalized Sapling spend reproduces its record's fields.
pub open spec fn sspend_effect_matches(e: SaplingSpendEffect, s: sapling::SpendV) -> bool {
    e.cv@ == s.cv && e.nullifier@ == s.nullifier && e.rk@ == s.rk && Some(e.zkproof@) == s.zkproof
        && Some(e.spend_auth_sig@) == s.spend_auth_sig
}

/// A finalized Sapling output reproduces its record's fields.
pub open spec fn sout_effect_matches(e: SaplingOutputEffect, o: sapling::OutputV) -> bool {
    e.cv@ == o.cv && e.cmu@ == o.cmu && e.ephemeral_key@ == o.ephemeral_key && e.enc_ciphertext@
        == o.enc_ciphertext && e.out_ciphertext@ == o.out_ciphertext && Some(e.zkproof@)
        == o.zkproof
}

/// A finalized Orchard action reproduces its record's fields.
pub open spec fn action_effect_matches(e: OrchardActionEffect, a: orchard::ActionV) -> bool {
    e.cv@ == a.cv && e.nullifier@ == a.spend.nullifier && e.rk@ == a.spend.rk && e.cmx@
        == a.output.cmx && e.ephemeral_key@ == a.output.ephemeral_key && e.enc_ciphertext@
        == a.output.enc_ciphertext && e.out_ciphertext@ == a.output.out_ciphertext && Some(
        e.spend_auth_sig@,
    ) == a.spend.spend_auth_sig
}

/// The extracted effects reproduce the document exactly: the global fields,
/// every record of every pool, the balances, and the pool-level proof and
/// binding keys. Empty shielded pools reduce to nothing.
pub open spec fn effects_match(fx: TransactionEffects, d: PcztV) -> bool {
    fx.tx_version == d.global.tx_version && fx.version_group_id == d.global.version_group_id
        && fx.consensus_branch_id == d.global.consensus_branch_id && fx.lock_time
        == d.global.lock_time && fx.expiry_height == d.global.expiry_height
        && fx.transparent_inputs@.len() == d.transparent.inputs.len() && (forall|k: int|
        0 <= k < d.transparent.inputs.len() ==> tin_effect_matches(
            #[trigger] fx.transparent_inputs@[k],
            d.transparent.inputs[k],
        )) && fx.transparent_outputs@.len() == d.transparent.outputs.len() && (forall|k: int|
        0 <= k < d.transparent.outputs.len() ==> tout_effect_matches(
            #[trigger] fx.transparent_outputs@[k],
            d.transparent.outputs[k],
        )) && fx.sapling_spends@.len() == d.sapling.spends.len() && (forall|k: int|
        0 <= k < d.sapling.spends.len() ==> sspend_effect_matches(
            #[trigger] fx.sapling_spends@[k],
            d.sapling.spends[k],
        )) && fx.sapling_outputs@.len() == d.sapling.outputs.len() && (forall|k: int|
        0 <= k < d.sapling.outputs.len() ==> sout_effect_matches(
            #[trigger] fx.sapling_outputs@[k],
            d.sapling.outputs[k],
        )) && ((d.sapling.spends.len() > 0 || d.sapling.outputs.len() > 0) ==> (
    fx.sapling_value_balance == d.sapling.value_balance && crate::bytes::ovb(fx.sapling_bsk)
        == d.sapling.bsk)) && ((d.sapling.spends.len() == 0 && d.sapling.outputs.len() == 0) ==> (
    fx.sapling_value_balance == 0 && fx.sapling_bsk is None)) && fx.sapling_anchor@
        == d.sapling.anchor && fx.orchard_actions@.len()
        == d.orchard.actions.len() && (forall|k: int|
        0 <= k < d.orchard.actions.len() ==> action_effect_matches(
            #[trigger] fx.orchard_actions@[k],
            d.orchard.actions[k],
        )) && fx.orchard_flags == d.orchard.flags && (d.orchard.actions.len() > 0 ==> (
    fx.orchard_value_balance == d.orchard.value_balance && crate::bytes::ovb(fx.orchard_zkproof)
        == d.orchard.zkproof && crate::bytes::ovb(fx.orchard_bsk) == d.orchard.bsk))
        && (d.orchard.actions.len() == 0 ==> (fx.orchard_value_balance == 0 && fx.orchard_zkproof
        is None && fx.orchard_bsk is None)) && fx.orchard_anchor@ == d.orchard.anchor
}


/// The binding signatures of the two shielded pools over the shared
/// signature hash, each absent exactly when its pool is empty.
pub struct BindingSignatures {
    pub sapling: Option<Vec<u8>>,
    pub orchard: Option<Vec<u8>>,
}

/// Every Sapling spend's authorization signature verifies under its
/// randomized key over the message.
pub open spec fn sapling_spend_auths_valid(s: Seq<SaplingSpendEffect>, msg: Seq<u8>) -> bool {
    forall|i: int|
        0 <= i < s.len() ==> ((#[trigger] s[i]).rk@.len() == 32 && is_redjubjub_vk(s[i].rk@)
            && s[i].spend_auth_sig@.len() == 64 && redjubjub_spend_sig_valid(
            s[i].rk@,
            msg,
            s[i].spend_auth_sig@,
        ))
}

/// Every Orchard action's authorization signature verifies under its
/// randomized key over the message.
pub open spec fn orchard_spend_auths_valid(s: Seq<OrchardActionEffect>, msg: Seq<u8>) -> bool {
    forall|i: int|
        0 <= i < s.len() ==> ((#[trigger] s[i]).rk@.len() == 32 && is_redpallas_vk(s[i].rk@)
            && s[i].spend_auth_sig@.len() == 64 && redpallas_spend_sig_valid(
            s[i].rk@,
            msg,
            s[i].spend_auth_sig@,
        ))
}

/// Whether a pool's frozen binding key, when present, decodes as a signing
/// key of the RedJubjub binding scheme.
pub open spec fn sapling_bsk_decodes(b: Option<Vec<u8>>) -> bool {
    match b {
        Some(k) => k@.len() == 32 && is_jubjub_scalar(k@),
        None => true,
    }
}

/// Whether a pool's frozen binding key, when present, decodes as a signing
/// key of the RedPallas binding scheme.
pub open spec fn orchard_bsk_decodes(b: Option<Vec<u8>>) -> bool {
    match b {
        Some(k) => k@.len() == 32 && is_pallas_scalar(k@),
        None => true,
    }
}

impl TransactionEffects {
    /// Independently re-verifies every spend-authorization signature against
    /// the shared signature hash, under the randomized verification key its
    /// record carries. Extraction must not be completed when this returns
    /// false.
    #[verifier::loop_isolation(false)]
    pub fn verify_spend_auth_signatures(&self, sighash: &Vec<u8>) -> (r: bool)
        ensures
            r == (sapling_spend_auths_valid(self.sapling_spends@, sighash@)
                && orchard_spend_auths_valid(self.orchard_actions@, sighash@)),
    {
        let n: usize = self.sapling_spends.len();
        let mut i: usize = 0;
        while i < n
            invariant
                n == self.sapling_spends@.len(),
                0 <= i <= n,
                forall|k: int|
                    0 <= k < i ==> ((#[trigger] self.sapling_spends@[k]).rk@.len() == 32
                        && is_redjubjub_vk(self.sapling_spends@[k].rk@)
                        && self.sapling_spends@[k].spend_auth_sig@.len() == 64
                        && redjubjub_spend_sig_valid(
                        self.sapling_spends@[k].rk@,
                        sighash@,
                        self.sapling_spends@[k].spend_auth_sig@,
                    )),
            decreases n - i,
        {
            let rec = &self.sapling_spends[i];
            if !verify_redjubjub_spend_sig(&rec.rk, sighash, &rec.spend_auth_sig) {
                return false;
            }
            i += 1;
        }
        let m: usize = self.orchard_actions.len();
        let mut j: usize = 0;
        while j < m
            invariant
                m == self.orchard_actions@.len(),
                0 <= j <= m,
                forall|k: int|
                    0 <= k < j ==> ((#[trigger] self.orchard_actions@[k]).rk@.len() == 32
                        && is_redpallas_vk(self.orchard_actions@[k].rk@)
                        && self.orchard_actions@[k].spend_auth_sig@.len() == 64
                        && redpallas_spend_sig_valid(
                        self.orchard_actions@[k].rk@,
                        sighash@,
                        self.orchard_actions@[k].spend_auth_sig@,
                    )),
            decreases m - j,
        {
            let rec = &self.orchard_actions[j];
            if !verify_redpallas_spend_sig(&rec.rk, sighash, &rec.spend_auth_sig) {
                return false;
            }
            j += 1;
        }
        true
    }

    /// Derives each non-empty pool's binding signature from its frozen
    /// signing key over the shared signature hash. Each produced signature
    /// verifies, in its pool's binding scheme, under the verification key
    /// derived from that signing key, which the value commitments of an
    /// honestly balanced pool sum to.
    pub fn derive_binding_signatures(&self, sighash: &Vec<u8>) -> (r: Result<
        BindingSignatures,
        Error,
    >)
        ensures
            r == Err::<BindingSignatures, Error>(
                Error::Sapling(crate::sapling::Error::InvalidBindingSignatureKey),
            ) <==> !sapling_bsk_decodes(self.sapling_bsk),
            r == Err::<BindingSignatures, Error>(
                Error::Orchard(crate::orchard::Error::InvalidBindingSignatureKey),
            ) <==> (sapling_bsk_decodes(self.sapling_bsk) && !orchard_bsk_decodes(
                self.orchard_bsk,
            )),
            r is Ok <==> (sapling_bsk_decodes(self.sapling_bsk) && orchard_bsk_decodes(
                self.orchard_bsk,
            )),
            r matches Ok(bs) ==> ((bs.sapling is Some <==> self.sapling_bsk is Some) && (
            bs.orchard is Some <==> self.orchard_bsk is Some) && (self.sapling_bsk matches Some(k)
                ==> (bs.sapling matches Some(sig) && sig@.len() == 64
                && redjubjub_binding_sig_valid(redjubjub_vk_of_sk(k@), sighash@, sig@))) && (
            self.orchard_bsk matches Some(k) ==> (bs.orchard matches Some(sig) && sig@.len() == 64
                && redpallas_binding_sig_valid(redpallas_vk_of_sk(k@), sighash@, sig@)))),
    {
        let sapling = match &self.sapling_bsk {
            Some(k) => match sign_redjubjub_binding(k, sighash) {
                Some(sig) => Some(sig),
                None => {
                    return Err(Error::Sapling(crate::sapling::Error::InvalidBindingSignatureKey));
                },
            },
            None => None,
        };
        let orchard = match &self.orchard_bsk {
            Some(k) => match sign_redpallas_binding(k, sighash) {
                Some(sig) => Some(sig),
                None => {
                    return Err(Error::Orchard(crate::orchard::Error::InvalidBindingSignatureKey));
                },
            },
            None => None,
        };
        Ok(BindingSignatures { sapling, orchard })
    }
}

} // verus!

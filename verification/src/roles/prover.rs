//! The Prover role: attaches zero-knowledge proofs to records.
//!
//! Proofs are produced outside the document (by the proving system) and
//! attached here; only their shape is validated. Semantic validity is
//! deferred to the Transaction Extractor's final verification pass.

use vstd::pervasive::VecAdditionalExecFns;
use vstd::prelude::*;

use crate::sapling::{self, GROTH_PROOF_SIZE};
use crate::{Pczt, PcztV};

verus! {

/// Attaches proofs to a document on behalf of a capability holder.
pub struct Prover {
    pub pczt: Pczt,
}

/// Failures while attaching a proof.
#[derive(Debug, PartialEq, Eq, Structural)]
pub enum Error {
    /// No record exists at the given position.
    IndexOutOfRange,
    /// The proof bytes do not have the fixed proof encoding length.
    InvalidProofLength,
}

/// Everything except the Sapling spend list is untouched.
pub open spec fn spends_context_unchanged(a: PcztV, b: PcztV) -> bool {
    a.global == b.global && a.transparent == b.transparent && a.orchard == b.orchard
        && a.sapling.anchor == b.sapling.anchor && a.sapling.bsk == b.sapling.bsk
        && a.sapling.value_balance == b.sapling.value_balance && a.sapling.outputs
        == b.sapling.outputs
}

/// Everything except the Sapling output list is untouched.
pub open spec fn outputs_context_unchanged(a: PcztV, b: PcztV) -> bool {
    a.global == b.global && a.transparent == b.transparent && a.orchard == b.orchard
        && a.sapling.anchor == b.sapling.anchor && a.sapling.bsk == b.sapling.bsk
        && a.sapling.value_balance == b.sapling.value_balance && a.sapling.spends
        == b.sapling.spends
}

impl Prover {
    /// Takes custody of a document for proving.
    pub fn new(pczt: Pczt) -> (r: Prover)
        ensures
            r.pczt == pczt,
    {
        Prover { pczt }
    }

    /// Releases the document with all proofs attached.
    pub fn finish(self) -> (r: Pczt)
        ensures
            r == self.pczt,
    {
        self.pczt
    }

    /// Attaches the proof for the Sapling spend at `index`.
    pub fn attach_sapling_spend_proof(&mut self, index: usize, proof: Vec<u8>) -> (r: Result<
        (),
        Error,
    >)
        requires
            old(self).pczt.wf(),
        ensures
            final(self).pczt.wf(),
            r is Err ==> final(self).pczt@ == old(self).pczt@,
            r == Err::<(), Error>(Error::IndexOutOfRange) <==> index >= old(self).pczt@.sapling.spends.len(),
            r == Err::<(), Error>(Error::InvalidProofLength) <==> (index < old(self).pczt@.sapling.spends.len() && proof@.len() != GROTH_PROOF_SIZE),
            r is Ok <==> (index < old(self).pczt@.sapling.spends.len() && proof@.len()
                == GROTH_PROOF_SIZE),
            r is Ok ==> (spends_context_unchanged(final(self).pczt@, old(self).pczt@) && final(self).pczt@.sapling.spends == old(self).pczt@.sapling.spends.update(
                index as int,
                (sapling::SpendV {
                    zkproof: Some(proof@),
                    ..old(self).pczt@.sapling.spends[index as int]
                }),
            )),
    {
        if index >= self.pczt.sapling.spends.len() {
            return Err(Error::IndexOutOfRange);
        }
        if proof.len() != GROTH_PROOF_SIZE {
            return Err(Error::InvalidProofLength);
        }
        let mut rec = self.pczt.sapling.spends[index].clone_spend();
        rec.zkproof = Some(proof);
        self.pczt.sapling.spends.set(index, rec);
        proof {
            assert(self.pczt@.sapling.spends =~= old(self).pczt@.sapling.spends.update(
                index as int,
                (sapling::SpendV {
                    zkproof: Some(proof@),
                    ..old(self).pczt@.sapling.spends[index as int]
                }),
            ));
            assert(self.pczt@.sapling.outputs =~= old(self).pczt@.sapling.outputs);
        }
        Ok(())
    }

    /// Attaches the proof for the Sapling output at `index`.
    pub fn attach_sapling_output_proof(&mut self, index: usize, proof: Vec<u8>) -> (r: Result<
        (),
        Error,
    >)
        requires
            old(self).pczt.wf(),
        ensures
            final(self).pczt.wf(),
            r is Err ==> final(self).pczt@ == old(self).pczt@,
            r == Err::<(), Error>(Error::IndexOutOfRange) <==> index >= old(self).pczt@.sapling.outputs.len(),
            r == Err::<(), Error>(Error::InvalidProofLength) <==> (index < old(self).pczt@.sapling.outputs.len() && proof@.len() != GROTH_PROOF_SIZE),
            r is Ok <==> (index < old(self).pczt@.sapling.outputs.len() && proof@.len()
                == GROTH_PROOF_SIZE),
            r is Ok ==> (outputs_context_unchanged(final(self).pczt@, old(self).pczt@) && final(self).pczt@.sapling.outputs == old(self).pczt@.sapling.outputs.update(
                index as int,
                (sapling::OutputV {
                    zkproof: Some(proof@),
                    ..old(self).pczt@.sapling.outputs[index as int]
                }),
            )),
    {
        if index >= self.pczt.sapling.outputs.len() {
            return Err(Error::IndexOutOfRange);
        }
        if proof.len() != GROTH_PROOF_SIZE {
            return Err(Error::InvalidProofLength);
        }
        let mut rec = self.pczt.sapling.outputs[index].clone_output();
        rec.zkproof = Some(proof);
        self.pczt.sapling.outputs.set(index, rec);
        proof {
            assert(self.pczt@.sapling.outputs =~= old(self).pczt@.sapling.outputs.update(
                index as int,
                (sapling::OutputV {
                    zkproof: Some(proof@),
                    ..old(self).pczt@.sapling.outputs[index as int]
                }),
            ));
            assert(self.pczt@.sapling.spends =~= old(self).pczt@.sapling.spends);
        }
        Ok(())
    }

    /// Attaches the single proof covering every Orchard action.
    pub fn attach_orchard_proof(&mut self, proof: Vec<u8>)
        requires
            old(self).pczt.wf(),
        ensures
            final(self).pczt.wf(),
            final(self).pczt@.global == old(self).pczt@.global,
            final(self).pczt@.transparent == old(self).pczt@.transparent,
            final(self).pczt@.sapling == old(self).pczt@.sapling,
            final(self).pczt@.orchard == (crate::orchard::BundleV {
                zkproof: Some(proof@),
                ..old(self).pczt@.orchard
            }),
    {
        self.pczt.orchard.zkproof = Some(proof);
    }
}

} // verus!

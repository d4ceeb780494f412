//! The Signer role: attaches authorization signatures to records.
//!
//! Signatures are created outside the document with the spend-authorization
//! randomizers recorded by the Constructor; only their shape is validated
//! here.

use vstd::pervasive::VecAdditionalExecFns;
use vstd::prelude::*;

use crate::bytemap::map_set;
use crate::{orchard, sapling, transparent, Pczt, PcztV};

verus! {

/// Attaches signatures to a document on behalf of a key holder.
pub struct Signer {
    pub pczt: Pczt,
}

/// Failures while attaching a signature.
#[derive(Debug, PartialEq, Eq, Structural)]
pub enum Error {
    /// No record exists at the given position.
    IndexOutOfRange,
    /// The signature bytes do not have the fixed signature encoding length.
    InvalidSignatureLength,
}

/// Everything except the Sapling spend list is untouched.
pub open spec fn sapling_context_unchanged(a: PcztV, b: PcztV) -> bool {
    a.global == b.global && a.transparent == b.transparent && a.orchard == b.orchard
        && a.sapling.anchor == b.sapling.anchor && a.sapling.bsk == b.sapling.bsk
        && a.sapling.value_balance == b.sapling.value_balance && a.sapling.outputs
        == b.sapling.outputs
}

/// Everything except the Orchard action list is untouched.
pub open spec fn orchard_context_unchanged(a: PcztV, b: PcztV) -> bool {
    a.global == b.global && a.transparent == b.transparent && a.sapling == b.sapling
        && a.orchard.anchor == b.orchard.anchor && a.orchard.bsk == b.orchard.bsk
        && a.orchard.flags == b.orchard.flags && a.orchard.zkproof == b.orchard.zkproof
        && a.orchard.value_balance == b.orchard.value_balance
}

/// Everything except the transparent input list is untouched.
pub open spec fn transparent_context_unchanged(a: PcztV, b: PcztV) -> bool {
    a.global == b.global && a.sapling == b.sapling && a.orchard == b.orchard
        && a.transparent.outputs == b.transparent.outputs
}

impl Signer {
    /// Takes custody of a document for signing.
    pub fn new(pczt: Pczt) -> (r: Signer)
        ensures
            r.pczt == pczt,
    {
        Signer { pczt }
    }

    /// Releases the document with all signatures attached.
    pub fn finish(self) -> (r: Pczt)
        ensures
            r == self.pczt,
    {
        self.pczt
    }

    /// Attaches the spend-authorization signature for the Sapling spend at
    /// `index`.
    pub fn attach_sapling_spend_signature(&mut self, index: usize, sig: Vec<u8>) -> (r: Result<
        (),
        Error,
    >)
        requires
            old(self).pczt.wf(),
        ensures
            final(self).pczt.wf(),
            r is Err ==> final(self).pczt@ == old(self).pczt@,
            r == Err::<(), Error>(Error::IndexOutOfRange) <==> index >= old(self).pczt@.sapling.spends.len(),
            r == Err::<(), Error>(Error::InvalidSignatureLength) <==> (index < old(self).pczt@.sapling.spends.len() && sig@.len() != 64),
            r is Ok <==> (index < old(self).pczt@.sapling.spends.len() && sig@.len() == 64),
            r is Ok ==> (sapling_context_unchanged(final(self).pczt@, old(self).pczt@) && final(self).pczt@.sapling.spends == old(self).pczt@.sapling.spends.update(
                index as int,
                (sapling::SpendV {
                    spend_auth_sig: Some(sig@),
                    ..old(self).pczt@.sapling.spends[index as int]
                }),
            )),
    {
        if index >= self.pczt.sapling.spends.len() {
            return Err(Error::IndexOutOfRange);
        }
        if sig.len() != 64 {
            return Err(Error::InvalidSignatureLength);
        }
        let mut rec = self.pczt.sapling.spends[index].clone_spend();
        rec.spend_auth_sig = Some(sig);
        self.pczt.sapling.spends.set(index, rec);
        proof {
            assert(self.pczt@.sapling.spends =~= old(self).pczt@.sapling.spends.update(
                index as int,
                (sapling::SpendV {
                    spend_auth_sig: Some(sig@),
                    ..old(self).pczt@.sapling.spends[index as int]
                }),
            ));
            assert(self.pczt@.sapling.outputs =~= old(self).pczt@.sapling.outputs);
        }
        Ok(())
    }

    /// Attaches the spend-authorization signature for the Orchard action at
    /// `index`.
    pub fn attach_orchard_spend_signature(&mut self, index: usize, sig: Vec<u8>) -> (r: Result<
        (),
        Error,
    >)
        requires
            old(self).pczt.wf(),
        ensures
            final(self).pczt.wf(),
            r is Err ==> final(self).pczt@ == old(self).pczt@,
            r == Err::<(), Error>(Error::IndexOutOfRange) <==> index >= old(self).pczt@.orchard.actions.len(),
            r == Err::<(), Error>(Error::InvalidSignatureLength) <==> (index < old(self).pczt@.orchard.actions.len() && sig@.len() != 64),
            r is Ok <==> (index < old(self).pczt@.orchard.actions.len() && sig@.len() == 64),
            r is Ok ==> (orchard_context_unchanged(final(self).pczt@, old(self).pczt@) && final(self).pczt@.orchard.actions == old(self).pczt@.orchard.actions.update(
                index as int,
                (orchard::ActionV {
                    spend: orchard::SpendV {
                        spend_auth_sig: Some(sig@),
                        ..old(self).pczt@.orchard.actions[index as int].spend
                    },
                    ..old(self).pczt@.orchard.actions[index as int]
                }),
            )),
    {
        if index >= self.pczt.orchard.actions.len() {
            return Err(Error::IndexOutOfRange);
        }
        if sig.len() != 64 {
            return Err(Error::InvalidSignatureLength);
        }
        let mut rec = self.pczt.orchard.actions[index].clone_action();
        rec.spend.spend_auth_sig = Some(sig);
        self.pczt.orchard.actions.set(index, rec);
        proof {
            assert(self.pczt@.orchard.actions =~= old(self).pczt@.orchard.actions.update(
                index as int,
                (orchard::ActionV {
                    spend: orchard::SpendV {
                        spend_auth_sig: Some(sig@),
                        ..old(self).pczt@.orchard.actions[index as int].spend
                    },
                    ..old(self).pczt@.orchard.actions[index as int]
                }),
            ));
        }
        Ok(())
    }

    /// Records a partial signature for the transparent input at `index`,
    /// keyed by the public key it verifies under.
    pub fn attach_transparent_signature(
        &mut self,
        index: usize,
        pubkey: Vec<u8>,
        sig: Vec<u8>,
    ) -> (r: Result<(), Error>)
        requires
            old(self).pczt.wf(),
        ensures
            final(self).pczt.wf(),
            r is Err ==> final(self).pczt@ == old(self).pczt@,
            r == Err::<(), Error>(Error::IndexOutOfRange) <==> index >= old(self).pczt@.transparent.inputs.len(),
            r is Ok <==> index < old(self).pczt@.transparent.inputs.len(),
            r is Ok ==> (transparent_context_unchanged(final(self).pczt@, old(self).pczt@) && final(self).pczt@.transparent.inputs == old(self).pczt@.transparent.inputs.update(
                index as int,
                (transparent::InputV {
                    partial_signatures: map_set(
                        old(self).pczt@.transparent.inputs[index as int].partial_signatures,
                        pubkey@,
                        sig@,
                    ),
                    ..old(self).pczt@.transparent.inputs[index as int]
                }),
            )),
    {
        if index >= self.pczt.transparent.inputs.len() {
            return Err(Error::IndexOutOfRange);
        }
        let mut rec = self.pczt.transparent.inputs[index].clone_input();
        rec.partial_signatures.set_entry(pubkey, sig);
        self.pczt.transparent.inputs.set(index, rec);
        proof {
            assert(self.pczt@.transparent.inputs =~= old(self).pczt@.transparent.inputs.update(
                index as int,
                (transparent::InputV {
                    partial_signatures: map_set(
                        old(self).pczt@.transparent.inputs[index as int].partial_signatures,
                        pubkey@,
                        sig@,
                    ),
                    ..old(self).pczt@.transparent.inputs[index as int]
                }),
            ));
            assert(self.pczt@.transparent.outputs =~= old(self).pczt@.transparent.outputs);
        }
        Ok(())
    }
}

} // verus!

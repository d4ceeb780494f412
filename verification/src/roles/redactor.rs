//! The Redactor role: strips private fields that later roles no longer need.
//!
//! Each optional field is independently removable; required fields are never
//! touched. A downstream role that needs a removed field reports a typed
//! error instead of silently treating absence as a value.

use vstd::pervasive::VecAdditionalExecFns;
use vstd::prelude::*;

use crate::{orchard, sapling, Pczt, PcztV};

verus! {

/// Removes optional fields from a document's records.
pub struct Redactor {
    pub pczt: Pczt,
}

/// Failures while redacting.
#[derive(Debug, PartialEq, Eq, Structural)]
pub enum Error {
    /// No record exists at the given position.
    IndexOutOfRange,
}

/// The optional fields of a Sapling spend that can be redacted.
#[derive(Debug, PartialEq, Eq, Structural)]
pub enum SaplingSpendField {
    Recipient,
    Value,
    Rseed,
    Rcv,
    ProofGenerationKey,
    Witness,
    Alpha,
    Zip32Derivation,
}

/// The optional fields of a Sapling output that can be redacted.
#[derive(Debug, PartialEq, Eq, Structural)]
pub enum SaplingOutputField {
    Recipient,
    Value,
    Rseed,
    Rcv,
    SharedSecret,
    Ock,
    Zip32Derivation,
}

/// The optional fields of an Orchard action that can be redacted, on either
/// of its halves.
#[derive(Debug, PartialEq, Eq, Structural)]
pub enum OrchardActionField {
    SpendRecipient,
    SpendValue,
    SpendRho,
    SpendRseed,
    SpendFvk,
    SpendWitness,
    SpendAlpha,
    SpendZip32Derivation,
    OutputRecipient,
    OutputValue,
    OutputRseed,
    OutputSharedSecret,
    OutputOck,
    OutputZip32Derivation,
    Rcv,
}

/// A Sapling spend with one optional field removed.
pub open spec fn sapling_spend_without(s: sapling::SpendV, f: SaplingSpendField) -> sapling::SpendV {
    match f {
        SaplingSpendField::Recipient => sapling::SpendV { recipient: None, ..s },
        SaplingSpendField::Value => sapling::SpendV { value: None, ..s },
        SaplingSpendField::Rseed => sapling::SpendV { rseed: None, ..s },
        SaplingSpendField::Rcv => sapling::SpendV { rcv: None, ..s },
        SaplingSpendField::ProofGenerationKey => sapling::SpendV {
            proof_generation_key: None,
            ..s
        },
        SaplingSpendField::Witness => sapling::SpendV { witness: None, ..s },
        SaplingSpendField::Alpha => sapling::SpendV { alpha: None, ..s },
        SaplingSpendField::Zip32Derivation => sapling::SpendV { zip32_derivation: None, ..s },
    }
}

/// A Sapling output with one optional field removed.
pub open spec fn sapling_output_without(
    s: sapling::OutputV,
    f: SaplingOutputField,
) -> sapling::OutputV {
    match f {
        SaplingOutputField::Recipient => sapling::OutputV { recipient: None, ..s },
        SaplingOutputField::Value => sapling::OutputV { value: None, ..s },
        SaplingOutputField::Rseed => sapling::OutputV { rseed: None, ..s },
        SaplingOutputField::Rcv => sapling::OutputV { rcv: None, ..s },
        SaplingOutputField::SharedSecret => sapling::OutputV { shared_secret: None, ..s },
        SaplingOutputField::Ock => sapling::OutputV { ock: None, ..s },
        SaplingOutputField::Zip32Derivation => sapling::OutputV { zip32_derivation: None, ..s },
    }
}

/// An Orchard action with one optional field removed.
pub open spec fn orchard_action_without(
    a: orchard::ActionV,
    f: OrchardActionField,
) -> orchard::ActionV {
    match f {
        OrchardActionField::SpendRecipient => orchard::ActionV {
            spend: orchard::SpendV { recipient: None, ..a.spend },
            ..a
        },
        OrchardActionField::SpendValue => orchard::ActionV {
            spend: orchard::SpendV { value: None, ..a.spend },
            ..a
        },
        OrchardActionField::SpendRho => orchard::ActionV {
            spend: orchard::SpendV { rho: None, ..a.spend },
            ..a
        },
        OrchardActionField::SpendRseed => orchard::ActionV {
            spend: orchard::SpendV { rseed: None, ..a.spend },
            ..a
        },
        OrchardActionField::SpendFvk => orchard::ActionV {
            spend: orchard::SpendV { fvk: None, ..a.spend },
            ..a
        },
        OrchardActionField::SpendWitness => orchard::ActionV {
            spend: orchard::SpendV { witness: None, ..a.spend },
            ..a
        },
        OrchardActionField::SpendAlpha => orchard::ActionV {
            spend: orchard::SpendV { alpha: None, ..a.spend },
            ..a
        },
        OrchardActionField::SpendZip32Derivation => orchard::ActionV {
            spend: orchard::SpendV { zip32_derivation: None, ..a.spend },
            ..a
        },
        OrchardActionField::OutputRecipient => orchard::ActionV {
            output: orchard::OutputV { recipient: None, ..a.output },
            ..a
        },
        OrchardActionField::OutputValue => orchard::ActionV {
            output: orchard::OutputV { value: None, ..a.output },
            ..a
        },
        OrchardActionField::OutputRseed => orchard::ActionV {
            output: orchard::OutputV { rseed: None, ..a.output },
            ..a
        },
        OrchardActionField::OutputSharedSecret => orchard::ActionV {
            output: orchard::OutputV { shared_secret: None, ..a.output },
            ..a
        },
        OrchardActionField::OutputOck => orchard::ActionV {
            output: orchard::OutputV { ock: None, ..a.output },
            ..a
        },
        OrchardActionField::OutputZip32Derivation => orchard::ActionV {
            output: orchard::OutputV { zip32_derivation: None, ..a.output },
            ..a
        },
        OrchardActionField::Rcv => orchard::ActionV { rcv: None, ..a },
    }
}

/// Everything except the Sapling spend list is untouched.
pub open spec fn spends_context_unchanged(a: PcztV, b: PcztV) -> bool {
    a.global == b.global && a.transparent == b.transparent && a.orchard == b.orchard
        && a.sapling.anchor == b.sapling.anchor && a.sapling.bsk == b.sapling.bsk
        && a.sapling.value_balance == b.sapling.value_balance && a.sapling.outputs
        == b.sapling.outputs
}

/// Everything except the Sapling output list is untouched.
pub open spec fn outputs_context_unchanged(a: PcztV, b: PcztV) -> bool {
    a.global == b.global && a.transparent == b.transparent && a.orchard == b.orchard
        && a.sapling.anchor == b.sapling.anchor && a.sapling.bsk == b.sapling.bsk
        && a.sapling.value_balance == b.sapling.value_balance && a.sapling.spends
        == b.sapling.spends
}

/// Everything except the Orchard action list is untouched.
pub open spec fn actions_context_unchanged(a: PcztV, b: PcztV) -> bool {
    a.global == b.global && a.transparent == b.transparent && a.sapling == b.sapling
        && a.orchard.anchor == b.orchard.anchor && a.orchard.bsk == b.orchard.bsk
        && a.orchard.flags == b.orchard.flags && a.orchard.zkproof == b.orchard.zkproof
        && a.orchard.value_balance == b.orchard.value_balance
}

impl Redactor {
    /// Takes custody of a document for redaction.
    pub fn new(pczt: Pczt) -> (r: Redactor)
        ensures
            r.pczt == pczt,
    {
        Redactor { pczt }
    }

    /// Releases the document with the redactions applied.
    pub fn finish(self) -> (r: Pczt)
        ensures
            r == self.pczt,
    {
        self.pczt
    }

    /// Removes one optional field from the Sapling spend at `index`.
    pub fn redact_sapling_spend_field(&mut self, index: usize, field: SaplingSpendField) -> (r:
        Result<(), Error>)
        requires
            old(self).pczt.wf(),
        ensures
            final(self).pczt.wf(),
            r is Err ==> final(self).pczt@ == old(self).pczt@,
            r is Err <==> index >= old(self).pczt@.sapling.spends.len(),
            r is Ok ==> (spends_context_unchanged(final(self).pczt@, old(self).pczt@) && final(self).pczt@.sapling.spends == old(self).pczt@.sapling.spends.update(
                index as int,
                sapling_spend_without(old(self).pczt@.sapling.spends[index as int], field),
            )),
    {
        if index >= self.pczt.sapling.spends.len() {
            return Err(Error::IndexOutOfRange);
        }
        let mut rec = self.pczt.sapling.spends[index].clone_spend();
        match field {
            SaplingSpendField::Recipient => {
                rec.recipient = None;
            },
            SaplingSpendField::Value => {
                rec.value = None;
            },
            SaplingSpendField::Rseed => {
                rec.rseed = None;
            },
            SaplingSpendField::Rcv => {
                rec.rcv = None;
            },
            SaplingSpendField::ProofGenerationKey => {
                rec.proof_generation_key = None;
            },
            SaplingSpendField::Witness => {
                rec.witness = None;
            },
            SaplingSpendField::Alpha => {
                rec.alpha = None;
            },
            SaplingSpendField::Zip32Derivation => {
                rec.zip32_derivation = None;
            },
        }
        self.pczt.sapling.spends.set(index, rec);
        proof {
            assert(self.pczt@.sapling.spends =~= old(self).pczt@.sapling.spends.update(
                index as int,
                sapling_spend_without(old(self).pczt@.sapling.spends[index as int], field),
            ));
            assert(self.pczt@.sapling.outputs =~= old(self).pczt@.sapling.outputs);
        }
        Ok(())
    }

    /// Removes one optional field from the Sapling output at `index`.
    pub fn redact_sapling_output_field(&mut self, index: usize, field: SaplingOutputField) -> (r:
        Result<(), Error>)
        requires
            old(self).pczt.wf(),
        ensures
            final(self).pczt.wf(),
            r is Err ==> final(self).pczt@ == old(self).pczt@,
            r is Err <==> index >= old(self).pczt@.sapling.outputs.len(),
            r is Ok ==> (outputs_context_unchanged(final(self).pczt@, old(self).pczt@) && final(self).pczt@.sapling.outputs == old(self).pczt@.sapling.outputs.update(
                index as int,
                sapling_output_without(old(self).pczt@.sapling.outputs[index as int], field),
            )),
    {
        if index >= self.pczt.sapling.outputs.len() {
            return Err(Error::IndexOutOfRange);
        }
        let mut rec = self.pczt.sapling.outputs[index].clone_output();
        match field {
            SaplingOutputField::Recipient => {
                rec.recipient = None;
            },
            SaplingOutputField::Value => {
                rec.value = None;
            },
            SaplingOutputField::Rseed => {
                rec.rseed = None;
            },
            SaplingOutputField::Rcv => {
                rec.rcv = None;
            },
            SaplingOutputField::SharedSecret => {
                rec.shared_secret = None;
            },
            SaplingOutputField::Ock => {
                rec.ock = None;
            },
            SaplingOutputField::Zip32Derivation => {
                rec.zip32_derivation = None;
            },
        }
        self.pczt.sapling.outputs.set(index, rec);
        proof {
            assert(self.pczt@.sapling.outputs =~= old(self).pczt@.sapling.outputs.update(
                index as int,
                sapling_output_without(old(self).pczt@.sapling.outputs[index as int], field),
            ));
            assert(self.pczt@.sapling.spends =~= old(self).pczt@.sapling.spends);
        }
        Ok(())
    }

    /// Removes one optional field from the Orchard action at `index`.
    pub fn redact_orchard_action_field(&mut self, index: usize, field: OrchardActionField) -> (r:
        Result<(), Error>)
        requires
            old(self).pczt.wf(),
        ensures
            final(self).pczt.wf(),
            r is Err ==> final(self).pczt@ == old(self).pczt@,
            r is Err <==> index >= old(self).pczt@.orchard.actions.len(),
            r is Ok ==> (actions_context_unchanged(final(self).pczt@, old(self).pczt@) && final(self).pczt@.orchard.actions == old(self).pczt@.orchard.actions.update(
                index as int,
                orchard_action_without(old(self).pczt@.orchard.actions[index as int], field),
            )),
    {
        if index >= self.pczt.orchard.actions.len() {
            return Err(Error::IndexOutOfRange);
        }
        let mut rec = self.pczt.orchard.actions[index].clone_action();
        match field {
            OrchardActionField::SpendRecipient => {
                rec.spend.recipient = None;
            },
            OrchardActionField::SpendValue => {
                rec.spend.value = None;
            },
            OrchardActionField::SpendRho => {
                rec.spend.rho = None;
            },
            OrchardActionField::SpendRseed => {
                rec.spend.rseed = None;
            },
            OrchardActionField::SpendFvk => {
                rec.spend.fvk = None;
            },
            OrchardActionField::SpendWitness => {
                rec.spend.witness = None;
            },
            OrchardActionField::SpendAlpha => {
                rec.spend.alpha = None;
            },
            OrchardActionField::SpendZip32Derivation => {
                rec.spend.zip32_derivation = None;
            },
            OrchardActionField::OutputRecipient => {
                rec.output.recipient = None;
            },
            OrchardActionField::OutputValue => {
                rec.output.value = None;
            },
            OrchardActionField::OutputRseed => {
                rec.output.rseed = None;
            },
            OrchardActionField::OutputSharedSecret => {
                rec.output.shared_secret = None;
            },
            OrchardActionField::OutputOck => {
                rec.output.ock = None;
            },
            OrchardActionField::OutputZip32Derivation => {
                rec.output.zip32_derivation = None;
            },
            OrchardActionField::Rcv => {
                rec.rcv = None;
            },
        }
        self.pczt.orchard.actions.set(index, rec);
        proof {
            assert(self.pczt@.orchard.actions =~= old(self).pczt@.orchard.actions.update(
                index as int,
                orchard_action_without(old(self).pczt@.orchard.actions[index as int], field),
            ));
        }
        Ok(())
    }
}

} // verus!

//! A staged, multi-party format for assembling a shielded transaction.
//!
//! A [`Pczt`] (partially created Zcash transaction) carries a transaction
//! under construction between independent roles: a Creator produces the empty
//! document, Constructors append spends and outputs, the IO Finalizer freezes
//! the record counts and derives the binding-signature keys, Provers and
//! Signers attach proofs and signatures, and the Transaction Extractor reduces
//! the document to its final authorized form. Copies held by different parties
//! are reconciled by a pure merge with explicit conflict reporting.

use vstd::prelude::*;

pub mod bytes;
pub mod bytemap;
pub mod common;
pub mod crypto;
pub mod laws;
pub mod transparent;
pub mod sapling;
pub mod orchard;
pub mod roles;

use crate::common::{Global, GlobalV};

verus! {

/// The transaction version written by the Creator.
pub const V5_TX_VERSION: u32 = 5;

/// The version-group id paired with [`V5_TX_VERSION`].
pub const V5_VERSION_GROUP_ID: u32 = 0x26A7270A;

/// A partially created transaction: the global record plus the per-pool
/// bundles. This is the unit that flows between roles and is reconciled by
/// [`Pczt::merge`].
#[derive(Clone)]
pub struct Pczt {
    /// Fields that are relevant to the transaction as a whole.
    pub global: Global,
    pub transparent: transparent::Bundle,
    pub sapling: sapling::Bundle,
    pub orchard: orchard::Bundle,
}

/// The abstract value of a [`Pczt`].
pub ghost struct PcztV {
    pub global: GlobalV,
    pub transparent: transparent::BundleV,
    pub sapling: sapling::BundleV,
    pub orchard: orchard::BundleV,
}

impl View for Pczt {
    type V = PcztV;

    open spec fn view(&self) -> PcztV {
        PcztV {
            global: self.global@,
            transparent: self.transparent@,
            sapling: self.sapling@,
            orchard: self.orchard@,
        }
    }
}

/// The reconciliation of two documents describing the same transaction: the
/// global records and every pool bundle must reconcile, or the whole merge
/// fails without partial effect.
pub open spec fn spec_merge_pczt(a: PcztV, b: PcztV) -> Option<PcztV> {
    if common::spec_merge_global(a.global, b.global) is Some && transparent::spec_merge_transparent(
        a.transparent,
        b.transparent,
    ) is Some && sapling::spec_merge_sapling(a.sapling, b.sapling) is Some
        && orchard::spec_merge_orchard(a.orchard, b.orchard) is Some {
        Some(
            PcztV {
                global: common::spec_merge_global(a.global, b.global).unwrap(),
                transparent: transparent::spec_merge_transparent(
                    a.transparent,
                    b.transparent,
                ).unwrap(),
                sapling: sapling::spec_merge_sapling(a.sapling, b.sapling).unwrap(),
                orchard: orchard::spec_merge_orchard(a.orchard, b.orchard).unwrap(),
            },
        )
    } else {
        None
    }
}

/// Well-formedness of a document: each part is well-formed.
pub open spec fn pczt_wf(a: PcztV) -> bool {
    bytemap::map_wf(a.global.proprietary) && transparent::transparent_wf(a.transparent)
        && sapling::sapling_wf(a.sapling) && orchard::orchard_wf(a.orchard)
}

impl Pczt {
    /// The well-formedness of this document.
    pub open spec fn wf(&self) -> bool {
        pczt_wf(self@)
    }

    /// Reconciles this document with another copy of the same transaction.
    /// `None` reports an irreconcilable conflict; the merge is all-or-nothing,
    /// since a fresh document is returned on success and the inputs are left
    /// untouched.
    pub fn merge(&self, other: &Pczt) -> (r: Option<Pczt>)
        requires
            self.wf(),
            other.wf(),
        ensures
            r is Some <==> spec_merge_pczt(self@, other@) is Some,
            r is Some ==> r.unwrap()@ == spec_merge_pczt(self@, other@).unwrap()
                && r.unwrap().wf(),
    {
        let global = match self.global.merge(&other.global) {
            Some(v) => v,
            None => {
                return None;
            },
        };
        let transparent = match self.transparent.merge(&other.transparent) {
            Some(v) => v,
            None => {
                return None;
            },
        };
        let sapling = match self.sapling.merge(&other.sapling) {
            Some(v) => v,
            None => {
                return None;
            },
        };
        let orchard = match self.orchard.merge(&other.orchard) {
            Some(v) => v,
            None => {
                return None;
            },
        };
        Some(Pczt { global, transparent, sapling, orchard })
    }
}

} // verus!

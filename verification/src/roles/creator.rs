//! The Creator role: produces the base document with no spends or outputs.

use vstd::prelude::*;

use crate::bytemap::ByteMap;
use crate::common::Global;
use crate::{orchard, sapling, transparent, Pczt, V5_TX_VERSION, V5_VERSION_GROUP_ID};

verus! {

/// Builds the base document. The two anchors are fixed here for the lifetime
/// of the transaction, so that all spends in a pool prove against the same
/// historical state.
pub struct Creator {
    pub tx_version: u32,
    pub version_group_id: u32,
    pub consensus_branch_id: u32,
    pub expiry_height: u32,
    pub orchard_flags: u8,
    pub sapling_anchor: Vec<u8>,
    pub orchard_anchor: Vec<u8>,
}

impl Creator {
    /// Starts a creator for the given consensus branch and expiry height,
    /// with both pool anchors. The transaction format defaults to version 5,
    /// and the Orchard pool starts with spends and outputs enabled.
    pub fn new(
        consensus_branch_id: u32,
        expiry_height: u32,
        sapling_anchor: [u8; 32],
        orchard_anchor: [u8; 32],
    ) -> (r: Creator)
        ensures
            r.tx_version == V5_TX_VERSION,
            r.version_group_id == V5_VERSION_GROUP_ID,
            r.consensus_branch_id == consensus_branch_id,
            r.expiry_height == expiry_height,
            r.orchard_flags == 3u8,
            r.sapling_anchor@ == sapling_anchor@,
            r.orchard_anchor@ == orchard_anchor@,
    {
        Creator {
            tx_version: V5_TX_VERSION,
            version_group_id: V5_VERSION_GROUP_ID,
            consensus_branch_id,
            expiry_height,
            orchard_flags: 3u8,
            sapling_anchor: vstd::slice::slice_to_vec(&sapling_anchor),
            orchard_anchor: vstd::slice::slice_to_vec(&orchard_anchor),
        }
    }

    /// Chooses which kinds of Orchard records the transaction may carry: bit
    /// zero of the flags byte enables spends, bit one enables outputs.
    pub fn with_orchard_flags(self, spends_enabled: bool, outputs_enabled: bool) -> (r: Creator)
        ensures
            r.orchard_flags == (if spends_enabled { 1u8 } else { 0u8 }) + (if outputs_enabled {
                2u8
            } else {
                0u8
            }),
            r.tx_version == self.tx_version,
            r.version_group_id == self.version_group_id,
            r.consensus_branch_id == self.consensus_branch_id,
            r.expiry_height == self.expiry_height,
            r.sapling_anchor@ == self.sapling_anchor@,
            r.orchard_anchor@ == self.orchard_anchor@,
    {
        let spend_bit: u8 = if spends_enabled {
            1
        } else {
            0
        };
        let output_bit: u8 = if outputs_enabled {
            2
        } else {
            0
        };
        Creator { orchard_flags: spend_bit + output_bit, ..self }
    }

    /// Produces the base document: the global record fixed by this creator,
    /// empty bundles, zero balances and no binding-signature keys.
    pub fn build(self) -> (r: Pczt)
        requires
            self.sapling_anchor@.len() == 32,
            self.orchard_anchor@.len() == 32,
        ensures
            r.wf(),
            r@.global.tx_version == self.tx_version,
            r@.global.version_group_id == self.version_group_id,
            r@.global.consensus_branch_id == self.consensus_branch_id,
            r@.global.lock_time == 0,
            r@.global.expiry_height == self.expiry_height,
            r@.global.proprietary == Seq::<(Seq<u8>, Seq<u8>)>::empty(),
            r@.transparent.inputs == Seq::<transparent::InputV>::empty(),
            r@.transparent.outputs == Seq::<transparent::OutputV>::empty(),
            r@.sapling.spends == Seq::<sapling::SpendV>::empty(),
            r@.sapling.outputs == Seq::<sapling::OutputV>::empty(),
            r@.sapling.value_balance == 0,
            r@.sapling.anchor == self.sapling_anchor@,
            r@.sapling.bsk is None,
            r@.orchard.actions == Seq::<orchard::ActionV>::empty(),
            r@.orchard.flags == self.orchard_flags,
            r@.orchard.value_balance == 0,
            r@.orchard.anchor == self.orchard_anchor@,
            r@.orchard.zkproof is None,
            r@.orchard.bsk is None,
    {
        let r = Pczt {
            global: Global {
                tx_version: self.tx_version,
                version_group_id: self.version_group_id,
                consensus_branch_id: self.consensus_branch_id,
                lock_time: 0,
                expiry_height: self.expiry_height,
                proprietary: ByteMap::new(),
            },
            transparent: transparent::Bundle { inputs: Vec::new(), outputs: Vec::new() },
            sapling: sapling::Bundle {
                spends: Vec::new(),
                outputs: Vec::new(),
                value_balance: 0,
                anchor: self.sapling_anchor,
                bsk: None,
            },
            orchard: orchard::Bundle {
                actions: Vec::new(),
                flags: self.orchard_flags,
                value_balance: 0,
                anchor: self.orchard_anchor,
                zkproof: None,
                bsk: None,
            },
        };
        proof {
            assert(r@.transparent.inputs =~= Seq::<transparent::InputV>::empty());
            assert(r@.transparent.outputs =~= Seq::<transparent::OutputV>::empty());
            assert(r@.sapling.spends =~= Seq::<sapling::SpendV>::empty());
            assert(r@.sapling.outputs =~= Seq::<sapling::OutputV>::empty());
            assert(r@.orchard.actions =~= Seq::<orchard::ActionV>::empty());
        }
        r
    }
}

} // verus!

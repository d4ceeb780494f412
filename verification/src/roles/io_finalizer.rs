//! The IO Finalizer role: freezes the record counts and derives the
//! binding-signature signing keys.
//!
//! For each shielded pool the signing key is the signed sum of every present
//! record's value-commitment trapdoor (spends positive, outputs negative),
//! so every trapdoor must still be present and decodable. Writing the key
//! freezes the bundle; a second run must re-derive the identical key, and a
//! differing stored key reports an inconsistent document.

use vstd::prelude::*;

use crate::bytes::bytes_eq;
use crate::crypto::{
    is_jubjub_scalar, is_pallas_scalar, jj_add_of, jj_sub_of, jubjub_add, jubjub_sub, jubjub_zero,
    pallas_add, pallas_add_of, pallas_zero, zero_bytes,
};
use crate::{orchard, sapling, Pczt, PcztV};

verus! {

/// Derives the binding-signature keys and freezes the document.
pub struct IoFinalizer {
    pub pczt: Pczt,
}

/// Failures while finalizing the IO of a document.
#[derive(Debug, PartialEq, Eq, Structural)]
pub enum Error {
    /// The document spends nothing in any pool.
    NoSpends,
    /// The document creates nothing in any pool.
    NoOutputs,
    /// A Sapling trapdoor is missing or does not decode.
    Sapling(crate::sapling::Error),
    /// An Orchard trapdoor is missing or does not decode.
    Orchard(crate::orchard::Error),
    /// The Sapling pool was already frozen with a different key.
    SaplingBindingKeyMismatch,
    /// The Orchard pool was already frozen with a different key.
    OrchardBindingKeyMismatch,
}

/// Whether the document spends anything in any pool.
pub open spec fn has_spends(d: PcztV) -> bool {
    d.transparent.inputs.len() > 0 || d.sapling.spends.len() > 0 || d.orchard.actions.len() > 0
}

/// Whether the document creates anything in any pool.
pub open spec fn has_outputs(d: PcztV) -> bool {
    d.transparent.outputs.len() > 0 || d.sapling.outputs.len() > 0 || d.orchard.actions.len() > 0
}

/// The problem with one Sapling spend's trapdoor, if any.
pub open spec fn spend_rcv_err(s: sapling::SpendV) -> Option<crate::sapling::Error> {
    match s.rcv {
        None => Some(crate::sapling::Error::MissingValueCommitTrapdoor),
        Some(rcv) => if rcv.len() == 32 && is_jubjub_scalar(rcv) {
            None
        } else {
            Some(crate::sapling::Error::InvalidValueCommitTrapdoor)
        },
    }
}

/// The first problem among a list of Sapling spends' trapdoors.
pub open spec fn first_spend_rcv_err(s: Seq<sapling::SpendV>) -> Option<crate::sapling::Error>
    decreases s.len(),
{
    if s.len() == 0 {
        None
    } else if spend_rcv_err(s[0]) is Some {
        spend_rcv_err(s[0])
    } else {
        first_spend_rcv_err(s.skip(1))
    }
}

/// The problem with one Sapling output's trapdoor, if any.
pub open spec fn output_rcv_err(o: sapling::OutputV) -> Option<crate::sapling::Error> {
    match o.rcv {
        None => Some(crate::sapling::Error::MissingValueCommitTrapdoor),
        Some(rcv) => if rcv.len() == 32 && is_jubjub_scalar(rcv) {
            None
        } else {
            Some(crate::sapling::Error::InvalidValueCommitTrapdoor)
        },
    }
}

/// The first problem among a list of Sapling outputs' trapdoors.
pub open spec fn first_output_rcv_err(s: Seq<sapling::OutputV>) -> Option<crate::sapling::Error>
    decreases s.len(),
{
    if s.len() == 0 {
        None
    } else if output_rcv_err(s[0]) is Some {
        output_rcv_err(s[0])
    } else {
        first_output_rcv_err(s.skip(1))
    }
}

/// The first trapdoor problem in a Sapling bundle, spends before outputs.
pub open spec fn sapling_rcv_err(b: sapling::BundleV) -> Option<crate::sapling::Error> {
    if first_spend_rcv_err(b.spends) is Some {
        first_spend_rcv_err(b.spends)
    } else {
        first_output_rcv_err(b.outputs)
    }
}

/// The problem with one Orchard action's trapdoor, if any.
pub open spec fn action_rcv_err(a: orchard::ActionV) -> Option<crate::orchard::Error> {
    match a.rcv {
        None => Some(crate::orchard::Error::MissingValueCommitTrapdoor),
        Some(rcv) => if rcv.len() == 32 && is_pallas_scalar(rcv) {
            None
        } else {
            Some(crate::orchard::Error::InvalidValueCommitTrapdoor)
        },
    }
}

/// The first trapdoor problem among a list of Orchard actions.
pub open spec fn first_action_rcv_err(s: Seq<orchard::ActionV>) -> Option<crate::orchard::Error>
    decreases s.len(),
{
    if s.len() == 0 {
        None
    } else if action_rcv_err(s[0]) is Some {
        action_rcv_err(s[0])
    } else {
        first_action_rcv_err(s.skip(1))
    }
}

/// The sum of the spend trapdoors of a Sapling bundle, starting from zero.
pub open spec fn sapling_spend_acc(s: Seq<sapling::SpendV>) -> Seq<u8>
    decreases s.len(),
{
    if s.len() == 0 {
        zero_bytes(32)
    } else {
        jj_add_of(sapling_spend_acc(s.drop_last()), s.last().rcv.unwrap())
    }
}

/// The running key after subtracting the output trapdoors from `start`.
pub open spec fn sapling_bsk_acc(start: Seq<u8>, s: Seq<sapling::OutputV>) -> Seq<u8>
    decreases s.len(),
{
    if s.len() == 0 {
        start
    } else {
        jj_sub_of(sapling_bsk_acc(start, s.drop_last()), s.last().rcv.unwrap())
    }
}

/// The Sapling binding-signature signing key: the signed sum of all present
/// trapdoors, spends positive and outputs negative.
pub open spec fn sapling_bsk_of(b: sapling::BundleV) -> Seq<u8> {
    sapling_bsk_acc(sapling_spend_acc(b.spends), b.outputs)
}

/// The sum of the action trapdoors of an Orchard bundle, starting from zero.
pub open spec fn orchard_bsk_acc(s: Seq<orchard::ActionV>) -> Seq<u8>
    decreases s.len(),
{
    if s.len() == 0 {
        zero_bytes(32)
    } else {
        pallas_add_of(orchard_bsk_acc(s.drop_last()), s.last().rcv.unwrap())
    }
}

/// The Orchard binding-signature signing key: the sum of all present action
/// trapdoors.
pub open spec fn orchard_bsk_of(b: orchard::BundleV) -> Seq<u8> {
    orchard_bsk_acc(b.actions)
}

/// Whether a pool was already frozen with a key other than the one its
/// trapdoors derive.
pub open spec fn sapling_key_mismatch(b: sapling::BundleV) -> bool {
    b.bsk is Some && b.bsk.unwrap() != sapling_bsk_of(b)
}

/// Whether the Orchard pool was already frozen with a different key.
pub open spec fn orchard_key_mismatch(b: orchard::BundleV) -> bool {
    b.bsk is Some && b.bsk.unwrap() != orchard_bsk_of(b)
}

impl IoFinalizer {
    /// Takes custody of a document for IO finalization.
    pub fn new(pczt: Pczt) -> (r: IoFinalizer)
        ensures
            r.pczt == pczt,
    {
        IoFinalizer { pczt }
    }

    /// Checks that the document moves any value at all, derives each shielded
    /// pool's binding-signature key from its trapdoors, and writes the keys,
    /// freezing both pools.
    #[verifier::loop_isolation(false)]
    pub fn finalize_io(self) -> (r: Result<Pczt, Error>)
        requires
            self.pczt.wf(),
        ensures
            !has_spends(self.pczt@) ==> r == Err::<Pczt, Error>(Error::NoSpends),
            has_spends(self.pczt@) && !has_outputs(self.pczt@) ==> r == Err::<Pczt, Error>(
                Error::NoOutputs,
            ),
            has_spends(self.pczt@) && has_outputs(self.pczt@) && sapling_rcv_err(
                self.pczt@.sapling,
            ) is Some ==> r == Err::<Pczt, Error>(
                Error::Sapling(sapling_rcv_err(self.pczt@.sapling).unwrap()),
            ),
            has_spends(self.pczt@) && has_outputs(self.pczt@) && sapling_rcv_err(
                self.pczt@.sapling,
            ) is None && sapling_key_mismatch(self.pczt@.sapling) ==> r == Err::<Pczt, Error>(
                Error::SaplingBindingKeyMismatch,
            ),
            has_spends(self.pczt@) && has_outputs(self.pczt@) && sapling_rcv_err(
                self.pczt@.sapling,
            ) is None && !sapling_key_mismatch(self.pczt@.sapling) && first_action_rcv_err(
                self.pczt@.orchard.actions,
            ) is Some ==> r == Err::<Pczt, Error>(
                Error::Orchard(first_action_rcv_err(self.pczt@.orchard.actions).unwrap()),
            ),
            has_spends(self.pczt@) && has_outputs(self.pczt@) && sapling_rcv_err(
                self.pczt@.sapling,
            ) is None && !sapling_key_mismatch(self.pczt@.sapling) && first_action_rcv_err(
                self.pczt@.orchard.actions,
            ) is None && orchard_key_mismatch(self.pczt@.orchard) ==> r == Err::<Pczt, Error>(
                Error::OrchardBindingKeyMismatch,
            ),
            r is Ok <==> (has_spends(self.pczt@) && has_outputs(self.pczt@) && sapling_rcv_err(
                self.pczt@.sapling,
            ) is None && !sapling_key_mismatch(self.pczt@.sapling) && first_action_rcv_err(
                self.pczt@.orchard.actions,
            ) is None && !orchard_key_mismatch(self.pczt@.orchard)),
            r is Ok ==> (r.unwrap().wf() && r.unwrap()@ == (PcztV {
                sapling: sapling::BundleV {
                    bsk: Some(sapling_bsk_of(self.pczt@.sapling)),
                    ..self.pczt@.sapling
                },
                orchard: orchard::BundleV {
                    bsk: Some(orchard_bsk_of(self.pczt@.orchard)),
                    ..self.pczt@.orchard
                },
                ..self.pczt@
            })),
    {
        let ghost d = self.pczt@;
        let Self { mut pczt } = self;
        if pczt.transparent.inputs.len() == 0 && pczt.sapling.spends.len() == 0
            && pczt.orchard.actions.len() == 0 {
            return Err(Error::NoSpends);
        }
        if pczt.transparent.outputs.len() == 0 && pczt.sapling.outputs.len() == 0
            && pczt.orchard.actions.len() == 0 {
            return Err(Error::NoOutputs);
        }
        let ghost spends_v = d.sapling.spends;
        let ghost souts_v = d.sapling.outputs;
        let ghost actions_v = d.orchard.actions;
        let mut acc = jubjub_zero();
        let sn: usize = pczt.sapling.spends.len();
        let mut i: usize = 0;
        proof {
            assert(spends_v.take(0) =~= Seq::<sapling::SpendV>::empty());
            assert(spends_v.skip(0) =~= spends_v);
        }
        while i < sn
            invariant
                0 <= i <= sn,
                acc@ == sapling_spend_acc(spends_v.take(i as int)),
                acc@.len() == 32,
                is_jubjub_scalar(acc@),
                first_spend_rcv_err(spends_v) == first_spend_rcv_err(spends_v.skip(i as int)),
                pczt == self.pczt,
            decreases sn - i,
        {
            let ghost ii = i as int;
            proof {
                assert(spends_v.skip(ii)[0] == spends_v[ii]);
                assert(spends_v.skip(ii).skip(1) =~= spends_v.skip(ii + 1));
                assert(spends_v.take(ii + 1).drop_last() =~= spends_v.take(ii));
                assert(spends_v.take(ii + 1).last() == spends_v[ii]);
            }
            let rcv = match &pczt.sapling.spends[i].rcv {
                Some(v) => v,
                None => {
                    proof {
                        assert(first_spend_rcv_err(spends_v.skip(ii)) == spend_rcv_err(
                            spends_v[ii],
                        ));
                    }
                    return Err(Error::Sapling(crate::sapling::Error::MissingValueCommitTrapdoor));
                },
            };
            acc = match jubjub_add(&acc, rcv) {
                Some(nv) => nv,
                None => {
                    proof {
                        assert(spend_rcv_err(spends_v[ii]) is Some);
                        assert(first_spend_rcv_err(spends_v.skip(ii)) == spend_rcv_err(
                            spends_v[ii],
                        ));
                    }
                    return Err(Error::Sapling(crate::sapling::Error::InvalidValueCommitTrapdoor));
                },
            };
            proof {
                assert(spend_rcv_err(spends_v[ii]) is None);
            }
            i += 1;
        }
        proof {
            assert(spends_v.take(sn as int) =~= spends_v);
            assert(spends_v.skip(sn as int) =~= Seq::<sapling::SpendV>::empty());
            assert(first_spend_rcv_err(spends_v) is None);
        }
        let on: usize = pczt.sapling.outputs.len();
        let mut j: usize = 0;
        let ghost sp_total = acc@;
        proof {
            assert(souts_v.take(0) =~= Seq::<sapling::OutputV>::empty());
            assert(souts_v.skip(0) =~= souts_v);
        }
        while j < on
            invariant
                0 <= j <= on,
                acc@ == sapling_bsk_acc(sp_total, souts_v.take(j as int)),
                sp_total == sapling_spend_acc(spends_v),
                acc@.len() == 32,
                is_jubjub_scalar(acc@),
                first_output_rcv_err(souts_v) == first_output_rcv_err(souts_v.skip(j as int)),
                pczt == self.pczt,
            decreases on - j,
        {
            let ghost jj = j as int;
            proof {
                assert(souts_v.skip(jj)[0] == souts_v[jj]);
                assert(souts_v.skip(jj).skip(1) =~= souts_v.skip(jj + 1));
                assert(souts_v.take(jj + 1).drop_last() =~= souts_v.take(jj));
                assert(souts_v.take(jj + 1).last() == souts_v[jj]);
            }
            let rcv = match &pczt.sapling.outputs[j].rcv {
                Some(v) => v,
                None => {
                    proof {
                        assert(first_output_rcv_err(souts_v.skip(jj)) == output_rcv_err(
                            souts_v[jj],
                        ));
                    }
                    return Err(Error::Sapling(crate::sapling::Error::MissingValueCommitTrapdoor));
                },
            };
            acc = match jubjub_sub(&acc, rcv) {
                Some(nv) => nv,
                None => {
                    proof {
                        assert(output_rcv_err(souts_v[jj]) is Some);
                        assert(first_output_rcv_err(souts_v.skip(jj)) == output_rcv_err(
                            souts_v[jj],
                        ));
                    }
                    return Err(Error::Sapling(crate::sapling::Error::InvalidValueCommitTrapdoor));
                },
            };
            proof {
                assert(output_rcv_err(souts_v[jj]) is None);
            }
            j += 1;
        }
        proof {
            assert(souts_v.take(on as int) =~= souts_v);
            assert(souts_v.skip(on as int) =~= Seq::<sapling::OutputV>::empty());
            assert(first_output_rcv_err(souts_v) is None);
            assert(acc@ == sapling_bsk_of(d.sapling));
        }
        match &pczt.sapling.bsk {
            Some(stored) => {
                if !bytes_eq(stored, &acc) {
                    return Err(Error::SaplingBindingKeyMismatch);
                }
            },
            None => {},
        }
        let mut oacc = pallas_zero();
        let an: usize = pczt.orchard.actions.len();
        let mut k: usize = 0;
        proof {
            assert(actions_v.take(0) =~= Seq::<orchard::ActionV>::empty());
            assert(actions_v.skip(0) =~= actions_v);
        }
        while k < an
            invariant
                0 <= k <= an,
                oacc@ == orchard_bsk_acc(actions_v.take(k as int)),
                oacc@.len() == 32,
                is_pallas_scalar(oacc@),
                first_action_rcv_err(actions_v) == first_action_rcv_err(actions_v.skip(k as int)),
                pczt == self.pczt,
            decreases an - k,
        {
            let ghost kk = k as int;
            proof {
                assert(actions_v.skip(kk)[0] == actions_v[kk]);
                assert(actions_v.skip(kk).skip(1) =~= actions_v.skip(kk + 1));
                assert(actions_v.take(kk + 1).drop_last() =~= actions_v.take(kk));
                assert(actions_v.take(kk + 1).last() == actions_v[kk]);
            }
            let rcv = match &pczt.orchard.actions[k].rcv {
                Some(v) => v,
                None => {
                    proof {
                        assert(first_action_rcv_err(actions_v.skip(kk)) == action_rcv_err(
                            actions_v[kk],
                        ));
                    }
                    return Err(Error::Orchard(crate::orchard::Error::MissingValueCommitTrapdoor));
                },
            };
            oacc = match pallas_add(&oacc, rcv) {
                Some(nv) => nv,
                None => {
                    proof {
                        assert(action_rcv_err(actions_v[kk]) is Some);
                        assert(first_action_rcv_err(actions_v.skip(kk)) == action_rcv_err(
                            actions_v[kk],
                        ));
                    }
                    return Err(Error::Orchard(crate::orchard::Error::InvalidValueCommitTrapdoor));
                },
            };
            proof {
                assert(action_rcv_err(actions_v[kk]) is None);
            }
            k += 1;
        }
        proof {
            assert(actions_v.take(an as int) =~= actions_v);
            assert(actions_v.skip(an as int) =~= Seq::<orchard::ActionV>::empty());
            assert(first_action_rcv_err(actions_v) is None);
            assert(oacc@ == orchard_bsk_of(d.orchard));
        }
        match &pczt.orchard.bsk {
            Some(stored) => {
                if !bytes_eq(stored, &oacc) {
                    return Err(Error::OrchardBindingKeyMismatch);
                }
            },
            None => {},
        }
        pczt.sapling.bsk = Some(acc);
        pczt.orchard.bsk = Some(oacc);
        Ok(pczt)
    }
}

} // verus!

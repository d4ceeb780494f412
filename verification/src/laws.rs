//! The laws of the merge engine.
//!
//! Reconciliation of copies of one transaction is conflict-detecting (a
//! differing consensus branch always fails), freeze-respecting (a frozen pool
//! never accepts a differing record count), and — for documents that grew
//! from a common creator output by disjoint appends — order-independent: the
//! merge succeeds in every order and every order yields the same document.

use vstd::prelude::*;

use crate::bytemap::{lemma_map_compat_refl, lemma_map_union_refl, map_wf};
use crate::common::{spec_merge_global, GlobalV};
use crate::{orchard, sapling, spec_merge_pczt, transparent, PcztV};

verus! {

/// Merging two documents whose global records disagree on the consensus
/// branch always fails, whatever else they agree on.
pub proof fn lemma_branch_conflict_fails(a: PcztV, b: PcztV)
    requires
        a.global.consensus_branch_id != b.global.consensus_branch_id,
    ensures
        spec_merge_pczt(a, b) is None,
{
}

/// Once a pool is frozen on either side, merging with a copy that reports a
/// different record count for that pool fails: a Sapling freeze pins the
/// spend and output counts and the balance.
pub proof fn lemma_frozen_sapling_count_mismatch_fails(a: PcztV, b: PcztV)
    requires
        a.sapling.bsk is Some || b.sapling.bsk is Some,
        a.sapling.spends.len() != b.sapling.spends.len() || a.sapling.outputs.len()
            != b.sapling.outputs.len() || a.sapling.value_balance != b.sapling.value_balance,
    ensures
        spec_merge_pczt(a, b) is None,
{
}

/// Once the Orchard pool is frozen on either side, merging with a copy that
/// reports a different action count or balance for it fails.
pub proof fn lemma_frozen_orchard_count_mismatch_fails(a: PcztV, b: PcztV)
    requires
        a.orchard.bsk is Some || b.orchard.bsk is Some,
        a.orchard.actions.len() != b.orchard.actions.len() || a.orchard.value_balance
            != b.orchard.value_balance,
    ensures
        spec_merge_pczt(a, b) is None,
{
}

/// Reconciling a well-formed Sapling spend with itself returns it unchanged.
pub proof fn lemma_spend_merge_refl(r: sapling::SpendV)
    requires
        sapling::spend_wf(r),
    ensures
        sapling::spec_merge_spend(r, r) == Some(r),
{
    lemma_map_compat_refl(r.proprietary);
    lemma_map_union_refl(r.proprietary);
}

/// Reconciling a well-formed Sapling output with itself returns it
/// unchanged.
pub proof fn lemma_output_merge_refl(r: sapling::OutputV)
    requires
        sapling::output_wf(r),
    ensures
        sapling::spec_merge_output(r, r) == Some(r),
{
    lemma_map_compat_refl(r.proprietary);
    lemma_map_union_refl(r.proprietary);
}

/// Reconciling a well-formed transparent input with itself returns it
/// unchanged.
pub proof fn lemma_input_merge_refl(r: transparent::InputV)
    requires
        transparent::input_wf(r),
    ensures
        transparent::spec_merge_input(r, r) == Some(r),
{
    lemma_map_compat_refl(r.partial_signatures);
    lemma_map_union_refl(r.partial_signatures);
    lemma_map_compat_refl(r.ripemd160_preimages);
    lemma_map_union_refl(r.ripemd160_preimages);
    lemma_map_compat_refl(r.sha256_preimages);
    lemma_map_union_refl(r.sha256_preimages);
    lemma_map_compat_refl(r.hash160_preimages);
    lemma_map_union_refl(r.hash160_preimages);
    lemma_map_compat_refl(r.hash256_preimages);
    lemma_map_union_refl(r.hash256_preimages);
}

/// Reconciling a transparent output with itself returns it unchanged.
pub proof fn lemma_toutput_merge_refl(r: transparent::OutputV)
    ensures
        transparent::spec_merge_output(r, r) == Some(r),
{
}

/// Reconciling a well-formed Orchard action with itself returns it
/// unchanged.
pub proof fn lemma_action_merge_refl(r: orchard::ActionV)
    requires
        orchard::action_wf(r),
    ensures
        orchard::spec_merge_action(r, r) == Some(r),
{
    lemma_map_compat_refl(r.spend.proprietary);
    lemma_map_union_refl(r.spend.proprietary);
    lemma_map_compat_refl(r.output.proprietary);
    lemma_map_union_refl(r.output.proprietary);
    assert(orchard::spec_merge_spend(r.spend, r.spend) == Some(r.spend));
    assert(orchard::spec_merge_output(r.output, r.output) == Some(r.output));
}

/// Reconciling a well-formed global record with itself returns it unchanged.
pub proof fn lemma_global_merge_refl(g: GlobalV)
    requires
        map_wf(g.proprietary),
    ensures
        spec_merge_global(g, g) == Some(g),
{
    lemma_map_compat_refl(g.proprietary);
    lemma_map_union_refl(g.proprietary);
}


/// One sequence is an initial segment of another.
pub open spec fn is_pfx<T>(a: Seq<T>, b: Seq<T>) -> bool {
    a.len() <= b.len() && a == b.take(a.len() as int)
}

/// Two sequences grew from a common prefix: one is an initial segment of the
/// other.
pub open spec fn prefix_related<T>(a: Seq<T>, b: Seq<T>) -> bool {
    is_pfx(a, b) || is_pfx(b, a)
}

/// The longer of two sequences, favouring the left on ties.
pub open spec fn longer_of<T>(a: Seq<T>, b: Seq<T>) -> Seq<T> {
    if a.len() >= b.len() {
        a
    } else {
        b
    }
}

/// Sequences that grew from a common prefix agree position by position.
pub proof fn lemma_pfx_agree<T>(a: Seq<T>, b: Seq<T>, i: int)
    requires
        prefix_related(a, b),
        0 <= i < a.len(),
        0 <= i < b.len(),
    ensures
        a[i] == b[i],
{
    if is_pfx(a, b) {
        assert(a[i] == b.take(a.len() as int)[i]);
    } else {
        assert(b[i] == a.take(b.len() as int)[i]);
    }
}

/// Equally long sequences that grew from a common prefix are equal.
pub proof fn lemma_pfx_same_len_equal<T>(a: Seq<T>, b: Seq<T>)
    requires
        prefix_related(a, b),
        a.len() == b.len(),
    ensures
        a == b,
{
    if is_pfx(a, b) {
        assert(b.take(a.len() as int) =~= b);
    } else {
        assert(a.take(b.len() as int) =~= a);
    }
}

/// Taking the longer list is insensitive to the order of reconciliation.
pub proof fn lemma_longer_comm<T>(a: Seq<T>, b: Seq<T>)
    requires
        prefix_related(a, b),
    ensures
        longer_of(a, b) == longer_of(b, a),
{
    if a.len() == b.len() {
        lemma_pfx_same_len_equal(a, b);
    }
}

/// Taking the longer list is insensitive to the grouping of three pairwise
/// compatible lists.
pub proof fn lemma_longer3<T>(p: Seq<T>, q: Seq<T>, r: Seq<T>)
    requires
        prefix_related(p, q),
        prefix_related(p, r),
        prefix_related(q, r),
    ensures
        longer_of(longer_of(p, q), r) == longer_of(p, longer_of(q, r)),
        longer_of(longer_of(p, q), r) == longer_of(longer_of(p, r), q),
        prefix_related(longer_of(p, q), r),
        prefix_related(longer_of(p, r), q),
        prefix_related(longer_of(q, r), p),
{
    if p.len() == q.len() {
        lemma_pfx_same_len_equal(p, q);
    }
    if p.len() == r.len() {
        lemma_pfx_same_len_equal(p, r);
    }
    if q.len() == r.len() {
        lemma_pfx_same_len_equal(q, r);
    }
}

/// The transparent balance-free reconciliation of two bundles that grew from
/// a common prefix: it succeeds and keeps the longer record lists.
pub open spec fn transparent_union2(
    x: transparent::BundleV,
    y: transparent::BundleV,
) -> transparent::BundleV {
    transparent::BundleV {
        inputs: longer_of(x.inputs, y.inputs),
        outputs: longer_of(x.outputs, y.outputs),
    }
}

/// Merging two transparent bundles that grew from a common prefix succeeds
/// and adopts the longer lists.
pub proof fn lemma_transparent_merge_disjoint(x: transparent::BundleV, y: transparent::BundleV)
    requires
        transparent::transparent_wf(x),
        transparent::transparent_wf(y),
        prefix_related(x.inputs, y.inputs),
        prefix_related(x.outputs, y.outputs),
    ensures
        transparent::spec_merge_transparent(x, y) == Some(transparent_union2(x, y)),
        transparent::transparent_wf(transparent_union2(x, y)),
{
    let ni = if x.inputs.len() <= y.inputs.len() {
        x.inputs.len() as int
    } else {
        y.inputs.len() as int
    };
    assert forall|i: int| 0 <= i < ni implies (#[trigger] transparent::spec_merge_input(
        x.inputs[i],
        y.inputs[i],
    )) == Some(x.inputs[i]) by {
        lemma_pfx_agree(x.inputs, y.inputs, i);
        lemma_input_merge_refl(x.inputs[i]);
    }
    assert(transparent::zip_merge_inputs(x.inputs, y.inputs) == Some(
        longer_of(x.inputs, y.inputs),
    )) by {
        assert(Seq::new(ni as nat, |i: int| transparent::spec_merge_input(
            x.inputs[i],
            y.inputs[i],
        ).unwrap()) + (if x.inputs.len() >= y.inputs.len() {
            x.inputs.skip(ni)
        } else {
            y.inputs.skip(ni)
        }) =~= longer_of(x.inputs, y.inputs));
    }
    let no = if x.outputs.len() <= y.outputs.len() {
        x.outputs.len() as int
    } else {
        y.outputs.len() as int
    };
    assert forall|i: int| 0 <= i < no implies (#[trigger] transparent::spec_merge_output(
        x.outputs[i],
        y.outputs[i],
    )) == Some(x.outputs[i]) by {
        lemma_pfx_agree(x.outputs, y.outputs, i);
        lemma_toutput_merge_refl(x.outputs[i]);
    }
    assert(transparent::zip_merge_outputs(x.outputs, y.outputs) == Some(
        longer_of(x.outputs, y.outputs),
    )) by {
        assert(Seq::new(no as nat, |i: int| transparent::spec_merge_output(
            x.outputs[i],
            y.outputs[i],
        ).unwrap()) + (if x.outputs.len() >= y.outputs.len() {
            x.outputs.skip(no)
        } else {
            y.outputs.skip(no)
        }) =~= longer_of(x.outputs, y.outputs));
    }
}


/// Spend-value sums split over concatenation.
pub proof fn lemma_sum_spend_concat(a: Seq<sapling::SpendV>, b: Seq<sapling::SpendV>)
    ensures
        sapling::sum_spend_values(a + b) == sapling::sum_spend_values(a)
            + sapling::sum_spend_values(b),
    decreases b.len(),
{
    if b.len() == 0 {
        assert(a + b =~= a);
    } else {
        assert((a + b).drop_last() =~= a + b.drop_last());
        assert((a + b).last() == b.last());
        lemma_sum_spend_concat(a, b.drop_last());
    }
}

/// Output-value sums split over concatenation.
pub proof fn lemma_sum_output_concat(a: Seq<sapling::OutputV>, b: Seq<sapling::OutputV>)
    ensures
        sapling::sum_output_values(a + b) == sapling::sum_output_values(a)
            + sapling::sum_output_values(b),
    decreases b.len(),
{
    if b.len() == 0 {
        assert(a + b =~= a);
    } else {
        assert((a + b).drop_last() =~= a + b.drop_last());
        assert((a + b).last() == b.last());
        lemma_sum_output_concat(a, b.drop_last());
    }
}

/// Spend-value sums are never negative.
pub proof fn lemma_sum_spend_nonneg(s: Seq<sapling::SpendV>)
    ensures
        sapling::sum_spend_values(s) >= 0,
    decreases s.len(),
{
    if s.len() > 0 {
        lemma_sum_spend_nonneg(s.drop_last());
    }
}

/// Output-value sums are never negative.
pub proof fn lemma_sum_output_nonneg(s: Seq<sapling::OutputV>)
    ensures
        sapling::sum_output_values(s) >= 0,
    decreases s.len(),
{
    if s.len() > 0 {
        lemma_sum_output_nonneg(s.drop_last());
    }
}

/// A Sapling bundle is balanced when all of its values are still present and
/// its running balance equals their signed sum.
pub open spec fn sapling_balanced(b: sapling::BundleV) -> bool {
    sapling::spend_values_present(b.spends) && sapling::output_values_present(b.outputs)
        && b.value_balance == sapling::sum_spend_values(b.spends) - sapling::sum_output_values(
        b.outputs,
    )
}

/// Two Sapling bundles that grew from a common creator output by appending:
/// same anchor, not yet frozen, and each record list an initial segment of
/// the other's.
pub open spec fn sapling_growth_compatible(x: sapling::BundleV, y: sapling::BundleV) -> bool {
    x.anchor == y.anchor && x.bsk is None && y.bsk is None && prefix_related(x.spends, y.spends)
        && prefix_related(x.outputs, y.outputs)
}

/// The bundle's total spend value fits the balance accumulator.
pub open spec fn sapling_sums_small(b: sapling::BundleV) -> bool {
    sapling::sum_spend_values(b.spends) <= u64::MAX
}

/// The reconciliation of two Sapling bundles that grew from a common
/// prefix: the longer lists, with the balance recomputed over them.
pub open spec fn sapling_union2(x: sapling::BundleV, y: sapling::BundleV) -> sapling::BundleV {
    sapling::BundleV {
        spends: longer_of(x.spends, y.spends),
        outputs: longer_of(x.outputs, y.outputs),
        value_balance: (sapling::sum_spend_values(longer_of(x.spends, y.spends))
            - sapling::sum_output_values(longer_of(x.outputs, y.outputs))) as u64,
        anchor: x.anchor,
        bsk: None,
    }
}

/// Merging two balanced, unfrozen Sapling bundles that grew from a common
/// prefix succeeds, adopts the longer lists, and leaves a balanced bundle
/// whose balance is the signed sum over the adopted lists.
pub proof fn lemma_sapling_merge_disjoint(x: sapling::BundleV, y: sapling::BundleV)
    requires
        sapling::sapling_wf(x),
        sapling::sapling_wf(y),
        sapling_balanced(x),
        sapling_balanced(y),
        sapling_growth_compatible(x, y),
        sapling_sums_small(x),
        sapling_sums_small(y),
    ensures
        sapling::spec_merge_sapling(x, y) == Some(sapling_union2(x, y)),
        sapling::sapling_wf(sapling_union2(x, y)),
        sapling_balanced(sapling_union2(x, y)),
        sapling_sums_small(sapling_union2(x, y)),
{
    let usp = longer_of(x.spends, y.spends);
    let uout = longer_of(x.outputs, y.outputs);
    let nsp = if x.spends.len() <= y.spends.len() {
        x.spends.len() as int
    } else {
        y.spends.len() as int
    };
    let nout = if x.outputs.len() <= y.outputs.len() {
        x.outputs.len() as int
    } else {
        y.outputs.len() as int
    };
    assert forall|i: int| 0 <= i < nsp implies (#[trigger] sapling::spec_merge_spend(
        x.spends[i],
        y.spends[i],
    )) == Some(x.spends[i]) by {
        lemma_pfx_agree(x.spends, y.spends, i);
        lemma_spend_merge_refl(x.spends[i]);
    }
    assert(sapling::zip_merge_spends(x.spends, y.spends) == Some(usp)) by {
        assert(Seq::new(nsp as nat, |i: int| sapling::spec_merge_spend(
            x.spends[i],
            y.spends[i],
        ).unwrap()) + (if x.spends.len() >= y.spends.len() {
            x.spends.skip(nsp)
        } else {
            y.spends.skip(nsp)
        }) =~= usp);
    }
    assert forall|i: int| 0 <= i < nout implies (#[trigger] sapling::spec_merge_output(
        x.outputs[i],
        y.outputs[i],
    )) == Some(x.outputs[i]) by {
        lemma_pfx_agree(x.outputs, y.outputs, i);
        lemma_output_merge_refl(x.outputs[i]);
    }
    assert(sapling::zip_merge_outputs(x.outputs, y.outputs) == Some(uout)) by {
        assert(Seq::new(nout as nat, |i: int| sapling::spec_merge_output(
            x.outputs[i],
            y.outputs[i],
        ).unwrap()) + (if x.outputs.len() >= y.outputs.len() {
            x.outputs.skip(nout)
        } else {
            y.outputs.skip(nout)
        }) =~= uout);
    }
    let adopted_sp = sapling::adopted_spends(x, y);
    let adopted_out = sapling::adopted_outputs(x, y);
    assert(usp =~= x.spends + adopted_sp) by {
        if y.spends.len() > x.spends.len() {
            assert(x.spends =~= y.spends.take(x.spends.len() as int));
        } else {
            assert(adopted_sp =~= Seq::<sapling::SpendV>::empty());
        }
    }
    assert(uout =~= x.outputs + adopted_out) by {
        if y.outputs.len() > x.outputs.len() {
            assert(x.outputs =~= y.outputs.take(x.outputs.len() as int));
        } else {
            assert(adopted_out =~= Seq::<sapling::OutputV>::empty());
        }
    }
    lemma_sum_spend_concat(x.spends, adopted_sp);
    lemma_sum_output_concat(x.outputs, adopted_out);
    assert(sapling::spend_values_present(adopted_sp)) by {
        if y.spends.len() > x.spends.len() {
            assert forall|i: int| 0 <= i < adopted_sp.len() implies (#[trigger] adopted_sp[i]).value
                is Some by {
                assert(adopted_sp[i] == y.spends[x.spends.len() + i]);
            }
        }
    }
    assert(sapling::output_values_present(adopted_out)) by {
        if y.outputs.len() > x.outputs.len() {
            assert forall|i: int| 0 <= i < adopted_out.len() implies (
            #[trigger] adopted_out[i]).value is Some by {
                assert(adopted_out[i] == y.outputs[x.outputs.len() + i]);
            }
        }
    }
    lemma_sum_spend_nonneg(x.spends);
    lemma_sum_spend_nonneg(adopted_sp);
    lemma_sum_spend_nonneg(y.spends);
    lemma_sum_output_nonneg(x.outputs);
    lemma_sum_output_nonneg(adopted_out);
    lemma_sum_output_nonneg(y.outputs);
    assert(sapling::sum_spend_values(usp) <= u64::MAX) by {
        if y.spends.len() > x.spends.len() {
            assert(usp == y.spends);
        } else {
            assert(usp == x.spends);
        }
    }
    assert(x.value_balance + sapling::sum_spend_values(adopted_sp) <= u64::MAX);
    assert(sapling::merged_balance(x, y) == sapling::sum_spend_values(usp)
        - sapling::sum_output_values(uout));
    assert(sapling::merged_balance(x, y) >= 0) by {
        if y.outputs.len() > x.outputs.len() {
            assert(uout == y.outputs);
            assert(sapling::sum_output_values(y.outputs) <= sapling::sum_spend_values(y.spends));
            assert(sapling::sum_spend_values(y.spends) <= sapling::sum_spend_values(usp)) by {
                if x.spends.len() >= y.spends.len() {
                    assert(y.spends =~= x.spends.take(y.spends.len() as int));
                    assert(x.spends =~= y.spends + x.spends.skip(y.spends.len() as int));
                    lemma_sum_spend_concat(y.spends, x.spends.skip(y.spends.len() as int));
                    lemma_sum_spend_nonneg(x.spends.skip(y.spends.len() as int));
                }
            }
        } else {
            assert(uout == x.outputs);
            assert(sapling::sum_output_values(x.outputs) <= sapling::sum_spend_values(x.spends));
            assert(sapling::sum_spend_values(x.spends) <= sapling::sum_spend_values(usp));
        }
    }
    assert(sapling::spec_merge_sapling(x, y) is Some);
    assert(sapling::spec_merge_sapling(x, y).unwrap() == sapling_union2(x, y));
    assert(sapling::sapling_wf(sapling_union2(x, y))) by {
        assert forall|i: int| 0 <= i < usp.len() implies sapling::spend_wf(
            #[trigger] usp[i],
        ) by {
            if x.spends.len() >= y.spends.len() {
                assert(usp[i] == x.spends[i]);
            } else {
                assert(usp[i] == y.spends[i]);
            }
        }
        assert forall|i: int| 0 <= i < uout.len() implies sapling::output_wf(
            #[trigger] uout[i],
        ) by {
            if x.outputs.len() >= y.outputs.len() {
                assert(uout[i] == x.outputs[i]);
            } else {
                assert(uout[i] == y.outputs[i]);
            }
        }
    }
    assert(sapling_balanced(sapling_union2(x, y))) by {
        assert forall|i: int| 0 <= i < usp.len() implies (#[trigger] usp[i]).value is Some by {
            if x.spends.len() >= y.spends.len() {
                assert(usp[i] == x.spends[i]);
            } else {
                assert(usp[i] == y.spends[i]);
            }
        }
        assert forall|i: int| 0 <= i < uout.len() implies (#[trigger] uout[i]).value is Some by {
            if x.outputs.len() >= y.outputs.len() {
                assert(uout[i] == x.outputs[i]);
            } else {
                assert(uout[i] == y.outputs[i]);
            }
        }
    }
}


/// The magnitude bound of one action: the sum of its two value fields.
pub open spec fn action_abs(a: orchard::ActionV) -> int {
    (match a.spend.value {
        Some(v) => v as int,
        None => 0,
    }) + (match a.output.value {
        Some(v) => v as int,
        None => 0,
    })
}

/// The total magnitude bound of a list of actions.
pub open spec fn sum_action_abs(s: Seq<orchard::ActionV>) -> int
    decreases s.len(),
{
    if s.len() == 0 {
        0
    } else {
        sum_action_abs(s.drop_last()) + action_abs(s.last())
    }
}

/// Action-balance sums split over concatenation.
pub proof fn lemma_sum_action_concat(a: Seq<orchard::ActionV>, b: Seq<orchard::ActionV>)
    ensures
        orchard::sum_action_balances(a + b) == orchard::sum_action_balances(a)
            + orchard::sum_action_balances(b),
        sum_action_abs(a + b) == sum_action_abs(a) + sum_action_abs(b),
    decreases b.len(),
{
    if b.len() == 0 {
        assert(a + b =~= a);
    } else {
        assert((a + b).drop_last() =~= a + b.drop_last());
        assert((a + b).last() == b.last());
        lemma_sum_action_concat(a, b.drop_last());
    }
}

/// Magnitude sums are never negative and bound the balance sums.
pub proof fn lemma_action_abs_bounds(s: Seq<orchard::ActionV>)
    ensures
        sum_action_abs(s) >= 0,
        -sum_action_abs(s) <= orchard::sum_action_balances(s) <= sum_action_abs(s),
    decreases s.len(),
{
    if s.len() > 0 {
        lemma_action_abs_bounds(s.drop_last());
    }
}

/// An Orchard bundle is balanced when every action still carries both value
/// fields and the running balance equals their signed sum.
pub open spec fn orchard_balanced(b: orchard::BundleV) -> bool {
    orchard::action_values_present(b.actions) && b.value_balance == orchard::sum_action_balances(
        b.actions,
    )
}

/// The bundle's total value magnitude leaves room to reconcile with a second
/// such bundle inside the signed accumulator.
pub open spec fn orchard_sums_small(b: orchard::BundleV) -> bool {
    sum_action_abs(b.actions) <= 0x3fffffffffffffff
}

/// Two Orchard bundles that grew from a common creator output by appending.
pub open spec fn orchard_growth_compatible(x: orchard::BundleV, y: orchard::BundleV) -> bool {
    x.anchor == y.anchor && x.flags == y.flags && x.bsk is None && y.bsk is None && x.zkproof
        is None && y.zkproof is None && prefix_related(x.actions, y.actions)
}

/// The reconciliation of two Orchard bundles that grew from a common prefix.
pub open spec fn orchard_union2(x: orchard::BundleV, y: orchard::BundleV) -> orchard::BundleV {
    orchard::BundleV {
        actions: longer_of(x.actions, y.actions),
        flags: x.flags,
        value_balance: orchard::sum_action_balances(longer_of(x.actions, y.actions)) as i64,
        anchor: x.anchor,
        zkproof: None,
        bsk: None,
    }
}

/// Merging two balanced, unfrozen Orchard bundles that grew from a common
/// prefix succeeds, adopts the longer action list, and leaves a balanced
/// bundle.
pub proof fn lemma_orchard_merge_disjoint(x: orchard::BundleV, y: orchard::BundleV)
    requires
        orchard::orchard_wf(x),
        orchard::orchard_wf(y),
        orchard_balanced(x),
        orchard_balanced(y),
        orchard_growth_compatible(x, y),
        orchard_sums_small(x),
        orchard_sums_small(y),
    ensures
        orchard::spec_merge_orchard(x, y) == Some(orchard_union2(x, y)),
        orchard::orchard_wf(orchard_union2(x, y)),
        orchard_balanced(orchard_union2(x, y)),
        orchard_sums_small(orchard_union2(x, y)),
{
    let u = longer_of(x.actions, y.actions);
    let n = if x.actions.len() <= y.actions.len() {
        x.actions.len() as int
    } else {
        y.actions.len() as int
    };
    assert forall|i: int| 0 <= i < n implies (#[trigger] orchard::spec_merge_action(
        x.actions[i],
        y.actions[i],
    )) == Some(x.actions[i]) by {
        lemma_pfx_agree(x.actions, y.actions, i);
        lemma_action_merge_refl(x.actions[i]);
    }
    assert(orchard::zip_merge_actions(x.actions, y.actions) == Some(u)) by {
        assert(Seq::new(n as nat, |i: int| orchard::spec_merge_action(
            x.actions[i],
            y.actions[i],
        ).unwrap()) + (if x.actions.len() >= y.actions.len() {
            x.actions.skip(n)
        } else {
            y.actions.skip(n)
        }) =~= u);
    }
    let adopted = orchard::adopted_actions(x, y);
    assert(u =~= x.actions + adopted) by {
        if y.actions.len() > x.actions.len() {
            assert(x.actions =~= y.actions.take(x.actions.len() as int));
        } else {
            assert(adopted =~= Seq::<orchard::ActionV>::empty());
        }
    }
    lemma_sum_action_concat(x.actions, adopted);
    lemma_action_abs_bounds(x.actions);
    lemma_action_abs_bounds(adopted);
    lemma_action_abs_bounds(y.actions);
    assert(orchard::action_values_present(adopted)) by {
        if y.actions.len() > x.actions.len() {
            assert forall|i: int| 0 <= i < adopted.len() implies (
            #[trigger] adopted[i]).spend.value is Some && adopted[i].output.value is Some by {
                assert(adopted[i] == y.actions[x.actions.len() + i]);
            }
        }
    }
    assert(sum_action_abs(u) <= 0x3fffffffffffffff) by {
        if y.actions.len() > x.actions.len() {
            assert(u == y.actions);
        } else {
            assert(u == x.actions);
        }
    }
    assert(orchard::action_balances_fit(adopted)) by {
        assert forall|i: int| 0 <= i < adopted.len() implies i64::MIN <= orchard::action_balance(
            #[trigger] adopted[i],
        ) <= i64::MAX by {
            lemma_action_abs_elem(adopted, i);
        }
    }
    assert(orchard::prefixes_fit(x.value_balance as int, adopted)) by {
        assert forall|k: int| 0 <= k <= adopted.len() implies i64::MIN <= x.value_balance
            + orchard::sum_action_balances(#[trigger] adopted.take(k)) <= i64::MAX by {
            lemma_action_abs_bounds(adopted.take(k));
            assert(adopted =~= adopted.take(k) + adopted.skip(k));
            lemma_sum_action_concat(adopted.take(k), adopted.skip(k));
            lemma_action_abs_bounds(adopted.skip(k));
        }
    }
    assert(orchard::spec_merge_orchard(x, y) is Some);
    assert(orchard::spec_merge_orchard(x, y).unwrap() == orchard_union2(x, y));
    assert(orchard::orchard_wf(orchard_union2(x, y))) by {
        assert forall|i: int| 0 <= i < u.len() implies orchard::action_wf(#[trigger] u[i]) by {
            if x.actions.len() >= y.actions.len() {
                assert(u[i] == x.actions[i]);
            } else {
                assert(u[i] == y.actions[i]);
            }
        }
    }
    assert(orchard_balanced(orchard_union2(x, y))) by {
        assert forall|i: int| 0 <= i < u.len() implies (#[trigger] u[i]).spend.value is Some && u[i].output.value
            is Some by {
            if x.actions.len() >= y.actions.len() {
                assert(u[i] == x.actions[i]);
            } else {
                assert(u[i] == y.actions[i]);
            }
        }
        lemma_action_abs_bounds(u);
    }
}

/// One action's magnitude never exceeds its list's total magnitude.
pub proof fn lemma_action_abs_elem(s: Seq<orchard::ActionV>, i: int)
    requires
        0 <= i < s.len(),
    ensures
        action_abs(s[i]) <= sum_action_abs(s),
        -sum_action_abs(s) <= orchard::action_balance(s[i]) <= sum_action_abs(s),
    decreases s.len(),
{
    lemma_action_abs_bounds(s.drop_last());
    if i == s.len() - 1 {
        assert(s.last() == s[i]);
    } else {
        lemma_action_abs_elem(s.drop_last(), i);
        assert(s.drop_last()[i] == s[i]);
    }
}


/// Two documents that grew from a common creator output by disjoint
/// appends: identical global records, and every pool grown compatibly.
pub open spec fn doc_growth_compatible(x: PcztV, y: PcztV) -> bool {
    x.global == y.global && prefix_related(x.transparent.inputs, y.transparent.inputs)
        && prefix_related(x.transparent.outputs, y.transparent.outputs)
        && sapling_growth_compatible(x.sapling, y.sapling) && orchard_growth_compatible(
        x.orchard,
        y.orchard,
    )
}

/// A document whose shielded balances equal the signed sums of its present
/// record values.
pub open spec fn doc_balanced(x: PcztV) -> bool {
    sapling_balanced(x.sapling) && orchard_balanced(x.orchard)
}

/// A document whose value totals leave room for reconciliation inside the
/// balance accumulators.
pub open spec fn doc_sums_small(x: PcztV) -> bool {
    sapling_sums_small(x.sapling) && orchard_sums_small(x.orchard)
}

/// The reconciliation of two documents that grew from a common creator
/// output: the common global record and the pool-wise unions.
pub open spec fn doc_union2(x: PcztV, y: PcztV) -> PcztV {
    PcztV {
        global: x.global,
        transparent: transparent_union2(x.transparent, y.transparent),
        sapling: sapling_union2(x.sapling, y.sapling),
        orchard: orchard_union2(x.orchard, y.orchard),
    }
}

/// Merging two well-formed, balanced documents that grew from a common
/// creator output by disjoint appends succeeds and yields their union, which
/// has the same properties.
pub proof fn lemma_pczt_merge_disjoint(x: PcztV, y: PcztV)
    requires
        crate::pczt_wf(x),
        crate::pczt_wf(y),
        doc_balanced(x),
        doc_balanced(y),
        doc_sums_small(x),
        doc_sums_small(y),
        doc_growth_compatible(x, y),
    ensures
        spec_merge_pczt(x, y) == Some(doc_union2(x, y)),
        crate::pczt_wf(doc_union2(x, y)),
        doc_balanced(doc_union2(x, y)),
        doc_sums_small(doc_union2(x, y)),
{
    lemma_global_merge_refl(x.global);
    lemma_transparent_merge_disjoint(x.transparent, y.transparent);
    lemma_sapling_merge_disjoint(x.sapling, y.sapling);
    lemma_orchard_merge_disjoint(x.orchard, y.orchard);
}

/// Merging documents that grew from a common creator output by disjoint
/// appends is insensitive to order: both orders succeed with the same
/// result.
pub proof fn lemma_merge_commutes(a: PcztV, b: PcztV)
    requires
        crate::pczt_wf(a),
        crate::pczt_wf(b),
        doc_balanced(a),
        doc_balanced(b),
        doc_sums_small(a),
        doc_sums_small(b),
        doc_growth_compatible(a, b),
    ensures
        spec_merge_pczt(a, b) is Some,
        spec_merge_pczt(a, b) == spec_merge_pczt(b, a),
{
    lemma_pczt_merge_disjoint(a, b);
    assert(doc_growth_compatible(b, a));
    lemma_pczt_merge_disjoint(b, a);
    lemma_longer_comm(a.transparent.inputs, b.transparent.inputs);
    lemma_longer_comm(a.transparent.outputs, b.transparent.outputs);
    lemma_longer_comm(a.sapling.spends, b.sapling.spends);
    lemma_longer_comm(a.sapling.outputs, b.sapling.outputs);
    lemma_longer_comm(a.orchard.actions, b.orchard.actions);
    assert(doc_union2(a, b) == doc_union2(b, a));
}

/// Merging three documents that grew from a common creator output by
/// disjoint appends is insensitive to grouping and order: every way of
/// folding the three together succeeds and yields the same document.
pub proof fn lemma_merge_order_independent(a: PcztV, b: PcztV, c: PcztV)
    requires
        crate::pczt_wf(a),
        crate::pczt_wf(b),
        crate::pczt_wf(c),
        doc_balanced(a),
        doc_balanced(b),
        doc_balanced(c),
        doc_sums_small(a),
        doc_sums_small(b),
        doc_sums_small(c),
        doc_growth_compatible(a, b),
        doc_growth_compatible(a, c),
        doc_growth_compatible(b, c),
    ensures
        spec_merge_pczt(a, b) is Some,
        spec_merge_pczt(b, c) is Some,
        spec_merge_pczt(a, c) is Some,
        spec_merge_pczt(spec_merge_pczt(a, b).unwrap(), c) is Some,
        spec_merge_pczt(spec_merge_pczt(a, b).unwrap(), c) == spec_merge_pczt(
            a,
            spec_merge_pczt(b, c).unwrap(),
        ),
        spec_merge_pczt(spec_merge_pczt(a, b).unwrap(), c) == spec_merge_pczt(
            spec_merge_pczt(a, c).unwrap(),
            b,
        ),
{
    lemma_pczt_merge_disjoint(a, b);
    lemma_pczt_merge_disjoint(b, c);
    lemma_pczt_merge_disjoint(a, c);
    let ab = doc_union2(a, b);
    let bc = doc_union2(b, c);
    let ac = doc_union2(a, c);
    lemma_longer3(a.transparent.inputs, b.transparent.inputs, c.transparent.inputs);
    lemma_longer3(a.transparent.outputs, b.transparent.outputs, c.transparent.outputs);
    lemma_longer3(a.sapling.spends, b.sapling.spends, c.sapling.spends);
    lemma_longer3(a.sapling.outputs, b.sapling.outputs, c.sapling.outputs);
    lemma_longer3(a.orchard.actions, b.orchard.actions, c.orchard.actions);
    assert(doc_growth_compatible(ab, c));
    lemma_pczt_merge_disjoint(ab, c);
    assert(doc_growth_compatible(a, bc)) by {
        assert(prefix_related(a.transparent.inputs, longer_of(
            b.transparent.inputs,
            c.transparent.inputs,
        )));
        assert(prefix_related(a.transparent.outputs, longer_of(
            b.transparent.outputs,
            c.transparent.outputs,
        )));
        assert(prefix_related(a.sapling.spends, longer_of(b.sapling.spends, c.sapling.spends)));
        assert(prefix_related(a.sapling.outputs, longer_of(b.sapling.outputs, c.sapling.outputs)));
        assert(prefix_related(a.orchard.actions, longer_of(b.orchard.actions, c.orchard.actions)));
    }
    lemma_pczt_merge_disjoint(a, bc);
    assert(doc_growth_compatible(ac, b));
    lemma_pczt_merge_disjoint(ac, b);
    assert(doc_union2(ab, c) == doc_union2(a, bc));
    assert(doc_union2(ab, c) == doc_union2(ac, b));
}


/// Balance accounting for Sapling spends: a bundle whose balance equals the
/// signed sum of its values keeps that property across one append of a spend
/// carrying `value`, the exact shape every Constructor append has.
pub proof fn lemma_sapling_spend_append_balanced(
    pre: sapling::BundleV,
    post: sapling::BundleV,
    value: u64,
)
    requires
        sapling_balanced(pre),
        post.spends.len() == pre.spends.len() + 1,
        post.spends.drop_last() == pre.spends,
        post.spends.last().value == Some(value),
        post.outputs == pre.outputs,
        post.value_balance == pre.value_balance + value,
    ensures
        sapling_balanced(post),
{
    assert(sapling::sum_spend_values(post.spends) == sapling::sum_spend_values(pre.spends)
        + value);
    assert forall|i: int| 0 <= i < post.spends.len() implies (#[trigger] post.spends[i]).value
        is Some by {
        if i < pre.spends.len() {
            assert(post.spends[i] == post.spends.drop_last()[i]);
        } else {
            assert(post.spends[i] == post.spends.last());
        }
    }
}

/// Balance accounting for Sapling outputs: one append of an output carrying
/// `value` lowers the balance by exactly that amount and keeps the signed-sum
/// property.
pub proof fn lemma_sapling_output_append_balanced(
    pre: sapling::BundleV,
    post: sapling::BundleV,
    value: u64,
)
    requires
        sapling_balanced(pre),
        post.outputs.len() == pre.outputs.len() + 1,
        post.outputs.drop_last() == pre.outputs,
        post.outputs.last().value == Some(value),
        post.spends == pre.spends,
        post.value_balance == pre.value_balance - value,
    ensures
        sapling_balanced(post),
{
    assert(sapling::sum_output_values(post.outputs) == sapling::sum_output_values(pre.outputs)
        + value);
    assert forall|i: int| 0 <= i < post.outputs.len() implies (#[trigger] post.outputs[i]).value
        is Some by {
        if i < pre.outputs.len() {
            assert(post.outputs[i] == post.outputs.drop_last()[i]);
        } else {
            assert(post.outputs[i] == post.outputs.last());
        }
    }
}

/// Balance accounting for Orchard: one append of an action moving the given
/// net value keeps the signed-sum property.
pub proof fn lemma_orchard_append_balanced(
    pre: orchard::BundleV,
    post: orchard::BundleV,
    spend_value: u64,
    output_value: u64,
)
    requires
        orchard_balanced(pre),
        post.actions.len() == pre.actions.len() + 1,
        post.actions.drop_last() == pre.actions,
        post.actions.last().spend.value == Some(spend_value),
        post.actions.last().output.value == Some(output_value),
        post.value_balance == pre.value_balance + spend_value - output_value,
    ensures
        orchard_balanced(post),
{
    assert(orchard::sum_action_balances(post.actions) == orchard::sum_action_balances(pre.actions)
        + spend_value - output_value);
    assert forall|i: int| 0 <= i < post.actions.len() implies (
    #[trigger] post.actions[i]).spend.value is Some && post.actions[i].output.value is Some by {
        if i < pre.actions.len() {
            assert(post.actions[i] == post.actions.drop_last()[i]);
        } else {
            assert(post.actions[i] == post.actions.last());
        }
    }
}

} // verus!

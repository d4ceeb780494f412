//! The Orchard shielded value pool.
//!
//! An Orchard action fuses one spend and one output into an atomic unit,
//! because the circuit proves a spend and an output jointly; a single proof
//! covers the whole bundle. The value balance is a signed accumulator of the
//! per-action balances. Freezing and reconciliation follow the same rules as
//! the Sapling pool.

use vstd::prelude::*;

use crate::bytemap::{map_compat, map_union, map_wf, ByteMap};
use crate::bytes::{
    bytes_eq, clone_bytes, clone_opt_bytes, merge_opt_bytes, merge_opt_u64, opt_compat, opt_merge,
    ovb,
};
use crate::common::{
    merge_opt_witness, merge_opt_zip, opt_witnessv_wf, opt_zipv_wf, ovw, ovz, MerkleWitness,
    WitnessV, Zip32Derivation, ZipV,
};
use crate::sapling::opt_len;
use crate::transparent::seq_view;

verus! {

/// The spend half of an Orchard action.
#[derive(Clone)]
pub struct Spend {
    /// The nullifier revealed by this spend (32 bytes), fixed at
    /// construction.
    pub nullifier: Vec<u8>,
    /// The randomized spend-validating key (32 bytes), fixed at
    /// construction.
    pub rk: Vec<u8>,
    /// The spend-authorization signature, set by the Signer.
    pub spend_auth_sig: Option<Vec<u8>>,
    /// The address that received the note being spent (43 bytes).
    pub recipient: Option<Vec<u8>>,
    /// The value of the note being spent.
    pub value: Option<u64>,
    /// The nullifier-derivation input of the note being spent (32 bytes).
    pub rho: Option<Vec<u8>>,
    /// The seed randomness of the note being spent (32 bytes).
    pub rseed: Option<Vec<u8>>,
    /// The full viewing key that validates the note (96 bytes).
    pub fvk: Option<Vec<u8>>,
    /// The merkle path from the note commitment to the bundle anchor.
    pub witness: Option<MerkleWitness>,
    /// The spend-authorization randomizer (32 bytes), needed by the Signer.
    pub alpha: Option<Vec<u8>>,
    /// Where the spending key can be derived, treated as opaque.
    pub zip32_derivation: Option<Zip32Derivation>,
    /// Application-specific key-value data.
    pub proprietary: ByteMap,
}

/// The abstract value of an Orchard [`Spend`].
pub ghost struct SpendV {
    pub nullifier: Seq<u8>,
    pub rk: Seq<u8>,
    pub spend_auth_sig: Option<Seq<u8>>,
    pub recipient: Option<Seq<u8>>,
    pub value: Option<u64>,
    pub rho: Option<Seq<u8>>,
    pub rseed: Option<Seq<u8>>,
    pub fvk: Option<Seq<u8>>,
    pub witness: Option<WitnessV>,
    pub alpha: Option<Seq<u8>>,
    pub zip32_derivation: Option<ZipV>,
    pub proprietary: Seq<(Seq<u8>, Seq<u8>)>,
}

impl View for Spend {
    type V = SpendV;

    open spec fn view(&self) -> SpendV {
        SpendV {
            nullifier: self.nullifier@,
            rk: self.rk@,
            spend_auth_sig: ovb(self.spend_auth_sig),
            recipient: ovb(self.recipient),
            value: self.value,
            rho: ovb(self.rho),
            rseed: ovb(self.rseed),
            fvk: ovb(self.fvk),
            witness: ovw(self.witness),
            alpha: ovb(self.alpha),
            zip32_derivation: ovz(self.zip32_derivation),
            proprietary: self.proprietary@,
        }
    }
}

/// Well-formedness of an Orchard spend.
pub open spec fn spend_wf(s: SpendV) -> bool {
    s.nullifier.len() == 32 && s.rk.len() == 32 && opt_len(s.spend_auth_sig, 64) && opt_len(
        s.recipient,
        43,
    ) && opt_len(s.rho, 32) && opt_len(s.rseed, 32) && opt_len(s.fvk, 96) && opt_witnessv_wf(
        s.witness,
    ) && opt_len(s.alpha, 32) && opt_zipv_wf(s.zip32_derivation) && map_wf(s.proprietary)
}

/// The reconciliation of the spend halves of two copies of one action.
pub open spec fn spec_merge_spend(a: SpendV, b: SpendV) -> Option<SpendV> {
    if a.nullifier == b.nullifier && a.rk == b.rk && opt_compat(a.spend_auth_sig, b.spend_auth_sig)
        && opt_compat(a.recipient, b.recipient) && opt_compat(a.value, b.value) && opt_compat(
        a.rho,
        b.rho,
    ) && opt_compat(a.rseed, b.rseed) && opt_compat(a.fvk, b.fvk) && opt_compat(a.witness, b.witness)
        && opt_compat(a.alpha, b.alpha) && opt_compat(a.zip32_derivation, b.zip32_derivation)
        && map_compat(a.proprietary, b.proprietary) {
        Some(
            SpendV {
                spend_auth_sig: opt_merge(a.spend_auth_sig, b.spend_auth_sig),
                recipient: opt_merge(a.recipient, b.recipient),
                value: opt_merge(a.value, b.value),
                rho: opt_merge(a.rho, b.rho),
                rseed: opt_merge(a.rseed, b.rseed),
                fvk: opt_merge(a.fvk, b.fvk),
                witness: opt_merge(a.witness, b.witness),
                alpha: opt_merge(a.alpha, b.alpha),
                zip32_derivation: opt_merge(a.zip32_derivation, b.zip32_derivation),
                proprietary: map_union(a.proprietary, b.proprietary),
                ..a
            },
        )
    } else {
        None
    }
}

impl Spend {
    /// Copies this spend half.
    pub fn clone_spend(&self) -> (r: Spend)
        ensures
            r@ == self@,
    {
        Spend {
            nullifier: clone_bytes(&self.nullifier),
            rk: clone_bytes(&self.rk),
            spend_auth_sig: clone_opt_bytes(&self.spend_auth_sig),
            recipient: clone_opt_bytes(&self.recipient),
            value: self.value,
            rho: clone_opt_bytes(&self.rho),
            rseed: clone_opt_bytes(&self.rseed),
            fvk: clone_opt_bytes(&self.fvk),
            witness: match &self.witness {
                Some(w) => Some(w.clone_witness()),
                None => None,
            },
            alpha: clone_opt_bytes(&self.alpha),
            zip32_derivation: match &self.zip32_derivation {
                Some(z) => Some(z.clone_zip()),
                None => None,
            },
            proprietary: self.proprietary.clone_map(),
        }
    }

    /// Reconciles this spend half with another copy of it.
    pub fn merge_spend(&self, other: &Spend) -> (r: Option<Spend>)
        requires
            spend_wf(self@),
            spend_wf(other@),
        ensures
            r is Some <==> spec_merge_spend(self@, other@) is Some,
            r is Some ==> r.unwrap()@ == spec_merge_spend(self@, other@).unwrap() && spend_wf(
                r.unwrap()@,
            ),
    {
        if !(bytes_eq(&self.nullifier, &other.nullifier) && bytes_eq(&self.rk, &other.rk)) {
            return None;
        }
        let spend_auth_sig = match merge_opt_bytes(&self.spend_auth_sig, &other.spend_auth_sig) {
            Some(v) => v,
            None => {
                return None;
            },
        };
        let recipient = match merge_opt_bytes(&self.recipient, &other.recipient) {
            Some(v) => v,
            None => {
                return None;
            },
        };
        let value = match merge_opt_u64(&self.value, &other.value) {
            Some(v) => v,
            None => {
                return None;
            },
        };
        let rho = match merge_opt_bytes(&self.rho, &other.rho) {
            Some(v) => v,
            None => {
                return None;
            },
        };
        let rseed = match merge_opt_bytes(&self.rseed, &other.rseed) {
            Some(v) => v,
            None => {
                return None;
            },
        };
        let fvk = match merge_opt_bytes(&self.fvk, &other.fvk) {
            Some(v) => v,
            None => {
                return None;
            },
        };
        let witness = match merge_opt_witness(&self.witness, &other.witness) {
            Some(v) => v,
            None => {
                return None;
            },
        };
        let alpha = match merge_opt_bytes(&self.alpha, &other.alpha) {
            Some(v) => v,
            None => {
                return None;
            },
        };
        let zip32_derivation = match merge_opt_zip(&self.zip32_derivation, &other.zip32_derivation)
            {
            Some(v) => v,
            None => {
                return None;
            },
        };
        let proprietary = match self.proprietary.merged_with(&other.proprietary) {
            Some(v) => v,
            None => {
                return None;
            },
        };
        Some(
            Spend {
                nullifier: clone_bytes(&self.nullifier),
                rk: clone_bytes(&self.rk),
                spend_auth_sig,
                recipient,
                value,
                rho,
                rseed,
                fvk,
                witness,
                alpha,
                zip32_derivation,
                proprietary,
            },
        )
    }
}

/// The output half of an Orchard action.
#[derive(Clone)]
pub struct Output {
    /// The extracted note commitment (32 bytes), fixed at construction.
    pub cmx: Vec<u8>,
    /// The ephemeral key for note encryption (32 bytes), fixed at
    /// construction.
    pub ephemeral_key: Vec<u8>,
    /// The encrypted note plaintext, fixed at construction.
    pub enc_ciphertext: Vec<u8>,
    /// The encrypted recovery data, fixed at construction.
    pub out_ciphertext: Vec<u8>,
    /// The address that will receive the output (43 bytes).
    pub recipient: Option<Vec<u8>>,
    /// The value of the output.
    pub value: Option<u64>,
    /// The seed randomness of the output (32 bytes).
    pub rseed: Option<Vec<u8>>,
    /// The symmetric secret that encrypted `enc_ciphertext` (32 bytes).
    pub shared_secret: Option<Vec<u8>>,
    /// The key that encrypted `out_ciphertext` (32 bytes).
    pub ock: Option<Vec<u8>>,
    /// Where the spending key can be derived, treated as opaque.
    pub zip32_derivation: Option<Zip32Derivation>,
    /// Application-specific key-value data.
    pub proprietary: ByteMap,
}

/// The abstract value of an Orchard [`Output`].
pub ghost struct OutputV {
    pub cmx: Seq<u8>,
    pub ephemeral_key: Seq<u8>,
    pub enc_ciphertext: Seq<u8>,
    pub out_ciphertext: Seq<u8>,
    pub recipient: Option<Seq<u8>>,
    pub value: Option<u64>,
    pub rseed: Option<Seq<u8>>,
    pub shared_secret: Option<Seq<u8>>,
    pub ock: Option<Seq<u8>>,
    pub zip32_derivation: Option<ZipV>,
    pub proprietary: Seq<(Seq<u8>, Seq<u8>)>,
}

impl View for Output {
    type V = OutputV;

    open spec fn view(&self) -> OutputV {
        OutputV {
            cmx: self.cmx@,
            ephemeral_key: self.ephemeral_key@,
            enc_ciphertext: self.enc_ciphertext@,
            out_ciphertext: self.out_ciphertext@,
            recipient: ovb(self.recipient),
            value: self.value,
            rseed: ovb(self.rseed),
            shared_secret: ovb(self.shared_secret),
            ock: ovb(self.ock),
            zip32_derivation: ovz(self.zip32_derivation),
            proprietary: self.proprietary@,
        }
    }
}

/// Well-formedness of an Orchard output.
pub open spec fn output_wf(o: OutputV) -> bool {
    o.cmx.len() == 32 && o.ephemeral_key.len() == 32 && opt_len(o.recipient, 43) && opt_len(
        o.rseed,
        32,
    ) && opt_len(o.shared_secret, 32) && opt_len(o.ock, 32) && opt_zipv_wf(o.zip32_derivation)
        && map_wf(o.proprietary)
}

/// The reconciliation of the output halves of two copies of one action.
pub open spec fn spec_merge_output(a: OutputV, b: OutputV) -> Option<OutputV> {
    if a.cmx == b.cmx && a.ephemeral_key == b.ephemeral_key && a.enc_ciphertext == b.enc_ciphertext
        && a.out_ciphertext == b.out_ciphertext && opt_compat(a.recipient, b.recipient)
        && opt_compat(a.value, b.value) && opt_compat(a.rseed, b.rseed) && opt_compat(
        a.shared_secret,
        b.shared_secret,
    ) && opt_compat(a.ock, b.ock) && opt_compat(a.zip32_derivation, b.zip32_derivation)
        && map_compat(a.proprietary, b.proprietary) {
        Some(
            OutputV {
                recipient: opt_merge(a.recipient, b.recipient),
                value: opt_merge(a.value, b.value),
                rseed: opt_merge(a.rseed, b.rseed),
                shared_secret: opt_merge(a.shared_secret, b.shared_secret),
                ock: opt_merge(a.ock, b.ock),
                zip32_derivation: opt_merge(a.zip32_derivation, b.zip32_derivation),
                proprietary: map_union(a.proprietary, b.proprietary),
                ..a
            },
        )
    } else {
        None
    }
}

impl Output {
    /// Copies this output half.
    pub fn clone_output(&self) -> (r: Output)
        ensures
            r@ == self@,
    {
        Output {
            cmx: clone_bytes(&self.cmx),
            ephemeral_key: clone_bytes(&self.ephemeral_key),
            enc_ciphertext: clone_bytes(&self.enc_ciphertext),
            out_ciphertext: clone_bytes(&self.out_ciphertext),
            recipient: clone_opt_bytes(&self.recipient),
            value: self.value,
            rseed: clone_opt_bytes(&self.rseed),
            shared_secret: clone_opt_bytes(&self.shared_secret),
            ock: clone_opt_bytes(&self.ock),
            zip32_derivation: match &self.zip32_derivation {
                Some(z) => Some(z.clone_zip()),
                None => None,
            },
            proprietary: self.proprietary.clone_map(),
        }
    }

    /// Reconciles this output half with another copy of it.
    pub fn merge_output(&self, other: &Output) -> (r: Option<Output>)
        requires
            output_wf(self@),
            output_wf(other@),
        ensures
            r is Some <==> spec_merge_output(self@, other@) is Some,
            r is Some ==> r.unwrap()@ == spec_merge_output(self@, other@).unwrap() && output_wf(
                r.unwrap()@,
            ),
    {
        if !(bytes_eq(&self.cmx, &other.cmx) && bytes_eq(&self.ephemeral_key, &other.ephemeral_key)
            && bytes_eq(&self.enc_ciphertext, &other.enc_ciphertext) && bytes_eq(
            &self.out_ciphertext,
            &other.out_ciphertext,
        )) {
            return None;
        }
        let recipient = match merge_opt_bytes(&self.recipient, &other.recipient) {
            Some(v) => v,
            None => {
                return None;
            },
        };
        let value = match merge_opt_u64(&self.value, &other.value) {
            Some(v) => v,
            None => {
                return None;
            },
        };
        let rseed = match merge_opt_bytes(&self.rseed, &other.rseed) {
            Some(v) => v,
            None => {
                return None;
            },
        };
        let shared_secret = match merge_opt_bytes(&self.shared_secret, &other.shared_secret) {
            Some(v) => v,
            None => {
                return None;
            },
        };
        let ock = match merge_opt_bytes(&self.ock, &other.ock) {
            Some(v) => v,
            None => {
                return None;
            },
        };
        let zip32_derivation = match merge_opt_zip(&self.zip32_derivation, &other.zip32_derivation)
            {
            Some(v) => v,
            None => {
                return None;
            },
        };
        let proprietary = match self.proprietary.merged_with(&other.proprietary) {
            Some(v) => v,
            None => {
                return None;
            },
        };
        Some(
            Output {
                cmx: clone_bytes(&self.cmx),
                ephemeral_key: clone_bytes(&self.ephemeral_key),
                enc_ciphertext: clone_bytes(&self.enc_ciphertext),
                out_ciphertext: clone_bytes(&self.out_ciphertext),
                recipient,
                value,
                rseed,
                shared_secret,
                ock,
                zip32_derivation,
                proprietary,
            },
        )
    }
}

/// One Orchard action: a fused spend and output with a joint value
/// commitment.
#[derive(Clone)]
pub struct Action {
    /// The commitment to the action's net value (32 bytes), fixed at
    /// construction.
    pub cv: Vec<u8>,
    pub spend: Spend,
    pub output: Output,
    /// The value-commitment trapdoor (32 bytes); the IO Finalizer folds it
    /// into the bundle's binding-signature key.
    pub rcv: Option<Vec<u8>>,
}

/// The abstract value of an [`Action`].
pub ghost struct ActionV {
    pub cv: Seq<u8>,
    pub spend: SpendV,
    pub output: OutputV,
    pub rcv: Option<Seq<u8>>,
}

impl View for Action {
    type V = ActionV;

    open spec fn view(&self) -> ActionV {
        ActionV { cv: self.cv@, spend: self.spend@, output: self.output@, rcv: ovb(self.rcv) }
    }
}

/// Well-formedness of an action.
pub open spec fn action_wf(a: ActionV) -> bool {
    a.cv.len() == 32 && spend_wf(a.spend) && output_wf(a.output) && opt_len(a.rcv, 32)
}

/// The reconciliation of two copies of one action.
pub open spec fn spec_merge_action(a: ActionV, b: ActionV) -> Option<ActionV> {
    if a.cv == b.cv && spec_merge_spend(a.spend, b.spend) is Some && spec_merge_output(
        a.output,
        b.output,
    ) is Some && opt_compat(a.rcv, b.rcv) {
        Some(
            ActionV {
                cv: a.cv,
                spend: spec_merge_spend(a.spend, b.spend).unwrap(),
                output: spec_merge_output(a.output, b.output).unwrap(),
                rcv: opt_merge(a.rcv, b.rcv),
            },
        )
    } else {
        None
    }
}

impl Action {
    /// Copies this action.
    pub fn clone_action(&self) -> (r: Action)
        ensures
            r@ == self@,
    {
        Action {
            cv: clone_bytes(&self.cv),
            spend: self.spend.clone_spend(),
            output: self.output.clone_output(),
            rcv: clone_opt_bytes(&self.rcv),
        }
    }

    /// Reconciles this action with another copy of it.
    pub fn merge_action(&self, other: &Action) -> (r: Option<Action>)
        requires
            action_wf(self@),
            action_wf(other@),
        ensures
            r is Some <==> spec_merge_action(self@, other@) is Some,
            r is Some ==> r.unwrap()@ == spec_merge_action(self@, other@).unwrap() && action_wf(
                r.unwrap()@,
            ),
    {
        if !bytes_eq(&self.cv, &other.cv) {
            return None;
        }
        let spend = match self.spend.merge_spend(&other.spend) {
            Some(v) => v,
            None => {
                return None;
            },
        };
        let output = match self.output.merge_output(&other.output) {
            Some(v) => v,
            None => {
                return None;
            },
        };
        let rcv = match merge_opt_bytes(&self.rcv, &other.rcv) {
            Some(v) => v,
            None => {
                return None;
            },
        };
        Some(Action { cv: clone_bytes(&self.cv), spend, output, rcv })
    }
}

/// The net value moved by an action: its spend value minus its output value,
/// counting an absent value as zero.
pub open spec fn action_balance(a: ActionV) -> int {
    (match a.spend.value {
        Some(v) => v as int,
        None => 0,
    }) - (match a.output.value {
        Some(v) => v as int,
        None => 0,
    })
}

/// Whether every action in a list still carries both of its value fields.
pub open spec fn action_values_present(s: Seq<ActionV>) -> bool {
    forall|i: int|
        0 <= i < s.len() ==> (#[trigger] s[i]).spend.value is Some && s[i].output.value is Some
}

/// The sum of the net values of a list of actions.
pub open spec fn sum_action_balances(s: Seq<ActionV>) -> int
    decreases s.len(),
{
    if s.len() == 0 {
        0
    } else {
        sum_action_balances(s.drop_last()) + action_balance(s.last())
    }
}

/// A step of the action-balance sum: extending a prefix by one record.
pub proof fn lemma_sum_action_take(s: Seq<ActionV>, k: int)
    requires
        0 <= k < s.len(),
    ensures
        sum_action_balances(s.take(k + 1)) == sum_action_balances(s.take(k)) + action_balance(s[k]),
{
    assert(s.take(k + 1).drop_last() =~= s.take(k));
    assert(s.take(k + 1).last() == s[k]);
}

/// Whether every action's own balance fits the signed accumulator.
pub open spec fn action_balances_fit(s: Seq<ActionV>) -> bool {
    forall|i: int|
        0 <= i < s.len() ==> i64::MIN <= action_balance(#[trigger] s[i]) <= i64::MAX
}

/// Whether every prefix of the adopted actions keeps the running balance in
/// the signed accumulator's range.
pub open spec fn prefixes_fit(vb: int, s: Seq<ActionV>) -> bool {
    forall|k: int| 0 <= k <= s.len() ==> i64::MIN <= vb + sum_action_balances(#[trigger] s.take(k))
        <= i64::MAX
}

/// Record-by-record reconciliation of two action lists.
pub open spec fn zip_merge_actions(a: Seq<ActionV>, b: Seq<ActionV>) -> Option<Seq<ActionV>> {
    let n = if a.len() <= b.len() {
        a.len() as int
    } else {
        b.len() as int
    };
    if forall|i: int| 0 <= i < n ==> (#[trigger] spec_merge_action(a[i], b[i])) is Some {
        Some(
            Seq::new(n as nat, |i: int| spec_merge_action(a[i], b[i]).unwrap()) + if a.len()
                >= b.len() {
                a.skip(n)
            } else {
                b.skip(n)
            },
        )
    } else {
        None
    }
}

/// The Orchard bundle: the actions appended so far, the enabled-pool flags,
/// the running signed value balance, the anchor, the single proof over all
/// actions, and the binding-signature key once frozen.
#[derive(Clone)]
pub struct Bundle {
    pub actions: Vec<Action>,
    /// Bit 0 enables spends, bit 1 enables outputs; fixed by the Creator.
    pub flags: u8,
    /// The net value of spends minus outputs across all actions.
    pub value_balance: i64,
    /// The anchor (32 bytes) fixed by the Creator.
    pub anchor: Vec<u8>,
    /// The single proof covering every action, set by the Prover.
    pub zkproof: Option<Vec<u8>>,
    /// The binding-signature signing key (32 bytes). `None` until the IO
    /// Finalizer runs; its presence freezes the record count and balance.
    pub bsk: Option<Vec<u8>>,
}

/// The abstract value of an Orchard [`Bundle`].
pub ghost struct BundleV {
    pub actions: Seq<ActionV>,
    pub flags: u8,
    pub value_balance: i64,
    pub anchor: Seq<u8>,
    pub zkproof: Option<Seq<u8>>,
    pub bsk: Option<Seq<u8>>,
}

impl View for Bundle {
    type V = BundleV;

    open spec fn view(&self) -> BundleV {
        BundleV {
            actions: seq_view(self.actions@),
            flags: self.flags,
            value_balance: self.value_balance,
            anchor: self.anchor@,
            zkproof: ovb(self.zkproof),
            bsk: ovb(self.bsk),
        }
    }
}

/// Well-formedness of an Orchard bundle.
pub open spec fn orchard_wf(a: BundleV) -> bool {
    a.anchor.len() == 32 && opt_len(a.bsk, 32) && (forall|i: int|
        0 <= i < a.actions.len() ==> action_wf(#[trigger] a.actions[i]))
}

/// The extra trailing actions that a reconciliation of `a` with `b` adopts
/// from `b`.
pub open spec fn adopted_actions(a: BundleV, b: BundleV) -> Seq<ActionV> {
    if b.actions.len() > a.actions.len() {
        b.actions.skip(a.actions.len() as int)
    } else {
        Seq::empty()
    }
}

/// The reconciliation of two Orchard bundles.
pub open spec fn spec_merge_orchard(a: BundleV, b: BundleV) -> Option<BundleV> {
    if a.anchor == b.anchor && a.flags == b.flags && opt_compat(a.bsk, b.bsk) && opt_compat(
        a.zkproof,
        b.zkproof,
    ) && ((a.bsk is Some || b.bsk is Some) ==> (a.actions.len() == b.actions.len()
        && a.value_balance == b.value_balance)) && zip_merge_actions(a.actions, b.actions) is Some
        && action_values_present(adopted_actions(a, b)) && action_balances_fit(
        adopted_actions(a, b),
    ) && prefixes_fit(a.value_balance as int, adopted_actions(a, b)) {
        Some(
            BundleV {
                actions: zip_merge_actions(a.actions, b.actions).unwrap(),
                flags: a.flags,
                value_balance: (a.value_balance + sum_action_balances(adopted_actions(a, b))) as i64,
                anchor: a.anchor,
                zkproof: opt_merge(a.zkproof, b.zkproof),
                bsk: opt_merge(a.bsk, b.bsk),
            },
        )
    } else {
        None
    }
}

impl Bundle {
    /// The well-formedness of this bundle.
    pub open spec fn wf(&self) -> bool {
        orchard_wf(self@)
    }

    /// Reconciles this bundle with another copy of it; `None` reports an
    /// irreconcilable conflict.
    #[verifier::loop_isolation(false)]
    pub fn merge(&self, other: &Bundle) -> (r: Option<Bundle>)
        requires
            self.wf(),
            other.wf(),
        ensures
            r is Some <==> spec_merge_orchard(self@, other@) is Some,
            r is Some ==> r.unwrap()@ == spec_merge_orchard(self@, other@).unwrap()
                && r.unwrap().wf(),
    {
        let ghost av = self@;
        let ghost bv = other@;
        if self.flags != other.flags {
            return None;
        }
        let bsk = match merge_opt_bytes(&self.bsk, &other.bsk) {
            Some(v) => v,
            None => {
                return None;
            },
        };
        let zkproof = match merge_opt_bytes(&self.zkproof, &other.zkproof) {
            Some(v) => v,
            None => {
                return None;
            },
        };
        if self.bsk.is_some() || other.bsk.is_some() {
            if self.actions.len() != other.actions.len() || self.value_balance
                != other.value_balance {
                return None;
            }
        }
        if !bytes_eq(&self.anchor, &other.anchor) {
            return None;
        }
        let mut vb: i64 = self.value_balance;
        let min: usize = if self.actions.len() <= other.actions.len() {
            self.actions.len()
        } else {
            other.actions.len()
        };
        let mut actions: Vec<Action> = Vec::new();
        let mut i: usize = 0;
        while i < min
            invariant
                0 <= i <= min,
                actions@.len() == i,
                forall|k: int|
                    0 <= k < i ==> (#[trigger] spec_merge_action(av.actions[k], bv.actions[k]))
                        is Some,
                forall|k: int|
                    0 <= k < i ==> (#[trigger] actions@[k])@ == spec_merge_action(
                        av.actions[k],
                        bv.actions[k],
                    ).unwrap(),
                forall|k: int| 0 <= k < i ==> action_wf((#[trigger] actions@[k])@),
            decreases min - i,
        {
            match self.actions[i].merge_action(&other.actions[i]) {
                Some(m) => {
                    actions.push(m);
                },
                None => {
                    proof {
                        assert(spec_merge_action(av.actions[i as int], bv.actions[i as int])
                            is None);
                        assert(zip_merge_actions(av.actions, bv.actions) is None);
                    }
                    return None;
                },
            }
            i += 1;
        }
        let ghost adopted = adopted_actions(av, bv);
        if self.actions.len() > min {
            let n: usize = self.actions.len();
            let mut k: usize = min;
            while k < n
                invariant
                    min <= k <= n,
                    actions@.len() == k,
                    forall|x: int|
                        0 <= x < min ==> (#[trigger] actions@[x])@ == spec_merge_action(
                            av.actions[x],
                            bv.actions[x],
                        ).unwrap(),
                    forall|x: int| min <= x < k ==> (#[trigger] actions@[x])@ == av.actions[x],
                    forall|x: int| 0 <= x < k ==> action_wf((#[trigger] actions@[x])@),
                decreases n - k,
            {
                proof {
                    assert(av.actions[k as int] == self.actions@[k as int]@);
                }
                actions.push(self.actions[k].clone_action());
                k += 1;
            }
        } else if other.actions.len() > min {
            let n: usize = other.actions.len();
            let mut k: usize = min;
            proof {
                assert(adopted =~= bv.actions.skip(min as int));
                assert(adopted.take(0) =~= Seq::<ActionV>::empty());
            }
            while k < n
                invariant
                    min <= k <= n,
                    actions@.len() == k,
                    vb as int == av.value_balance + sum_action_balances(
                        adopted.take(k - min as int),
                    ),
                    forall|x: int|
                        0 <= x < min ==> (#[trigger] actions@[x])@ == spec_merge_action(
                            av.actions[x],
                            bv.actions[x],
                        ).unwrap(),
                    forall|x: int| min <= x < k ==> (#[trigger] actions@[x])@ == bv.actions[x],
                    forall|x: int| 0 <= x < k ==> action_wf((#[trigger] actions@[x])@),
                    forall|x: int|
                        0 <= x < k - min ==> (#[trigger] adopted[x]).spend.value is Some
                            && adopted[x].output.value is Some,
                    forall|x: int|
                        0 <= x < k - min ==> i64::MIN <= action_balance(#[trigger] adopted[x])
                            <= i64::MAX,
                    forall|x: int|
                        0 <= x <= k - min ==> i64::MIN <= av.value_balance + sum_action_balances(
                            #[trigger] adopted.take(x),
                        ) <= i64::MAX,
                decreases n - k,
            {
                let ghost kk = k - min as int;
                proof {
                    assert(bv.actions[k as int] == other.actions@[k as int]@);
                    assert(adopted[kk] == bv.actions[k as int]);
                    lemma_sum_action_take(adopted, kk);
                }
                let sv = match &other.actions[k].spend.value {
                    Some(v) => *v,
                    None => {
                        proof {
                            assert(!action_values_present(adopted));
                        }
                        return None;
                    },
                };
                let ov = match &other.actions[k].output.value {
                    Some(v) => *v,
                    None => {
                        proof {
                            assert(!action_values_present(adopted));
                        }
                        return None;
                    },
                };
                let bal: i128 = sv as i128 - ov as i128;
                if bal > i64::MAX as i128 || bal < i64::MIN as i128 {
                    proof {
                        assert(action_balance(adopted[kk]) == bal as int);
                        assert(!action_balances_fit(adopted));
                    }
                    return None;
                }
                vb = match vb.checked_add(bal as i64) {
                    Some(nv) => nv,
                    None => {
                        proof {
                            assert(av.value_balance + sum_action_balances(adopted.take(kk + 1))
                                > i64::MAX || av.value_balance + sum_action_balances(
                                adopted.take(kk + 1),
                            ) < i64::MIN);
                            assert(!prefixes_fit(av.value_balance as int, adopted));
                        }
                        return None;
                    },
                };
                actions.push(other.actions[k].clone_action());
                k += 1;
            }
            proof {
                assert(adopted.take(n - min as int) =~= adopted);
            }
        }
        proof {
            assert(seq_view(actions@) =~= zip_merge_actions(av.actions, bv.actions).unwrap());
            if adopted_actions(av, bv).len() == 0 {
                assert(vb as int == av.value_balance + sum_action_balances(
                    adopted_actions(av, bv),
                ));
            }
            assert(action_values_present(adopted_actions(av, bv))) by {
                if av.actions.len() >= bv.actions.len() {
                    assert(adopted_actions(av, bv) =~= Seq::<ActionV>::empty());
                }
            }
            assert(action_balances_fit(adopted_actions(av, bv))) by {
                if av.actions.len() >= bv.actions.len() {
                    assert(adopted_actions(av, bv) =~= Seq::<ActionV>::empty());
                }
            }
            assert(prefixes_fit(av.value_balance as int, adopted_actions(av, bv))) by {
                if av.actions.len() >= bv.actions.len() {
                    assert(adopted_actions(av, bv) =~= Seq::<ActionV>::empty());
                    assert forall|k: int|
                        0 <= k <= adopted_actions(av, bv).len() implies i64::MIN
                        <= av.value_balance as int + sum_action_balances(
                        #[trigger] adopted_actions(av, bv).take(k),
                    ) <= i64::MAX by {
                        assert(adopted_actions(av, bv).take(k) =~= Seq::<ActionV>::empty());
                    }
                }
            }
            assert(zip_merge_actions(av.actions, bv.actions) is Some);
            assert(spec_merge_orchard(av, bv) is Some);
        }
        let r = Bundle {
            actions,
            flags: self.flags,
            value_balance: vb,
            anchor: clone_bytes(&self.anchor),
            zkproof,
            bsk,
        };
        proof {
            assert(r@ == spec_merge_orchard(av, bv).unwrap());
            assert(orchard_wf(r@));
        }
        Some(r)
    }
}


/// Failures while reducing an Orchard bundle to its final authorized form,
/// or while folding its trapdoors into the binding-signature key.
#[derive(Debug, PartialEq, Eq, Structural)]
pub enum Error {
    InvalidAnchor,
    InvalidValueCommitment,
    InvalidEncCiphertext,
    InvalidExtractedNoteCommitment,
    InvalidNullifier,
    InvalidOutCiphertext,
    InvalidRandomizedKey,
    InvalidValueBalance,
    InvalidValueCommitTrapdoor,
    MissingValueCommitTrapdoor,
    MissingProof,
    MissingSpendAuthSignature,
    MissingBindingSignatureKey,
    InvalidBindingSignatureKey,
}

} // verus!

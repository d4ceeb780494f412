//! The transparent value pool: plain inputs and outputs.
//!
//! A transparent bundle has no freezing step; two copies reconcile record by
//! record, and when one side holds more records than the other the extra
//! trailing records are adopted verbatim, since an unfrozen bundle only ever
//! grows by appending.

use vstd::prelude::*;

use crate::bytemap::{map_compat, map_union, map_wf, ByteMap};
use crate::bytes::{bytes_eq, clone_bytes, clone_opt_bytes, merge_opt_bytes, opt_compat, opt_merge, ovb};

verus! {

/// The abstract value of a sequence of viewable records.
pub open spec fn seq_view<T: View>(s: Seq<T>) -> Seq<T::V> {
    Seq::new(s.len(), |i: int| s[i]@)
}

/// A transparent coin spent by the transaction.
#[derive(Clone)]
pub struct Input {
    /// The id of the transaction that created the coin.
    pub prevout_txid: Vec<u8>,
    /// The index of the coin among that transaction's outputs.
    pub prevout_index: u32,
    pub sequence: u32,
    /// The lock time that must have passed before the coin may be spent.
    pub required_locktime: u32,
    /// The witness satisfying `script_pubkey`, assembled by the Spend
    /// Finalizer out of the partial signatures.
    pub script_sig: Option<Vec<u8>>,
    pub value: u64,
    pub script_pubkey: Vec<u8>,
    /// The script required to spend a pay-to-script-hash coin.
    pub redeem_script: Option<Vec<u8>>,
    /// Signatures contributed so far, keyed by the public key they verify
    /// under.
    pub partial_signatures: ByteMap,
    /// The sighash type every signature on this input must commit to.
    pub sighash_type: u32,
    /// Preimages of RIPEMD160 hashes appearing in the scripts.
    pub ripemd160_preimages: ByteMap,
    /// Preimages of SHA256 hashes appearing in the scripts.
    pub sha256_preimages: ByteMap,
    /// Preimages of RIPEMD160(SHA256(..)) hashes appearing in the scripts.
    pub hash160_preimages: ByteMap,
    /// Preimages of SHA256(SHA256(..)) hashes appearing in the scripts.
    pub hash256_preimages: ByteMap,
}

/// The abstract value of an [`Input`].
pub ghost struct InputV {
    pub prevout_txid: Seq<u8>,
    pub prevout_index: u32,
    pub sequence: u32,
    pub required_locktime: u32,
    pub script_sig: Option<Seq<u8>>,
    pub value: u64,
    pub script_pubkey: Seq<u8>,
    pub redeem_script: Option<Seq<u8>>,
    pub partial_signatures: Seq<(Seq<u8>, Seq<u8>)>,
    pub sighash_type: u32,
    pub ripemd160_preimages: Seq<(Seq<u8>, Seq<u8>)>,
    pub sha256_preimages: Seq<(Seq<u8>, Seq<u8>)>,
    pub hash160_preimages: Seq<(Seq<u8>, Seq<u8>)>,
    pub hash256_preimages: Seq<(Seq<u8>, Seq<u8>)>,
}

impl View for Input {
    type V = InputV;

    open spec fn view(&self) -> InputV {
        InputV {
            prevout_txid: self.prevout_txid@,
            prevout_index: self.prevout_index,
            sequence: self.sequence,
            required_locktime: self.required_locktime,
            script_sig: ovb(self.script_sig),
            value: self.value,
            script_pubkey: self.script_pubkey@,
            redeem_script: ovb(self.redeem_script),
            partial_signatures: self.partial_signatures@,
            sighash_type: self.sighash_type,
            ripemd160_preimages: self.ripemd160_preimages@,
            sha256_preimages: self.sha256_preimages@,
            hash160_preimages: self.hash160_preimages@,
            hash256_preimages: self.hash256_preimages@,
        }
    }
}

/// Well-formedness of an input: a 32-byte previous-transaction id and
/// canonically sorted tables.
pub open spec fn input_wf(a: InputV) -> bool {
    a.prevout_txid.len() == 32 && map_wf(a.partial_signatures) && map_wf(a.ripemd160_preimages)
        && map_wf(a.sha256_preimages) && map_wf(a.hash160_preimages) && map_wf(a.hash256_preimages)
}

/// The reconciliation of two inputs describing the same coin: the fields
/// fixed at construction must be identical, optional fields reconcile by
/// presence, and the tables merge by key-wise union.
pub open spec fn spec_merge_input(a: InputV, b: InputV) -> Option<InputV> {
    if a.prevout_txid == b.prevout_txid && a.prevout_index == b.prevout_index && a.sequence
        == b.sequence && a.required_locktime == b.required_locktime && a.value == b.value
        && a.script_pubkey == b.script_pubkey && a.sighash_type == b.sighash_type && opt_compat(
        a.script_sig,
        b.script_sig,
    ) && opt_compat(a.redeem_script, b.redeem_script) && map_compat(
        a.partial_signatures,
        b.partial_signatures,
    ) && map_compat(a.ripemd160_preimages, b.ripemd160_preimages) && map_compat(
        a.sha256_preimages,
        b.sha256_preimages,
    ) && map_compat(a.hash160_preimages, b.hash160_preimages) && map_compat(
        a.hash256_preimages,
        b.hash256_preimages,
    ) {
        Some(
            InputV {
                script_sig: opt_merge(a.script_sig, b.script_sig),
                redeem_script: opt_merge(a.redeem_script, b.redeem_script),
                partial_signatures: map_union(a.partial_signatures, b.partial_signatures),
                ripemd160_preimages: map_union(a.ripemd160_preimages, b.ripemd160_preimages),
                sha256_preimages: map_union(a.sha256_preimages, b.sha256_preimages),
                hash160_preimages: map_union(a.hash160_preimages, b.hash160_preimages),
                hash256_preimages: map_union(a.hash256_preimages, b.hash256_preimages),
                ..a
            },
        )
    } else {
        None
    }
}

impl Input {
    /// Copies this input.
    pub fn clone_input(&self) -> (r: Input)
        ensures
            r@ == self@,
    {
        Input {
            prevout_txid: clone_bytes(&self.prevout_txid),
            prevout_index: self.prevout_index,
            sequence: self.sequence,
            required_locktime: self.required_locktime,
            script_sig: clone_opt_bytes(&self.script_sig),
            value: self.value,
            script_pubkey: clone_bytes(&self.script_pubkey),
            redeem_script: clone_opt_bytes(&self.redeem_script),
            partial_signatures: self.partial_signatures.clone_map(),
            sighash_type: self.sighash_type,
            ripemd160_preimages: self.ripemd160_preimages.clone_map(),
            sha256_preimages: self.sha256_preimages.clone_map(),
            hash160_preimages: self.hash160_preimages.clone_map(),
            hash256_preimages: self.hash256_preimages.clone_map(),
        }
    }

    /// Reconciles this input with another copy of it.
    pub fn merge_input(&self, other: &Input) -> (r: Option<Input>)
        requires
            input_wf(self@),
            input_wf(other@),
        ensures
            r is Some <==> spec_merge_input(self@, other@) is Some,
            r is Some ==> r.unwrap()@ == spec_merge_input(self@, other@).unwrap() && input_wf(
                r.unwrap()@,
            ),
    {
        if !(bytes_eq(&self.prevout_txid, &other.prevout_txid) && self.prevout_index
            == other.prevout_index && self.sequence == other.sequence && self.required_locktime
            == other.required_locktime && self.value == other.value && bytes_eq(
            &self.script_pubkey,
            &other.script_pubkey,
        ) && self.sighash_type == other.sighash_type) {
            return None;
        }
        let script_sig = match merge_opt_bytes(&self.script_sig, &other.script_sig) {
            Some(v) => v,
            None => {
                return None;
            },
        };
        let redeem_script = match merge_opt_bytes(&self.redeem_script, &other.redeem_script) {
            Some(v) => v,
            None => {
                return None;
            },
        };
        let partial_signatures = match self.partial_signatures.merged_with(
            &other.partial_signatures,
        ) {
            Some(v) => v,
            None => {
                return None;
            },
        };
        let ripemd160_preimages = match self.ripemd160_preimages.merged_with(
            &other.ripemd160_preimages,
        ) {
            Some(v) => v,
            None => {
                return None;
            },
        };
        let sha256_preimages = match self.sha256_preimages.merged_with(&other.sha256_preimages) {
            Some(v) => v,
            None => {
                return None;
            },
        };
        let hash160_preimages = match self.hash160_preimages.merged_with(&other.hash160_preimages) {
            Some(v) => v,
            None => {
                return None;
            },
        };
        let hash256_preimages = match self.hash256_preimages.merged_with(&other.hash256_preimages) {
            Some(v) => v,
            None => {
                return None;
            },
        };
        Some(
            Input {
                prevout_txid: clone_bytes(&self.prevout_txid),
                prevout_index: self.prevout_index,
                sequence: self.sequence,
                required_locktime: self.required_locktime,
                script_sig,
                value: self.value,
                script_pubkey: clone_bytes(&self.script_pubkey),
                redeem_script,
                partial_signatures,
                sighash_type: self.sighash_type,
                ripemd160_preimages,
                sha256_preimages,
                hash160_preimages,
                hash256_preimages,
            },
        )
    }
}

/// A transparent coin created by the transaction.
#[derive(Clone)]
pub struct Output {
    pub value: u64,
    pub script_pubkey: Vec<u8>,
    /// The script required to spend a pay-to-script-hash coin.
    pub redeem_script: Option<Vec<u8>>,
}

/// The abstract value of an [`Output`].
pub ghost struct OutputV {
    pub value: u64,
    pub script_pubkey: Seq<u8>,
    pub redeem_script: Option<Seq<u8>>,
}

impl View for Output {
    type V = OutputV;

    open spec fn view(&self) -> OutputV {
        OutputV {
            value: self.value,
            script_pubkey: self.script_pubkey@,
            redeem_script: ovb(self.redeem_script),
        }
    }
}

/// The reconciliation of two outputs describing the same coin.
pub open spec fn spec_merge_output(a: OutputV, b: OutputV) -> Option<OutputV> {
    if a.value == b.value && a.script_pubkey == b.script_pubkey && opt_compat(
        a.redeem_script,
        b.redeem_script,
    ) {
        Some(OutputV { redeem_script: opt_merge(a.redeem_script, b.redeem_script), ..a })
    } else {
        None
    }
}

impl Output {
    /// Copies this output.
    pub fn clone_output(&self) -> (r: Output)
        ensures
            r@ == self@,
    {
        Output {
            value: self.value,
            script_pubkey: clone_bytes(&self.script_pubkey),
            redeem_script: clone_opt_bytes(&self.redeem_script),
        }
    }

    /// Reconciles this output with another copy of it.
    pub fn merge_output(&self, other: &Output) -> (r: Option<Output>)
        ensures
            r is Some <==> spec_merge_output(self@, other@) is Some,
            r is Some ==> r.unwrap()@ == spec_merge_output(self@, other@).unwrap(),
    {
        if !(self.value == other.value && bytes_eq(&self.script_pubkey, &other.script_pubkey)) {
            return None;
        }
        let redeem_script = match merge_opt_bytes(&self.redeem_script, &other.redeem_script) {
            Some(v) => v,
            None => {
                return None;
            },
        };
        Some(
            Output {
                value: self.value,
                script_pubkey: clone_bytes(&self.script_pubkey),
                redeem_script,
            },
        )
    }
}

/// The transparent bundle: the inputs and outputs appended so far.
#[derive(Clone)]
pub struct Bundle {
    pub inputs: Vec<Input>,
    pub outputs: Vec<Output>,
}

/// The abstract value of a transparent [`Bundle`].
pub ghost struct BundleV {
    pub inputs: Seq<InputV>,
    pub outputs: Seq<OutputV>,
}

impl View for Bundle {
    type V = BundleV;

    open spec fn view(&self) -> BundleV {
        BundleV { inputs: seq_view(self.inputs@), outputs: seq_view(self.outputs@) }
    }
}

/// Record-by-record reconciliation of two record lists that grew from a
/// common prefix: the shared positions merge field by field, and the longer
/// side's extra trailing records are adopted verbatim.
pub open spec fn zip_merge_inputs(a: Seq<InputV>, b: Seq<InputV>) -> Option<Seq<InputV>> {
    let n = if a.len() <= b.len() {
        a.len() as int
    } else {
        b.len() as int
    };
    if forall|i: int| 0 <= i < n ==> (#[trigger] spec_merge_input(a[i], b[i])) is Some {
        Some(
            Seq::new(n as nat, |i: int| spec_merge_input(a[i], b[i]).unwrap()) + if a.len()
                >= b.len() {
                a.skip(n)
            } else {
                b.skip(n)
            },
        )
    } else {
        None
    }
}

/// Record-by-record reconciliation of two output lists.
pub open spec fn zip_merge_outputs(a: Seq<OutputV>, b: Seq<OutputV>) -> Option<Seq<OutputV>> {
    let n = if a.len() <= b.len() {
        a.len() as int
    } else {
        b.len() as int
    };
    if forall|i: int| 0 <= i < n ==> (#[trigger] spec_merge_output(a[i], b[i])) is Some {
        Some(
            Seq::new(n as nat, |i: int| spec_merge_output(a[i], b[i]).unwrap()) + if a.len()
                >= b.len() {
                a.skip(n)
            } else {
                b.skip(n)
            },
        )
    } else {
        None
    }
}

/// The reconciliation of two transparent bundles.
pub open spec fn spec_merge_transparent(a: BundleV, b: BundleV) -> Option<BundleV> {
    if zip_merge_inputs(a.inputs, b.inputs) is Some && zip_merge_outputs(a.outputs, b.outputs)
        is Some {
        Some(
            BundleV {
                inputs: zip_merge_inputs(a.inputs, b.inputs).unwrap(),
                outputs: zip_merge_outputs(a.outputs, b.outputs).unwrap(),
            },
        )
    } else {
        None
    }
}

/// Well-formedness of a transparent bundle.
pub open spec fn transparent_wf(a: BundleV) -> bool {
    forall|i: int| 0 <= i < a.inputs.len() ==> input_wf(#[trigger] a.inputs[i])
}

impl Bundle {
    /// The well-formedness of this bundle.
    pub open spec fn wf(&self) -> bool {
        transparent_wf(self@)
    }

    /// Reconciles this bundle with another copy of it; `None` reports an
    /// irreconcilable conflict.
    #[verifier::loop_isolation(false)]
    pub fn merge(&self, other: &Bundle) -> (r: Option<Bundle>)
        requires
            self.wf(),
            other.wf(),
        ensures
            r is Some <==> spec_merge_transparent(self@, other@) is Some,
            r is Some ==> r.unwrap()@ == spec_merge_transparent(self@, other@).unwrap()
                && r.unwrap().wf(),
    {
        let ghost av = self@;
        let ghost bv = other@;
        let in_min: usize = if self.inputs.len() <= other.inputs.len() {
            self.inputs.len()
        } else {
            other.inputs.len()
        };
        let mut inputs: Vec<Input> = Vec::new();
        let mut i: usize = 0;
        while i < in_min
            invariant
                0 <= i <= in_min,
                inputs@.len() == i,
                forall|k: int|
                    0 <= k < i ==> (#[trigger] spec_merge_input(av.inputs[k], bv.inputs[k]))
                        is Some,
                forall|k: int|
                    0 <= k < i ==> (#[trigger] inputs@[k])@ == spec_merge_input(
                        av.inputs[k],
                        bv.inputs[k],
                    ).unwrap(),
                forall|k: int| 0 <= k < i ==> input_wf((#[trigger] inputs@[k])@),
            decreases in_min - i,
        {
            match self.inputs[i].merge_input(&other.inputs[i]) {
                Some(m) => {
                    inputs.push(m);
                },
                None => {
                    proof {
                        assert(spec_merge_input(av.inputs[i as int], bv.inputs[i as int])
                            is None);
                        assert(zip_merge_inputs(av.inputs, bv.inputs) is None);
                    }
                    return None;
                },
            }
            i += 1;
        }
        if self.inputs.len() > in_min {
            let n: usize = self.inputs.len();
            let mut k: usize = in_min;
            while k < n
                invariant
                    in_min <= k <= n,
                    inputs@.len() == k,
                    forall|x: int|
                        0 <= x < in_min ==> (#[trigger] inputs@[x])@ == spec_merge_input(
                            av.inputs[x],
                            bv.inputs[x],
                        ).unwrap(),
                    forall|x: int| in_min <= x < k ==> (#[trigger] inputs@[x])@ == av.inputs[x],
                    forall|x: int| 0 <= x < k ==> input_wf((#[trigger] inputs@[x])@),
                decreases n - k,
            {
                proof {
                    assert(av.inputs[k as int] == self.inputs@[k as int]@);
                }
                inputs.push(self.inputs[k].clone_input());
                k += 1;
            }
        } else if other.inputs.len() > in_min {
            let n: usize = other.inputs.len();
            let mut k: usize = in_min;
            while k < n
                invariant
                    in_min <= k <= n,
                    inputs@.len() == k,
                    forall|x: int|
                        0 <= x < in_min ==> (#[trigger] inputs@[x])@ == spec_merge_input(
                            av.inputs[x],
                            bv.inputs[x],
                        ).unwrap(),
                    forall|x: int| in_min <= x < k ==> (#[trigger] inputs@[x])@ == bv.inputs[x],
                    forall|x: int| 0 <= x < k ==> input_wf((#[trigger] inputs@[x])@),
                decreases n - k,
            {
                proof {
                    assert(bv.inputs[k as int] == other.inputs@[k as int]@);
                }
                inputs.push(other.inputs[k].clone_input());
                k += 1;
            }
        }
        proof {
            assert(seq_view(inputs@) =~= zip_merge_inputs(av.inputs, bv.inputs).unwrap());
        }
        let out_min: usize = if self.outputs.len() <= other.outputs.len() {
            self.outputs.len()
        } else {
            other.outputs.len()
        };
        let mut outputs: Vec<Output> = Vec::new();
        let mut j: usize = 0;
        while j < out_min
            invariant
                0 <= j <= out_min,
                outputs@.len() == j,
                forall|k: int|
                    0 <= k < j ==> (#[trigger] spec_merge_output(av.outputs[k], bv.outputs[k]))
                        is Some,
                forall|k: int|
                    0 <= k < j ==> (#[trigger] outputs@[k])@ == spec_merge_output(
                        av.outputs[k],
                        bv.outputs[k],
                    ).unwrap(),
            decreases out_min - j,
        {
            match self.outputs[j].merge_output(&other.outputs[j]) {
                Some(m) => {
                    outputs.push(m);
                },
                None => {
                    proof {
                        assert(spec_merge_output(av.outputs[j as int], bv.outputs[j as int])
                            is None);
                        assert(zip_merge_outputs(av.outputs, bv.outputs) is None);
                    }
                    return None;
                },
            }
            j += 1;
        }
        if self.outputs.len() > out_min {
            let n: usize = self.outputs.len();
            let mut k: usize = out_min;
            while k < n
                invariant
                    out_min <= k <= n,
                    outputs@.len() == k,
                    forall|x: int|
                        0 <= x < out_min ==> (#[trigger] outputs@[x])@ == spec_merge_output(
                            av.outputs[x],
                            bv.outputs[x],
                        ).unwrap(),
                    forall|x: int| out_min <= x < k ==> (#[trigger] outputs@[x])@ == av.outputs[x],
                decreases n - k,
            {
                outputs.push(self.outputs[k].clone_output());
                k += 1;
            }
        } else if other.outputs.len() > out_min {
            let n: usize = other.outputs.len();
            let mut k: usize = out_min;
            while k < n
                invariant
                    out_min <= k <= n,
                    outputs@.len() == k,
                    forall|x: int|
                        0 <= x < out_min ==> (#[trigger] outputs@[x])@ == spec_merge_output(
                            av.outputs[x],
                            bv.outputs[x],
                        ).unwrap(),
                    forall|x: int| out_min <= x < k ==> (#[trigger] outputs@[x])@ == bv.outputs[x],
                decreases n - k,
            {
                outputs.push(other.outputs[k].clone_output());
                k += 1;
            }
        }
        proof {
            assert(seq_view(outputs@) =~= zip_merge_outputs(av.outputs, bv.outputs).unwrap());
        }
        Some(Bundle { inputs, outputs })
    }
}


/// Failures while reducing a transparent bundle to its final authorized
/// form.
#[derive(Debug, PartialEq, Eq, Structural)]
pub enum Error {
    /// An output's value exceeds the largest representable amount.
    InvalidValue,
    /// An input's script witness was never assembled.
    MissingScriptSig,
}

} // verus!

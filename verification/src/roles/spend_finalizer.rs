//! The Spend Finalizer role: assembles the script witnesses of transparent
//! inputs out of their collected partial signatures.

use vstd::pervasive::VecAdditionalExecFns;
use vstd::prelude::*;

use crate::{transparent, Pczt, PcztV};

verus! {

/// Assembles transparent script witnesses.
pub struct SpendFinalizer {
    pub pczt: Pczt,
}

/// Failures while finalizing a transparent input.
#[derive(Debug, PartialEq, Eq, Structural)]
pub enum Error {
    /// No record exists at the given position.
    IndexOutOfRange,
    /// A witness component is too long for a script push operation.
    ComponentTooLong,
}

/// The script encoding of one pushed witness component: a one-byte length
/// for short data, or an explicit one- or two-byte push operation.
pub open spec fn push_encoding(c: Seq<u8>) -> Seq<u8> {
    if c.len() < 0x4c {
        seq![c.len() as u8] + c
    } else if c.len() <= 0xff {
        seq![0x4cu8, c.len() as u8] + c
    } else {
        seq![0x4du8, (c.len() % 256) as u8, ((c.len() / 256) % 256) as u8] + c
    }
}

/// The script witness assembled from a sequence of components, each pushed
/// in order.
pub open spec fn script_sig_of(cs: Seq<Seq<u8>>) -> Seq<u8>
    decreases cs.len(),
{
    if cs.len() == 0 {
        Seq::empty()
    } else {
        script_sig_of(cs.drop_last()) + push_encoding(cs.last())
    }
}

/// Whether every component fits a script push operation.
pub open spec fn components_fit(cs: Seq<Seq<u8>>) -> bool {
    forall|i: int| 0 <= i < cs.len() ==> (#[trigger] cs[i]).len() <= 0xffff
}

/// The abstract value of a component list.
pub open spec fn components_view(cs: Seq<Vec<u8>>) -> Seq<Seq<u8>> {
    Seq::new(cs.len(), |i: int| cs[i]@)
}

/// Assembles a script witness by pushing each component in order. Fails when
/// a component is too long for a push operation.
#[verifier::loop_isolation(false)]
pub fn assemble_script_sig(components: &Vec<Vec<u8>>) -> (r: Result<Vec<u8>, Error>)
    ensures
        r is Ok <==> components_fit(components_view(components@)),
        r is Ok ==> r.unwrap()@ == script_sig_of(components_view(components@)),
        r is Err ==> r == Err::<Vec<u8>, Error>(Error::ComponentTooLong),
{
    let ghost cs = components_view(components@);
    let mut out: Vec<u8> = Vec::new();
    let n: usize = components.len();
    let mut i: usize = 0;
    proof {
        assert(cs.take(0) =~= Seq::<Seq<u8>>::empty());
        assert(out@ =~= script_sig_of(cs.take(0)));
    }
    while i < n
        invariant
            0 <= i <= n,
            out@ == script_sig_of(cs.take(i as int)),
            forall|k: int| 0 <= k < i ==> (#[trigger] cs[k]).len() <= 0xffff,
        decreases n - i,
    {
        let c = &components[i];
        let len: usize = c.len();
        if len > 0xffff {
            proof {
                assert(cs[i as int] == c@);
                assert(cs[i as int].len() > 0xffff);
                assert(!components_fit(cs));
            }
            return Err(Error::ComponentTooLong);
        }
        if len < 0x4c {
            out.push(len as u8);
        } else if len <= 0xff {
            out.push(0x4cu8);
            out.push(len as u8);
        } else {
            out.push(0x4du8);
            out.push((len % 256) as u8);
            out.push(((len / 256) % 256) as u8);
        }
        let mut j: usize = 0;
        let ghost mid = out@;
        while j < len
            invariant
                0 <= j <= len,
                len == c@.len(),
                out@ == mid + c@.take(j as int),
            decreases len - j,
        {
            out.push(c[j]);
            proof {
                assert(out@ =~= mid + c@.take(j as int + 1));
            }
            j += 1;
        }
        proof {
            assert(c@.take(len as int) =~= c@);
            assert(cs.take(i as int + 1).drop_last() =~= cs.take(i as int));
            assert(cs.take(i as int + 1).last() == cs[i as int]);
            assert(out@ =~= script_sig_of(cs.take(i as int + 1)));
        }
        i += 1;
    }
    proof {
        assert(cs.take(n as int) =~= cs);
    }
    Ok(out)
}

/// Everything except the transparent input list is untouched.
pub open spec fn inputs_context_unchanged(a: PcztV, b: PcztV) -> bool {
    a.global == b.global && a.sapling == b.sapling && a.orchard == b.orchard
        && a.transparent.outputs == b.transparent.outputs
}

impl SpendFinalizer {
    /// Takes custody of a document for spend finalization.
    pub fn new(pczt: Pczt) -> (r: SpendFinalizer)
        ensures
            r.pczt == pczt,
    {
        SpendFinalizer { pczt }
    }

    /// Releases the document with the assembled witnesses in place.
    pub fn finish(self) -> (r: Pczt)
        ensures
            r == self.pczt,
    {
        self.pczt
    }

    /// Assembles the witness for the transparent input at `index` out of the
    /// given components and stores it in the input's `script_sig`.
    pub fn finalize_input(&mut self, index: usize, components: &Vec<Vec<u8>>) -> (r: Result<
        (),
        Error,
    >)
        requires
            old(self).pczt.wf(),
        ensures
            final(self).pczt.wf(),
            r is Err ==> final(self).pczt@ == old(self).pczt@,
            r == Err::<(), Error>(Error::IndexOutOfRange) <==> index >= old(self).pczt@.transparent.inputs.len(),
            r == Err::<(), Error>(Error::ComponentTooLong) <==> (index < old(self).pczt@.transparent.inputs.len() && !components_fit(components_view(components@))),
            r is Ok <==> (index < old(self).pczt@.transparent.inputs.len() && components_fit(
                components_view(components@),
            )),
            r is Ok ==> (inputs_context_unchanged(final(self).pczt@, old(self).pczt@) && final(self).pczt@.transparent.inputs == old(self).pczt@.transparent.inputs.update(
                index as int,
                (transparent::InputV {
                    script_sig: Some(script_sig_of(components_view(components@))),
                    ..old(self).pczt@.transparent.inputs[index as int]
                }),
            )),
    {
        if index >= self.pczt.transparent.inputs.len() {
            return Err(Error::IndexOutOfRange);
        }
        let assembled = match assemble_script_sig(components) {
            Ok(v) => v,
            Err(e) => {
                return Err(e);
            },
        };
        let mut rec = self.pczt.transparent.inputs[index].clone_input();
        rec.script_sig = Some(assembled);
        self.pczt.transparent.inputs.set(index, rec);
        proof {
            assert(self.pczt@.transparent.inputs =~= old(self).pczt@.transparent.inputs.update(
                index as int,
                (transparent::InputV {
                    script_sig: Some(script_sig_of(components_view(components@))),
                    ..old(self).pczt@.transparent.inputs[index as int]
                }),
            ));
            assert(self.pczt@.transparent.outputs =~= old(self).pczt@.transparent.outputs);
        }
        Ok(())
    }
}

} // verus!

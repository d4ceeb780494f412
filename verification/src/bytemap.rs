//! A canonical map from byte strings to byte strings.
//!
//! Entries are kept strictly sorted by key, so two maps hold the same
//! key-value pairs exactly when they are structurally equal. The document
//! model uses this type for every proprietary, partial-signature and
//! hash-preimage table, and the merge engine reconciles two maps by key-wise
//! union with a conflict whenever both sides bind the same key to different
//! values.

use vstd::pervasive::VecAdditionalExecFns;
use vstd::prelude::*;

use crate::bytes::{bytes_eq, clone_bytes, lemma_lex_trans, lemma_lex_trichotomy, lex_less, lex_lt};

verus! {

/// A map from byte strings to byte strings with strictly increasing keys.
#[derive(Clone)]
pub struct ByteMap {
    pub entries: Vec<(Vec<u8>, Vec<u8>)>,
}

/// The abstract value of an entry list.
pub open spec fn entries_view(s: Seq<(Vec<u8>, Vec<u8>)>) -> Seq<(Seq<u8>, Seq<u8>)> {
    Seq::new(s.len(), |i: int| (s[i].0@, s[i].1@))
}

impl View for ByteMap {
    type V = Seq<(Seq<u8>, Seq<u8>)>;

    open spec fn view(&self) -> Seq<(Seq<u8>, Seq<u8>)> {
        entries_view(self.entries@)
    }
}

/// Keys are strictly increasing, so each key occurs at most once.
pub open spec fn map_wf(m: Seq<(Seq<u8>, Seq<u8>)>) -> bool {
    forall|i: int, j: int| 0 <= i < j < m.len() ==> lex_lt(#[trigger] m[i].0, #[trigger] m[j].0)
}

/// Two maps are reconcilable when every key they share is bound to the same
/// value on both sides.
pub open spec fn map_compat(a: Seq<(Seq<u8>, Seq<u8>)>, b: Seq<(Seq<u8>, Seq<u8>)>) -> bool {
    forall|i: int, j: int|
        0 <= i < a.len() && 0 <= j < b.len() && (#[trigger] a[i]).0 == (#[trigger] b[j]).0
            ==> a[i].1 == b[j].1
}

/// The key-wise union of two sorted entry lists, favouring the left entry
/// when both sides bind the same key.
pub open spec fn map_union(
    a: Seq<(Seq<u8>, Seq<u8>)>,
    b: Seq<(Seq<u8>, Seq<u8>)>,
) -> Seq<(Seq<u8>, Seq<u8>)>
    decreases a.len() + b.len(),
{
    if a.len() == 0 {
        b
    } else if b.len() == 0 {
        a
    } else if lex_lt(a[0].0, b[0].0) {
        seq![a[0]] + map_union(a.skip(1), b)
    } else if lex_lt(b[0].0, a[0].0) {
        seq![b[0]] + map_union(a, b.skip(1))
    } else {
        seq![a[0]] + map_union(a.skip(1), b.skip(1))
    }
}

/// Looks a key up in an entry list.
pub open spec fn map_has_key(m: Seq<(Seq<u8>, Seq<u8>)>, k: Seq<u8>) -> bool {
    exists|i: int| 0 <= i < m.len() && (#[trigger] m[i]).0 == k
}

impl ByteMap {
    /// The well-formedness of this map: strictly sorted keys.
    pub open spec fn wf(&self) -> bool {
        map_wf(self@)
    }

    /// Creates an empty map.
    pub fn new() -> (r: ByteMap)
        ensures
            r@ == Seq::<(Seq<u8>, Seq<u8>)>::empty(),
            r.wf(),
    {
        let r = ByteMap { entries: Vec::new() };
        proof {
            assert(r@ =~= Seq::<(Seq<u8>, Seq<u8>)>::empty());
        }
        r
    }

    /// The number of entries.
    pub fn len(&self) -> (r: usize)
        ensures
            r == self@.len(),
    {
        self.entries.len()
    }

    /// Whether the map holds no entry.
    pub fn is_empty(&self) -> (r: bool)
        ensures
            r == (self@.len() == 0),
    {
        self.entries.len() == 0
    }

    /// Copies this map.
    pub fn clone_map(&self) -> (r: ByteMap)
        ensures
            r@ == self@,
    {
        let mut out: Vec<(Vec<u8>, Vec<u8>)> = Vec::new();
        let n: usize = self.entries.len();
        let mut i: usize = 0;
        while i < n
            invariant
                n == self.entries@.len(),
                0 <= i <= n,
                out@.len() == i,
                forall|k: int|
                    0 <= k < i ==> (#[trigger] out@[k]).0@ == self.entries@[k].0@ && out@[k].1@
                        == self.entries@[k].1@,
            decreases n - i,
        {
            let k = clone_bytes(&self.entries[i].0);
            let v = clone_bytes(&self.entries[i].1);
            out.push((k, v));
            i += 1;
        }
        let r = ByteMap { entries: out };
        proof {
            assert(r@ =~= self@);
        }
        r
    }

    /// Returns the value bound to `key`, if any.
    pub fn get(&self, key: &Vec<u8>) -> (r: Option<&Vec<u8>>)
        ensures
            r is Some <==> map_has_key(self@, key@),
            r is Some ==> exists|i: int|
                0 <= i < self@.len() && (#[trigger] self@[i]).0 == key@ && self@[i].1
                    == r.unwrap()@,
    {
        let n: usize = self.entries.len();
        let mut i: usize = 0;
        while i < n
            invariant
                n == self@.len(),
                n == self.entries@.len(),
                0 <= i <= n,
                forall|k: int| 0 <= k < i ==> (#[trigger] self@[k]).0 != key@,
            decreases n - i,
        {
            if bytes_eq(&self.entries[i].0, key) {
                assert(self@[i as int].0 == key@);
                return Some(&self.entries[i].1);
            }
            i += 1;
        }
        None
    }

    /// Binds `key` to `value`, replacing any previous binding.
    #[verifier::loop_isolation(false)]
    pub fn set_entry(&mut self, key: Vec<u8>, value: Vec<u8>)
        requires
            old(self).wf(),
        ensures
            final(self).wf(),
            final(self)@ == map_set(old(self)@, key@, value@),
    {
        let ghost m0 = self@;
        let n: usize = self.entries.len();
        let mut i: usize = 0;
        while i < n
            invariant
                n == self@.len(),
                n == self.entries@.len(),
                0 <= i <= n,
                self@ == m0,
                self.wf(),
                forall|k: int| 0 <= k < i ==> lex_lt((#[trigger] m0[k]).0, key@),
            decreases n - i,
        {
            if bytes_eq(&self.entries[i].0, &key) {
                let ghost ii = i as int;
                proof {
                    assert(m0[ii].0 == key@);
                    reveal_map_set_at(m0, key@, value@, ii);
                    assert(map_set(m0, key@, value@) == m0.update(ii, (key@, value@)));
                }
                let k2 = clone_bytes(&self.entries[i].0);
                self.entries.set(i, (k2, value));
                proof {
                    assert(self@ =~= m0.update(ii, (key@, value@)));
                    assert(map_wf(self@)) by {
                        assert forall|x: int, y: int| 0 <= x < y < self@.len() implies lex_lt(
                            (#[trigger] self@[x]).0,
                            (#[trigger] self@[y]).0,
                        ) by {
                            assert(self@[x].0 == m0[x].0 && self@[y].0 == m0[y].0);
                        }
                    }
                }
                return;
            }
            if lex_less(&key, &self.entries[i].0) {
                let ghost ii = i as int;
                proof {
                    lemma_lex_trichotomy(key@, m0[ii].0);
                    lemma_set_inserts(m0, key@, value@, ii);
                }
                self.entries.insert(i, (key, value));
                proof {
                    assert(self@ =~= m0.take(ii) + seq![(key@, value@)] + m0.skip(ii));
                }
                return;
            }
            proof {
                lemma_lex_trichotomy(m0[i as int].0, key@);
            }
            i += 1;
        }
        let ghost ii = i as int;
        proof {
            lemma_set_inserts(m0, key@, value@, ii);
        }
        self.entries.push((key, value));
        proof {
            assert(self@ =~= m0.take(ii) + seq![(key@, value@)] + m0.skip(ii));
        }
    }

    /// Reconciles this map with another by key-wise union; reports a conflict
    /// (`None`) exactly when the two maps bind some key to different values.
    #[verifier::loop_isolation(false)]
    pub fn merged_with(&self, other: &ByteMap) -> (r: Option<ByteMap>)
        requires
            self.wf(),
            other.wf(),
        ensures
            r is Some <==> map_compat(self@, other@),
            r is Some ==> r.unwrap()@ == map_union(self@, other@) && r.unwrap().wf(),
    {
        let a = &self.entries;
        let b = &other.entries;
        let an: usize = a.len();
        let bn: usize = b.len();
        let ghost av = self@;
        let ghost bv = other@;
        let mut out: Vec<(Vec<u8>, Vec<u8>)> = Vec::new();
        let mut i: usize = 0;
        let mut j: usize = 0;
        proof {
            assert(av.skip(0) =~= av);
            assert(bv.skip(0) =~= bv);
            assert(entries_view(out@) + map_union(av, bv) =~= map_union(av, bv));
        }
        while i < an && j < bn
            invariant
                an == av.len() == a@.len(),
                bn == bv.len() == b@.len(),
                av == entries_view(a@),
                bv == entries_view(b@),
                map_wf(av),
                map_wf(bv),
                0 <= i <= an,
                0 <= j <= bn,
                entries_view(out@) + map_union(av.skip(i as int), bv.skip(j as int)) == map_union(
                    av,
                    bv,
                ),
                map_compat(av, bv) <==> map_compat(av.skip(i as int), bv.skip(j as int)),
            decreases an - i + bn - j,
        {
            let ghost ii = i as int;
            let ghost jj = j as int;
            let ghost ra = av.skip(ii);
            let ghost rb = bv.skip(jj);
            proof {
                assert(ra[0] == av[ii]);
                assert(rb[0] == bv[jj]);
                lemma_lex_trichotomy(av[ii].0, bv[jj].0);
            }
            if bytes_eq(&a[i].0, &b[j].0) {
                if !bytes_eq(&a[i].1, &b[j].1) {
                    proof {
                        assert(av[ii].0 == a@[ii].0@ && av[ii].1 == a@[ii].1@);
                        assert(bv[jj].0 == b@[jj].0@ && bv[jj].1 == b@[jj].1@);
                        assert(ra[0].0 == rb[0].0 && ra[0].1 != rb[0].1);
                        assert(!map_compat(ra, rb));
                        assert(!map_compat(av, bv));
                    }
                    return None;
                }
                out.push((clone_bytes(&a[i].0), clone_bytes(&a[i].1)));
                proof {
                    lemma_merge_step_equal(av, bv, ii, jj);
                    assert(entries_view(out@) =~= entries_view(out@.take(out@.len() - 1)) + seq![
                        (av[ii].0, av[ii].1),
                    ]);
                    assert(av[ii] == (av[ii].0, av[ii].1));
                    assert(entries_view(out@) + map_union(av.skip(ii + 1), bv.skip(jj + 1))
                        =~= map_union(av, bv));
                }
                i += 1;
                j += 1;
            } else if lex_less(&a[i].0, &b[j].0) {
                out.push((clone_bytes(&a[i].0), clone_bytes(&a[i].1)));
                proof {
                    lemma_merge_step_left(av, bv, ii, jj);
                    assert(entries_view(out@) =~= entries_view(out@.take(out@.len() - 1)) + seq![
                        (av[ii].0, av[ii].1),
                    ]);
                    assert(av[ii] == (av[ii].0, av[ii].1));
                    assert(entries_view(out@) + map_union(av.skip(ii + 1), bv.skip(jj))
                        =~= map_union(av, bv));
                }
                i += 1;
            } else {
                out.push((clone_bytes(&b[j].0), clone_bytes(&b[j].1)));
                proof {
                    lemma_merge_step_right(av, bv, ii, jj);
                    assert(entries_view(out@) =~= entries_view(out@.take(out@.len() - 1)) + seq![
                        (bv[jj].0, bv[jj].1),
                    ]);
                    assert(bv[jj] == (bv[jj].0, bv[jj].1));
                    assert(entries_view(out@) + map_union(av.skip(ii), bv.skip(jj + 1))
                        =~= map_union(av, bv));
                }
                j += 1;
            }
        }
        while i < an
            invariant
                an == av.len() == a@.len(),
                bn == bv.len(),
                av == entries_view(a@),
                map_wf(av),
                map_wf(bv),
                0 <= i <= an,
                0 <= j <= bn,
                i < an ==> j == bn,
                entries_view(out@) + map_union(av.skip(i as int), bv.skip(j as int)) == map_union(
                    av,
                    bv,
                ),
                map_compat(av, bv) <==> map_compat(av.skip(i as int), bv.skip(j as int)),
            decreases an - i,
        {
            let ghost ii = i as int;
            out.push((clone_bytes(&a[i].0), clone_bytes(&a[i].1)));
            proof {
                lemma_union_right_empty(av.skip(ii), bv.skip(bn as int));
                lemma_union_right_empty(av.skip(ii + 1), bv.skip(bn as int));
                assert(av.skip(ii) =~= seq![av[ii]] + av.skip(ii + 1));
                assert(entries_view(out@) =~= entries_view(out@.take(out@.len() - 1)) + seq![
                    (av[ii].0, av[ii].1),
                ]);
                assert(av[ii] == (av[ii].0, av[ii].1));
                assert(entries_view(out@) + map_union(av.skip(ii + 1), bv.skip(bn as int))
                    =~= map_union(av, bv));
                assert(map_compat(av.skip(ii), bv.skip(bn as int)));
                assert(map_compat(av.skip(ii + 1), bv.skip(bn as int)));
            }
            i += 1;
        }
        while j < bn
            invariant
                an == av.len(),
                bn == bv.len() == b@.len(),
                bv == entries_view(b@),
                map_wf(av),
                map_wf(bv),
                i == an,
                0 <= j <= bn,
                entries_view(out@) + map_union(av.skip(i as int), bv.skip(j as int)) == map_union(
                    av,
                    bv,
                ),
                map_compat(av, bv) <==> map_compat(av.skip(i as int), bv.skip(j as int)),
            decreases bn - j,
        {
            let ghost jj = j as int;
            out.push((clone_bytes(&b[j].0), clone_bytes(&b[j].1)));
            proof {
                lemma_union_left_empty(av.skip(an as int), bv.skip(jj));
                lemma_union_left_empty(av.skip(an as int), bv.skip(jj + 1));
                assert(bv.skip(jj) =~= seq![bv[jj]] + bv.skip(jj + 1));
                assert(entries_view(out@) =~= entries_view(out@.take(out@.len() - 1)) + seq![
                    (bv[jj].0, bv[jj].1),
                ]);
                assert(bv[jj] == (bv[jj].0, bv[jj].1));
                assert(entries_view(out@) + map_union(av.skip(an as int), bv.skip(jj + 1))
                    =~= map_union(av, bv));
                assert(map_compat(av.skip(an as int), bv.skip(jj)));
                assert(map_compat(av.skip(an as int), bv.skip(jj + 1)));
            }
            j += 1;
        }
        proof {
            lemma_union_left_empty(av.skip(an as int), bv.skip(bn as int));
            assert(entries_view(out@) + bv.skip(bn as int) =~= entries_view(out@));
            assert(map_compat(av.skip(an as int), bv.skip(bn as int)));
            lemma_union_wf(av, bv);
        }
        Some(ByteMap { entries: out })
    }
}

/// The abstract effect of `set_entry`: replace in place, or insert at the
/// sorted position.
pub open spec fn map_set(
    m: Seq<(Seq<u8>, Seq<u8>)>,
    k: Seq<u8>,
    v: Seq<u8>,
) -> Seq<(Seq<u8>, Seq<u8>)> {
    let i = first_ge(m, k);
    if i < m.len() && m[i].0 == k {
        m.update(i, (k, v))
    } else {
        m.take(i) + seq![(k, v)] + m.skip(i)
    }
}

/// The index of the first key not below `k` in a sorted entry list.
pub open spec fn first_ge(m: Seq<(Seq<u8>, Seq<u8>)>, k: Seq<u8>) -> int
    decreases m.len(),
{
    if m.len() == 0 {
        0
    } else if lex_lt(m[0].0, k) {
        1 + first_ge(m.skip(1), k)
    } else {
        0
    }
}

proof fn reveal_map_set_at(m: Seq<(Seq<u8>, Seq<u8>)>, k: Seq<u8>, v: Seq<u8>, i: int)
    requires
        map_wf(m),
        0 <= i < m.len(),
        m[i].0 == k,
        forall|x: int| 0 <= x < i ==> lex_lt((#[trigger] m[x]).0, k),
    ensures
        map_set(m, k, v) == m.update(i, (k, v)),
{
    lemma_lex_trichotomy(m[i].0, k);
    lemma_first_ge(m, k, i);
}

proof fn lemma_set_inserts(m: Seq<(Seq<u8>, Seq<u8>)>, k: Seq<u8>, v: Seq<u8>, i: int)
    requires
        map_wf(m),
        0 <= i <= m.len(),
        forall|x: int| 0 <= x < i ==> lex_lt((#[trigger] m[x]).0, k),
        i < m.len() ==> lex_lt(k, m[i].0),
    ensures
        map_set(m, k, v) == m.take(i) + seq![(k, v)] + m.skip(i),
        map_wf(m.take(i) + seq![(k, v)] + m.skip(i)),
{
    assert forall|x: int| 0 <= x < m.len() implies (#[trigger] m[x]).0 != k by {
        if x < i {
            lemma_lex_trichotomy(m[x].0, k);
        } else {
            if x > i {
                lemma_lex_trans(k, m[i as int].0, m[x].0);
            }
            lemma_lex_trichotomy(k, m[x].0);
        }
    }
    if i < m.len() {
        lemma_lex_trichotomy(k, m[i as int].0);
    }
    lemma_first_ge(m, k, i);
    let r = m.take(i) + seq![(k, v)] + m.skip(i);
    assert(map_wf(r)) by {
        assert forall|x: int, y: int| 0 <= x < y < r.len() implies lex_lt(
            (#[trigger] r[x]).0,
            (#[trigger] r[y]).0,
        ) by {
            if y < i {
            } else if x < i && y == i {
            } else if x < i && y > i {
                assert(r[x] == m[x] && r[y] == m[y - 1]);
                if i < y - 1 {
                    lemma_lex_trans(k, m[i as int].0, m[y - 1].0);
                }
                lemma_lex_trans(m[x].0, k, m[y - 1].0);
            } else if x == i && y > i {
                assert(r[y] == m[y - 1]);
                if i < y - 1 {
                    lemma_lex_trans(k, m[i as int].0, m[y - 1].0);
                }
            } else {
                assert(r[x] == m[x - 1] && r[y] == m[y - 1]);
            }
        }
    }
}

proof fn lemma_first_ge(m: Seq<(Seq<u8>, Seq<u8>)>, k: Seq<u8>, i: int)
    requires
        0 <= i <= m.len(),
        forall|x: int| 0 <= x < i ==> lex_lt((#[trigger] m[x]).0, k),
        i < m.len() ==> !lex_lt(m[i].0, k),
    ensures
        first_ge(m, k) == i,
    decreases m.len(),
{
    if m.len() == 0 {
    } else if i == 0 {
    } else {
        let m1 = m.skip(1);
        assert forall|x: int| 0 <= x < i - 1 implies lex_lt((#[trigger] m1[x]).0, k) by {
            assert(m1[x] == m[x + 1]);
        }
        if i - 1 < m1.len() {
            assert(m1[i - 1] == m[i as int]);
        }
        lemma_first_ge(m1, k, i - 1);
    }
}

/// Reconciling two sorted halves consumes equal head keys together.
proof fn lemma_merge_step_equal(
    av: Seq<(Seq<u8>, Seq<u8>)>,
    bv: Seq<(Seq<u8>, Seq<u8>)>,
    i: int,
    j: int,
)
    requires
        map_wf(av),
        map_wf(bv),
        0 <= i < av.len(),
        0 <= j < bv.len(),
        av[i].0 == bv[j].0,
        av[i].1 == bv[j].1,
    ensures
        map_union(av.skip(i), bv.skip(j)) == seq![av[i]] + map_union(
            av.skip(i + 1),
            bv.skip(j + 1),
        ),
        map_compat(av.skip(i), bv.skip(j)) <==> map_compat(av.skip(i + 1), bv.skip(j + 1)),
{
    let ra = av.skip(i);
    let rb = bv.skip(j);
    assert(ra[0] == av[i]);
    assert(rb[0] == bv[j]);
    lemma_lex_trichotomy(ra[0].0, rb[0].0);
    assert(ra.skip(1) =~= av.skip(i + 1));
    assert(rb.skip(1) =~= bv.skip(j + 1));
    if map_compat(av.skip(i + 1), bv.skip(j + 1)) {
        assert forall|x: int, y: int|
            0 <= x < ra.len() && 0 <= y < rb.len() && (#[trigger] ra[x]).0 == (
            #[trigger] rb[y]).0 implies ra[x].1 == rb[y].1 by {
            if x == 0 && y == 0 {
            } else if x == 0 && y > 0 {
                assert(rb[y] == bv[j + y]);
                assert(lex_lt(bv[j].0, bv[j + y].0));
                lemma_lex_trichotomy(bv[j].0, bv[j + y].0);
            } else if x > 0 && y == 0 {
                assert(ra[x] == av[i + x]);
                assert(lex_lt(av[i].0, av[i + x].0));
                lemma_lex_trichotomy(av[i].0, av[i + x].0);
            } else {
                assert(ra[x] == av.skip(i + 1)[x - 1]);
                assert(rb[y] == bv.skip(j + 1)[y - 1]);
            }
        }
    }
    if map_compat(ra, rb) {
        assert forall|x: int, y: int|
            0 <= x < av.skip(i + 1).len() && 0 <= y < bv.skip(j + 1).len() && (#[trigger] av.skip(
                i + 1,
            )[x]).0 == (#[trigger] bv.skip(j + 1)[y]).0 implies av.skip(i + 1)[x].1 == bv.skip(
            j + 1,
        )[y].1 by {
            assert(av.skip(i + 1)[x] == ra[x + 1]);
            assert(bv.skip(j + 1)[y] == rb[y + 1]);
        }
    }
}

/// Reconciling two sorted halves consumes a strictly smaller left head alone.
proof fn lemma_merge_step_left(
    av: Seq<(Seq<u8>, Seq<u8>)>,
    bv: Seq<(Seq<u8>, Seq<u8>)>,
    i: int,
    j: int,
)
    requires
        map_wf(av),
        map_wf(bv),
        0 <= i < av.len(),
        0 <= j < bv.len(),
        lex_lt(av[i].0, bv[j].0),
    ensures
        map_union(av.skip(i), bv.skip(j)) == seq![av[i]] + map_union(av.skip(i + 1), bv.skip(j)),
        map_compat(av.skip(i), bv.skip(j)) <==> map_compat(av.skip(i + 1), bv.skip(j)),
{
    let ra = av.skip(i);
    let rb = bv.skip(j);
    assert(ra[0] == av[i]);
    assert(rb[0] == bv[j]);
    assert(ra.skip(1) =~= av.skip(i + 1));
    if map_compat(av.skip(i + 1), bv.skip(j)) {
        assert forall|x: int, y: int|
            0 <= x < ra.len() && 0 <= y < rb.len() && (#[trigger] ra[x]).0 == (
            #[trigger] rb[y]).0 implies ra[x].1 == rb[y].1 by {
            if x == 0 {
                assert(rb[y] == bv[j + y]);
                if y > 0 {
                    assert(lex_lt(bv[j].0, bv[j + y].0));
                    lemma_lex_trans(av[i].0, bv[j].0, bv[j + y].0);
                }
                lemma_lex_trichotomy(av[i].0, bv[j + y].0);
            } else {
                assert(ra[x] == av.skip(i + 1)[x - 1]);
            }
        }
    }
    if map_compat(ra, rb) {
        assert forall|x: int, y: int|
            0 <= x < av.skip(i + 1).len() && 0 <= y < rb.len() && (#[trigger] av.skip(i + 1)[x]).0
                == (#[trigger] rb[y]).0 implies av.skip(i + 1)[x].1 == rb[y].1 by {
            assert(av.skip(i + 1)[x] == ra[x + 1]);
        }
    }
}

/// Reconciling two sorted halves consumes a strictly smaller right head alone.
proof fn lemma_merge_step_right(
    av: Seq<(Seq<u8>, Seq<u8>)>,
    bv: Seq<(Seq<u8>, Seq<u8>)>,
    i: int,
    j: int,
)
    requires
        map_wf(av),
        map_wf(bv),
        0 <= i < av.len(),
        0 <= j < bv.len(),
        lex_lt(bv[j].0, av[i].0),
    ensures
        map_union(av.skip(i), bv.skip(j)) == seq![bv[j]] + map_union(av.skip(i), bv.skip(j + 1)),
        map_compat(av.skip(i), bv.skip(j)) <==> map_compat(av.skip(i), bv.skip(j + 1)),
{
    let ra = av.skip(i);
    let rb = bv.skip(j);
    assert(ra[0] == av[i]);
    assert(rb[0] == bv[j]);
    lemma_lex_trichotomy(av[i].0, bv[j].0);
    assert(rb.skip(1) =~= bv.skip(j + 1));
    if map_compat(av.skip(i), bv.skip(j + 1)) {
        assert forall|x: int, y: int|
            0 <= x < ra.len() && 0 <= y < rb.len() && (#[trigger] ra[x]).0 == (
            #[trigger] rb[y]).0 implies ra[x].1 == rb[y].1 by {
            if y == 0 {
                assert(ra[x] == av[i + x]);
                if x > 0 {
                    assert(lex_lt(av[i].0, av[i + x].0));
                    lemma_lex_trans(bv[j].0, av[i].0, av[i + x].0);
                }
                lemma_lex_trichotomy(bv[j].0, av[i + x].0);
            } else {
                assert(rb[y] == bv.skip(j + 1)[y - 1]);
            }
        }
    }
    if map_compat(ra, rb) {
        assert forall|x: int, y: int|
            0 <= x < ra.len() && 0 <= y < bv.skip(j + 1).len() && (#[trigger] ra[x]).0 == (
            #[trigger] bv.skip(j + 1)[y]).0 implies ra[x].1 == bv.skip(j + 1)[y].1 by {
            assert(bv.skip(j + 1)[y] == rb[y + 1]);
        }
    }
}

proof fn lemma_union_right_empty(a: Seq<(Seq<u8>, Seq<u8>)>, b: Seq<(Seq<u8>, Seq<u8>)>)
    requires
        b.len() == 0,
    ensures
        map_union(a, b) == a,
{
    if a.len() == 0 {
        assert(map_union(a, b) =~= a);
    }
}

proof fn lemma_union_left_empty(a: Seq<(Seq<u8>, Seq<u8>)>, b: Seq<(Seq<u8>, Seq<u8>)>)
    requires
        a.len() == 0,
    ensures
        map_union(a, b) == b,
{
}

/// Every entry of a union comes from one of its two sides, and the union of
/// well-formed maps is well-formed.
pub proof fn lemma_union_wf(a: Seq<(Seq<u8>, Seq<u8>)>, b: Seq<(Seq<u8>, Seq<u8>)>)
    requires
        map_wf(a),
        map_wf(b),
    ensures
        map_wf(map_union(a, b)),
        forall|x: int|
            0 <= x < map_union(a, b).len() ==> map_has_key(a, (#[trigger] map_union(a, b)[x]).0)
                || map_has_key(b, map_union(a, b)[x].0),
    decreases a.len() + b.len(),
{
    let u = map_union(a, b);
    if a.len() == 0 {
        assert forall|x: int| 0 <= x < u.len() implies map_has_key(b, (#[trigger] u[x]).0) by {
            assert(u[x] == b[x]);
        }
    } else if b.len() == 0 {
        assert forall|x: int| 0 <= x < u.len() implies map_has_key(a, (#[trigger] u[x]).0) by {
            assert(u[x] == a[x]);
        }
    } else {
        let a1 = a.skip(1);
        let b1 = b.skip(1);
        assert(map_wf(a1)) by {
            assert forall|x: int, y: int| 0 <= x < y < a1.len() implies lex_lt(
                (#[trigger] a1[x]).0,
                (#[trigger] a1[y]).0,
            ) by {
                assert(a1[x] == a[x + 1] && a1[y] == a[y + 1]);
            }
        }
        assert(map_wf(b1)) by {
            assert forall|x: int, y: int| 0 <= x < y < b1.len() implies lex_lt(
                (#[trigger] b1[x]).0,
                (#[trigger] b1[y]).0,
            ) by {
                assert(b1[x] == b[x + 1] && b1[y] == b[y + 1]);
            }
        }
        lemma_lex_trichotomy(a[0].0, b[0].0);
        assert forall|x: int| 0 <= x < a1.len() implies lex_lt(a[0].0, (#[trigger] a1[x]).0) by {
            assert(a1[x] == a[x + 1]);
        }
        assert forall|x: int| 0 <= x < b1.len() implies lex_lt(b[0].0, (#[trigger] b1[x]).0) by {
            assert(b1[x] == b[x + 1]);
        }
        assert forall|x: int| 0 <= x < a1.len() implies map_has_key(
            a,
            (#[trigger] a1[x]).0,
        ) by {
            assert(a1[x] == a[x + 1]);
            assert(0 <= x + 1 < a.len() && a[x + 1].0 == a1[x].0);
        }
        assert forall|x: int| 0 <= x < b1.len() implies map_has_key(
            b,
            (#[trigger] b1[x]).0,
        ) by {
            assert(b1[x] == b[x + 1]);
            assert(0 <= x + 1 < b.len() && b[x + 1].0 == b1[x].0);
        }
        assert forall|x: int| 0 <= x < a.len() implies map_has_key(a, (#[trigger] a[x]).0) by {
            assert(0 <= x < a.len() && a[x].0 == a[x].0);
        }
        assert forall|x: int| 0 <= x < b.len() implies map_has_key(b, (#[trigger] b[x]).0) by {
            assert(0 <= x < b.len() && b[x].0 == b[x].0);
        }
        if lex_lt(a[0].0, b[0].0) {
            lemma_union_wf(a1, b);
            assert forall|x: int| 0 <= x < b.len() implies lex_lt(
                a[0].0,
                (#[trigger] b[x]).0,
            ) by {
                if x > 0 {
                    lemma_lex_trans(a[0].0, b[0].0, b[x].0);
                }
            }
            lemma_head_below(a, b, a1, b, a[0]);
        } else if lex_lt(b[0].0, a[0].0) {
            lemma_union_wf(a, b1);
            assert forall|x: int| 0 <= x < a.len() implies lex_lt(
                b[0].0,
                (#[trigger] a[x]).0,
            ) by {
                if x > 0 {
                    lemma_lex_trans(b[0].0, a[0].0, a[x].0);
                }
            }
            lemma_head_below(a, b, a, b1, b[0]);
        } else {
            lemma_union_wf(a1, b1);
            assert forall|x: int| 0 <= x < b1.len() implies lex_lt(
                a[0].0,
                (#[trigger] b1[x]).0,
            ) by {
                assert(b1[x] == b[x + 1]);
            }
            lemma_head_below(a, b, a1, b1, a[0]);
        }
    }
}

/// Helper for `lemma_union_wf`: prepending a head strictly below both
/// remainders keeps the union sorted.
proof fn lemma_head_below(
    a: Seq<(Seq<u8>, Seq<u8>)>,
    b: Seq<(Seq<u8>, Seq<u8>)>,
    ra: Seq<(Seq<u8>, Seq<u8>)>,
    rb: Seq<(Seq<u8>, Seq<u8>)>,
    head: (Seq<u8>, Seq<u8>),
)
    requires
        map_wf(a),
        map_wf(b),
        map_wf(map_union(ra, rb)),
        forall|x: int|
            0 <= x < map_union(ra, rb).len() ==> map_has_key(
                ra,
                (#[trigger] map_union(ra, rb)[x]).0,
            ) || map_has_key(rb, map_union(ra, rb)[x].0),
        forall|x: int| 0 <= x < ra.len() ==> lex_lt(head.0, (#[trigger] ra[x]).0),
        forall|x: int| 0 <= x < rb.len() ==> lex_lt(head.0, (#[trigger] rb[x]).0),
        map_union(a, b) == seq![head] + map_union(ra, rb),
        forall|x: int| 0 <= x < ra.len() ==> map_has_key(a, (#[trigger] ra[x]).0),
        forall|x: int| 0 <= x < rb.len() ==> map_has_key(b, (#[trigger] rb[x]).0),
        map_has_key(a, head.0) || map_has_key(b, head.0),
    ensures
        map_wf(map_union(a, b)),
        forall|x: int|
            0 <= x < map_union(a, b).len() ==> map_has_key(a, (#[trigger] map_union(a, b)[x]).0)
                || map_has_key(b, map_union(a, b)[x].0),
{
    let u = map_union(a, b);
    let ru = map_union(ra, rb);
    assert forall|x: int, y: int| 0 <= x < y < u.len() implies lex_lt(
        (#[trigger] u[x]).0,
        (#[trigger] u[y]).0,
    ) by {
        if x == 0 {
            assert(u[y] == ru[y - 1]);
            assert(map_has_key(ra, ru[y - 1].0) || map_has_key(rb, ru[y - 1].0));
        } else {
            assert(u[x] == ru[x - 1] && u[y] == ru[y - 1]);
        }
    }
    assert forall|x: int| 0 <= x < u.len() implies map_has_key(a, (#[trigger] u[x]).0)
        || map_has_key(b, u[x].0) by {
        if x > 0 {
            assert(u[x] == ru[x - 1]);
            assert(map_has_key(ra, ru[x - 1].0) || map_has_key(rb, ru[x - 1].0));
            if map_has_key(ra, ru[x - 1].0) {
                let w = choose|w: int| 0 <= w < ra.len() && (#[trigger] ra[w]).0 == ru[x - 1].0;
                assert(map_has_key(a, ra[w].0));
            } else {
                let w = choose|w: int| 0 <= w < rb.len() && (#[trigger] rb[w]).0 == ru[x - 1].0;
                assert(map_has_key(b, rb[w].0));
            }
        }
    }
}

/// A well-formed map never conflicts with itself.
pub proof fn lemma_map_compat_refl(m: Seq<(Seq<u8>, Seq<u8>)>)
    requires
        map_wf(m),
    ensures
        map_compat(m, m),
{
    assert forall|i: int, j: int|
        0 <= i < m.len() && 0 <= j < m.len() && (#[trigger] m[i]).0 == (
        #[trigger] m[j]).0 implies m[i].1 == m[j].1 by {
        if i < j {
            lemma_lex_trichotomy(m[i].0, m[j].0);
        } else if j < i {
            lemma_lex_trichotomy(m[j].0, m[i].0);
        }
    }
}

/// Reconciling a well-formed map with itself returns it unchanged.
pub proof fn lemma_map_union_refl(m: Seq<(Seq<u8>, Seq<u8>)>)
    requires
        map_wf(m),
    ensures
        map_union(m, m) == m,
    decreases m.len(),
{
    if m.len() == 0 {
    } else {
        lemma_lex_trichotomy(m[0].0, m[0].0);
        let m1 = m.skip(1);
        assert(map_wf(m1)) by {
            assert forall|i: int, j: int| 0 <= i < j < m1.len() implies lex_lt(
                (#[trigger] m1[i]).0,
                (#[trigger] m1[j]).0,
            ) by {
                assert(m1[i] == m[i + 1] && m1[j] == m[j + 1]);
            }
        }
        lemma_map_union_refl(m1);
        assert(map_union(m, m) =~= m);
    }
}

} // verus!

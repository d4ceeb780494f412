//! Byte-string utilities: equality, lexicographic order, and conversions.
//!
//! Every comparison of raw byte data in the document model goes through the
//! verified helpers in this module.

use vstd::prelude::*;

verus! {

/// Lexicographic strict order on byte strings: shorter prefixes come first,
/// otherwise the first differing byte decides.
pub open spec fn lex_lt(a: Seq<u8>, b: Seq<u8>) -> bool
    decreases a.len(),
{
    if a.len() == 0 {
        b.len() > 0
    } else if b.len() == 0 {
        false
    } else if a[0] < b[0] {
        true
    } else if a[0] > b[0] {
        false
    } else {
        lex_lt(a.subrange(1, a.len() as int), b.subrange(1, b.len() as int))
    }
}

/// Exactly one of `lex_lt(a, b)`, `a == b`, `lex_lt(b, a)` holds.
pub proof fn lemma_lex_trichotomy(a: Seq<u8>, b: Seq<u8>)
    ensures
        lex_lt(a, b) ==> !lex_lt(b, a) && a != b,
        !lex_lt(a, b) && !lex_lt(b, a) ==> a == b,
    decreases a.len(),
{
    if a.len() == 0 || b.len() == 0 {
        if !lex_lt(a, b) && !lex_lt(b, a) {
            assert(a =~= b);
        }
    } else if a[0] == b[0] {
        let a1 = a.subrange(1, a.len() as int);
        let b1 = b.subrange(1, b.len() as int);
        lemma_lex_trichotomy(a1, b1);
        if !lex_lt(a, b) && !lex_lt(b, a) {
            assert(a =~= b) by {
                assert(a1 =~= b1);
                assert forall|i: int| 0 <= i < a.len() implies a[i] == b[i] by {
                    if i > 0 {
                        assert(a1[i - 1] == b1[i - 1]);
                    }
                }
            }
        }
        if lex_lt(a, b) {
            assert(lex_lt(a1, b1));
            if a == b {
                assert(a1 =~= b1);
            }
        }
    }
}

/// Lexicographic order is transitive.
pub proof fn lemma_lex_trans(a: Seq<u8>, b: Seq<u8>, c: Seq<u8>)
    requires
        lex_lt(a, b),
        lex_lt(b, c),
    ensures
        lex_lt(a, c),
    decreases a.len(),
{
    if a.len() == 0 {
        assert(b.len() > 0);
        assert(c.len() > 0);
    } else {
        assert(b.len() > 0);
        assert(c.len() > 0);
        if a[0] == b[0] && b[0] == c[0] {
            lemma_lex_trans(
                a.subrange(1, a.len() as int),
                b.subrange(1, b.len() as int),
                c.subrange(1, c.len() as int),
            );
        }
    }
}

/// Verified byte-string equality.
pub fn bytes_eq(a: &Vec<u8>, b: &Vec<u8>) -> (r: bool)
    ensures
        r == (a@ == b@),
{
    if a.len() != b.len() {
        assert(a@ != b@) by {
            assert(a@.len() != b@.len());
        }
        return false;
    }
    let n: usize = a.len();
    let mut i: usize = 0;
    while i < n
        invariant
            n == a@.len() == b@.len(),
            0 <= i <= n,
            forall|k: int| 0 <= k < i ==> a@[k] == b@[k],
        decreases n - i,
    {
        if a[i] != b[i] {
            return false;
        }
        i += 1;
    }
    assert(a@ =~= b@);
    true
}

/// Verified strict lexicographic comparison.
pub fn lex_less(a: &Vec<u8>, b: &Vec<u8>) -> (r: bool)
    ensures
        r == lex_lt(a@, b@),
{
    let an: usize = a.len();
    let bn: usize = b.len();
    let n: usize = if an < bn { an } else { bn };
    let mut i: usize = 0;
    proof {
        assert(a@.skip(0) =~= a@);
        assert(b@.skip(0) =~= b@);
    }
    while i < n
        invariant
            n <= a@.len(),
            n <= b@.len(),
            n == if a@.len() < b@.len() { a@.len() } else { b@.len() },
            0 <= i <= n,
            forall|k: int| 0 <= k < i ==> a@[k] == b@[k],
            lex_lt(a@, b@) == lex_lt(a@.skip(i as int), b@.skip(i as int)),
        decreases n - i,
    {
        proof {
            lemma_lex_skip_step(a@, b@, i as int);
        }
        if a[i] < b[i] {
            assert(lex_lt(a@.skip(i as int), b@.skip(i as int)));
            return true;
        }
        if a[i] > b[i] {
            assert(!lex_lt(a@.skip(i as int), b@.skip(i as int)));
            return false;
        }
        i += 1;
    }
    proof {
        let sa = a@.skip(i as int);
        let sb = b@.skip(i as int);
        if a@.len() < b@.len() {
            assert(sa.len() == 0 && sb.len() > 0);
            assert(lex_lt(sa, sb));
        } else {
            assert(sa.len() == 0 || sb.len() == 0);
            assert(sb.len() == 0);
            assert(!lex_lt(sa, sb));
        }
    }
    an < bn
}

/// Unfolding step used by `lex_less`: comparing suffixes advances one byte at
/// a time when the heads agree.
proof fn lemma_lex_skip_step(a: Seq<u8>, b: Seq<u8>, i: int)
    requires
        0 <= i < a.len(),
        0 <= i < b.len(),
    ensures
        a[i] == b[i] ==> lex_lt(a.skip(i), b.skip(i)) == lex_lt(a.skip(i + 1), b.skip(i + 1)),
        a[i] < b[i] ==> lex_lt(a.skip(i), b.skip(i)),
        a[i] > b[i] ==> !lex_lt(a.skip(i), b.skip(i)),
{
    let sa = a.skip(i);
    let sb = b.skip(i);
    assert(sa[0] == a[i]);
    assert(sb[0] == b[i]);
    assert(sa.subrange(1, sa.len() as int) =~= a.skip(i + 1));
    assert(sb.subrange(1, sb.len() as int) =~= b.skip(i + 1));
}

/// Copies a byte string.
pub fn clone_bytes(v: &Vec<u8>) -> (r: Vec<u8>)
    ensures
        r@ == v@,
{
    vstd::slice::slice_to_vec(v.as_slice())
}

/// The abstract value of an optional byte string.
pub open spec fn ovb(a: Option<Vec<u8>>) -> Option<Seq<u8>> {
    match a {
        Some(v) => Some(v@),
        None => None,
    }
}

/// Copies an optional byte string.
pub fn clone_opt_bytes(v: &Option<Vec<u8>>) -> (r: Option<Vec<u8>>)
    ensures
        ovb(r) == ovb(*v),
{
    match v {
        Some(b) => Some(clone_bytes(b)),
        None => None,
    }
}

/// Two optional values are reconcilable when at most one is present, or both
/// hold the same value.
pub open spec fn opt_compat<T>(a: Option<T>, b: Option<T>) -> bool {
    a is None || b is None || a == b
}

/// The reconciliation of two optional values: the present one, favouring the
/// left side when both are present.
pub open spec fn opt_merge<T>(a: Option<T>, b: Option<T>) -> Option<T> {
    if a is Some {
        a
    } else {
        b
    }
}

/// Reconciles two optional byte strings; `None` means they conflict.
pub fn merge_opt_bytes(a: &Option<Vec<u8>>, b: &Option<Vec<u8>>) -> (r: Option<Option<Vec<u8>>>)
    ensures
        r is Some <==> opt_compat(ovb(*a), ovb(*b)),
        r is Some ==> ovb(r.unwrap()) == opt_merge(ovb(*a), ovb(*b)),
{
    match (a, b) {
        (Some(x), Some(y)) => {
            if bytes_eq(x, y) {
                Some(Some(clone_bytes(x)))
            } else {
                None
            }
        },
        (Some(x), None) => Some(Some(clone_bytes(x))),
        (None, Some(y)) => Some(Some(clone_bytes(y))),
        (None, None) => Some(None),
    }
}

/// Reconciles two optional integers; `None` means they conflict.
pub fn merge_opt_u64(a: &Option<u64>, b: &Option<u64>) -> (r: Option<Option<u64>>)
    ensures
        r is Some <==> opt_compat(*a, *b),
        r is Some ==> r.unwrap() == opt_merge(*a, *b),
{
    match (a, b) {
        (Some(x), Some(y)) => {
            if x == y {
                Some(Some(*x))
            } else {
                None
            }
        },
        (Some(x), None) => Some(Some(*x)),
        (None, Some(y)) => Some(Some(*y)),
        (None, None) => Some(None),
    }
}

} // verus!

//! Shapes of arrays: the mathematical model that every operation's contract uses.
//!
//! A shape is a sequence of `i32` dimensions, outermost first, as the runtime
//! stores it. A scalar has the empty shape and one element.
use vstd::prelude::*;

verus! {

/// Every dimension of `s` is non-negative.
pub open spec fn valid_shape(s: Seq<i32>) -> bool {
    forall|i: int| 0 <= i < s.len() ==> s[i] >= 0
}

/// Number of elements of an array of shape `s`: the product of its dimensions.
pub open spec fn shape_size(s: Seq<i32>) -> int
    decreases s.len(),
{
    if s.len() == 0 {
        1
    } else {
        shape_size(s.drop_last()) * s.last()
    }
}

/// Every dimension of `s` is at least one.
pub open spec fn all_positive(s: Seq<i32>) -> bool {
    forall|i: int| 0 <= i < s.len() ==> s[i] >= 1
}

pub proof fn lemma_take_succ(s: Seq<i32>, i: int)
    requires
        0 <= i < s.len(),
    ensures
        s.take(i + 1).drop_last() == s.take(i),
        s.take(i + 1).last() == s[i],
{
    assert(s.take(i + 1).drop_last() =~= s.take(i));
}

/// The size of a valid shape is never negative.
pub proof fn lemma_size_nonneg(s: Seq<i32>)
    requires
        valid_shape(s),
    ensures
        shape_size(s) >= 0,
    decreases s.len(),
{
    if s.len() > 0 {
        lemma_size_nonneg(s.drop_last());
        let p = shape_size(s.drop_last());
        let d = s.last() as int;
        assert(p * d >= 0) by (nonlinear_arith)
            requires
                p >= 0,
                d >= 0,
        ;
    }
}

/// A shape with a zero dimension has no elements.
pub proof fn lemma_size_zero(s: Seq<i32>, j: int)
    requires
        0 <= j < s.len(),
        s[j] == 0,
    ensures
        shape_size(s) == 0,
    decreases s.len(),
{
    if j == s.len() - 1 {
        let p = shape_size(s.drop_last());
        assert(p * 0 == 0) by (nonlinear_arith);
    } else {
        lemma_size_zero(s.drop_last(), j);
        let d = s.last() as int;
        assert(0 * d == 0) by (nonlinear_arith);
    }
}

/// With every dimension at least one, the size is at least one.
pub proof fn lemma_size_positive(s: Seq<i32>)
    requires
        all_positive(s),
    ensures
        shape_size(s) >= 1,
    decreases s.len(),
{
    if s.len() > 0 {
        lemma_size_positive(s.drop_last());
        let p = shape_size(s.drop_last());
        let d = s.last() as int;
        assert(p * d >= 1) by (nonlinear_arith)
            requires
                p >= 1,
                d >= 1,
        ;
    }
}

/// With every dimension at least one, a prefix is never larger than the whole.
pub proof fn lemma_size_prefix_le(s: Seq<i32>, i: int)
    requires
        all_positive(s),
        0 <= i <= s.len(),
    ensures
        shape_size(s.take(i)) <= shape_size(s),
    decreases s.len() - i,
{
    if i < s.len() {
        lemma_size_prefix_le(s, i + 1);
        lemma_take_succ(s, i);
        let t = s.take(i);
        assert(all_positive(t));
        lemma_size_positive(t);
        let p = shape_size(t);
        let d = s[i] as int;
        assert(p <= p * d) by (nonlinear_arith)
            requires
                p >= 1,
                d >= 1,
        ;
    } else {
        assert(s.take(i) =~= s);
    }
}

/// The size of a concatenation is the product of the sizes.
pub proof fn lemma_size_concat(a: Seq<i32>, b: Seq<i32>)
    ensures
        shape_size(a + b) == shape_size(a) * shape_size(b),
    decreases b.len(),
{
    if b.len() == 0 {
        assert(a + b =~= a);
    } else {
        lemma_size_concat(a, b.drop_last());
        assert((a + b).drop_last() =~= a + b.drop_last());
        let x = shape_size(a);
        let y = shape_size(b.drop_last());
        let d = b.last() as int;
        assert(x * y * d == x * (y * d)) by (nonlinear_arith);
    }
}

/// `s` with its last dimension replaced by `d`.
pub open spec fn with_last(s: Seq<i32>, d: int) -> Seq<i32> {
    s.update(s.len() - 1, d as i32)
}

/// Making the last dimension smaller never makes the size larger.
pub proof fn lemma_with_last_size_le(s: Seq<i32>, d: int)
    requires
        valid_shape(s),
        s.len() >= 1,
        0 <= d <= s.last(),
    ensures
        valid_shape(with_last(s, d)),
        shape_size(with_last(s, d)) <= shape_size(s),
{
    let t = with_last(s, d);
    assert(t.drop_last() =~= s.drop_last());
    assert(valid_shape(s.drop_last()));
    lemma_size_nonneg(s.drop_last());
    let p = shape_size(s.drop_last());
    let e = s.last() as int;
    assert(p * d <= p * e) by (nonlinear_arith)
        requires
            p >= 0,
            0 <= d <= e,
    ;
}

/// Copy of `s` with its last dimension replaced by `d`.
pub(crate) fn with_last_dim(s: &[i32], d: i32) -> (r: Vec<i32>)
    requires
        s@.len() >= 1,
    ensures
        r@ == with_last(s@, d as int),
{
    let mut r: Vec<i32> = Vec::with_capacity(s.len());
    let mut i: usize = 0;
    let n = s.len();
    while i < n
        invariant
            n == s@.len(),
            i <= n,
            r@ == s@.take(i as int),
        decreases n - i,
    {
        r.push(s[i]);
        i = i + 1;
        assert(r@ =~= s@.take(i as int));
    }
    r.set(n - 1, d);
    assert(r@ =~= with_last(s@, d as int));
    r
}

/// Whether two shapes are equal.
pub(crate) fn shapes_equal(a: &[i32], b: &[i32]) -> (r: bool)
    ensures
        r == (a@ == b@),
{
    if a.len() != b.len() {
        return false;
    }
    let mut i: usize = 0;
    while i < a.len()
        invariant
            a@.len() == b@.len(),
            i <= a@.len(),
            forall|j: int| 0 <= j < i ==> a@[j] == b@[j],
        decreases a@.len() - i,
    {
        if a[i] != b[i] {
            return false;
        }
        i = i + 1;
    }
    assert(a@ =~= b@);
    true
}

/// Whether the first `k` dimensions of two shapes are equal.
pub(crate) fn prefixes_equal(a: &[i32], b: &[i32], k: usize) -> (r: bool)
    requires
        k <= a@.len(),
        k <= b@.len(),
    ensures
        r == (a@.take(k as int) == b@.take(k as int)),
{
    let mut i: usize = 0;
    while i < k
        invariant
            k <= a@.len(),
            k <= b@.len(),
            i <= k,
            forall|j: int| 0 <= j < i ==> a@[j] == b@[j],
        decreases k - i,
    {
        if a[i] != b[i] {
            assert(a@.take(k as int)[i as int] != b@.take(k as int)[i as int]);
            return false;
        }
        i = i + 1;
    }
    assert(a@.take(k as int) =~= b@.take(k as int));
    true
}

/// Computes the number of elements of shape `s`, or `None` where it does not fit in `usize`.
pub(crate) fn checked_shape_size(s: &[i32]) -> (r: Option<usize>)
    requires
        valid_shape(s@),
    ensures
        r matches Some(n) ==> n == shape_size(s@),
        r is None <==> shape_size(s@) > usize::MAX,
{
    let mut i: usize = 0;
    while i < s.len()
        invariant
            i <= s.len(),
            forall|j: int| 0 <= j < i ==> s@[j] >= 1,
            valid_shape(s@),
        decreases s.len() - i,
    {
        if s[i] == 0 {
            proof {
                lemma_size_zero(s@, i as int);
            }
            return Some(0);
        }
        i = i + 1;
    }
    assert(all_positive(s@));
    let mut acc: usize = 1;
    let mut k: usize = 0;
    assert(s@.take(0) =~= Seq::<i32>::empty());
    while k < s.len()
        invariant
            k <= s.len(),
            all_positive(s@),
            acc == shape_size(s@.take(k as int)),
        decreases s.len() - k,
    {
        proof {
            lemma_take_succ(s@, k as int);
        }
        let d: usize = s[k] as usize;
        match acc.checked_mul(d) {
            Some(v) => {
                acc = v;
            },
            None => {
                proof {
                    lemma_size_prefix_le(s@, k + 1);
                }
                return None;
            },
        }
        k = k + 1;
    }
    assert(s@.take(s.len() as int) =~= s@);
    Some(acc)
}

} // verus!

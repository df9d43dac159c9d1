//! Broadcasting: how two shapes combine in an elementwise operation.
//!
//! The shapes are aligned at their last dimension; a missing leading
//! dimension counts as 1. Two aligned dimensions are compatible when they are
//! equal or one of them is 1, and the result takes the one that is not 1.
use vstd::prelude::*;

use crate::array::Array;
use crate::backend::dtype::{promote, promote_types};
use crate::error::{Exception, Result};
use crate::shape::{checked_shape_size, shape_size, valid_shape};

verus! {

/// The larger of two lengths.
pub open spec fn max_len(a: Seq<i32>, b: Seq<i32>) -> int {
    if a.len() >= b.len() {
        a.len() as int
    } else {
        b.len() as int
    }
}

/// Dimension `i` of `s` once `s` is padded on the left with 1s to length `n`.
pub open spec fn padded_dim(s: Seq<i32>, n: int, i: int) -> i32 {
    if i >= n - s.len() {
        s[i - (n - s.len())]
    } else {
        1
    }
}

/// Two aligned dimensions are compatible.
pub open spec fn dims_compatible(x: i32, y: i32) -> bool {
    x == y || x == 1 || y == 1
}

/// The dimension that two compatible dimensions broadcast to.
pub open spec fn broadcast_dim(x: i32, y: i32) -> i32 {
    if x == 1 {
        y
    } else {
        x
    }
}

/// The shapes `a` and `b` broadcast together.
pub open spec fn broadcastable(a: Seq<i32>, b: Seq<i32>) -> bool {
    let n = max_len(a, b);
    forall|i: int| 0 <= i < n ==> #[trigger] dims_compatible(padded_dim(a, n, i), padded_dim(b, n, i))
}

/// The shape that `a` and `b` broadcast to.
pub open spec fn broadcast_shape(a: Seq<i32>, b: Seq<i32>) -> Seq<i32> {
    let n = max_len(a, b);
    Seq::new(n as nat, |i: int| broadcast_dim(padded_dim(a, n, i), padded_dim(b, n, i)))
}

/// The message of the error raised when two shapes do not broadcast.
pub open spec fn not_broadcastable_message() -> Seq<char> {
    "[broadcast_shapes] Shapes cannot be broadcast."@
}

/// The message of the error raised when a broadcast result has more elements than `usize` counts.
pub open spec fn broadcast_too_large_message() -> Seq<char> {
    "[broadcast_shapes] The broadcast shape has too many elements."@
}

/// Broadcasting two valid shapes gives a valid shape.
pub proof fn lemma_broadcast_valid(a: Seq<i32>, b: Seq<i32>)
    requires
        valid_shape(a),
        valid_shape(b),
    ensures
        valid_shape(broadcast_shape(a, b)),
{
    let n = max_len(a, b);
    assert forall|i: int| 0 <= i < n implies #[trigger] broadcast_shape(a, b)[i] >= 0 by {
        assert(padded_dim(a, n, i) >= 0);
        assert(padded_dim(b, n, i) >= 0);
    }
}

/// Broadcasting is symmetric: `a` broadcasts with `b` exactly when `b` broadcasts
/// with `a`, and both give the same shape.
pub proof fn law_broadcast_commutes(a: Seq<i32>, b: Seq<i32>)
    ensures
        broadcastable(a, b) == broadcastable(b, a),
        broadcastable(a, b) ==> broadcast_shape(a, b) == broadcast_shape(b, a),
{
    let n = max_len(a, b);
    assert(max_len(b, a) == n);
    if broadcastable(a, b) {
        assert forall|i: int| 0 <= i < n implies #[trigger] dims_compatible(
            padded_dim(b, n, i),
            padded_dim(a, n, i),
        ) by {
            assert(dims_compatible(padded_dim(a, n, i), padded_dim(b, n, i)));
        }
        assert(broadcast_shape(a, b) =~= broadcast_shape(b, a)) by {
            assert forall|i: int| 0 <= i < n implies broadcast_shape(a, b)[i] == broadcast_shape(
                b,
                a,
            )[i] by {
                assert(dims_compatible(padded_dim(a, n, i), padded_dim(b, n, i)));
            }
        }
    }
    if broadcastable(b, a) {
        assert forall|i: int| 0 <= i < n implies #[trigger] dims_compatible(
            padded_dim(a, n, i),
            padded_dim(b, n, i),
        ) by {
            assert(dims_compatible(padded_dim(b, n, i), padded_dim(a, n, i)));
        }
    }
}

/// Broadcasting a shape with itself gives the shape back.
pub proof fn law_broadcast_self(a: Seq<i32>)
    ensures
        broadcastable(a, a),
        broadcast_shape(a, a) == a,
{
    let n = max_len(a, a);
    assert forall|i: int| 0 <= i < n implies #[trigger] dims_compatible(
        padded_dim(a, n, i),
        padded_dim(a, n, i),
    ) by {}
    assert(broadcast_shape(a, a) =~= a);
}

/// The shape that `a` and `b` broadcast to, or `None` where they do not broadcast.
pub(crate) fn broadcast_shapes(a: &[i32], b: &[i32]) -> (r: Option<Vec<i32>>)
    ensures
        r is Some <==> broadcastable(a@, b@),
        r matches Some(s) ==> s@ == broadcast_shape(a@, b@),
{
    let la = a.len();
    let lb = b.len();
    let n: usize = if la >= lb {
        la
    } else {
        lb
    };
    let ghost gn = max_len(a@, b@);
    let mut out: Vec<i32> = Vec::with_capacity(n);
    let mut i: usize = 0;
    while i < n
        invariant
            n == gn,
            gn == max_len(a@, b@),
            la == a@.len(),
            lb == b@.len(),
            n >= la,
            n >= lb,
            i <= n,
            out@ == broadcast_shape(a@, b@).take(i as int),
            forall|j: int| 0 <= j < i ==> #[trigger] dims_compatible(padded_dim(a@, gn, j), padded_dim(b@, gn, j)),
        decreases n - i,
    {
        let x: i32 = if i >= n - la {
            a[i - (n - la)]
        } else {
            1
        };
        let y: i32 = if i >= n - lb {
            b[i - (n - lb)]
        } else {
            1
        };
        assert(x == padded_dim(a@, gn, i as int));
        assert(y == padded_dim(b@, gn, i as int));
        if !(x == y || x == 1 || y == 1) {
            assert(!dims_compatible(padded_dim(a@, gn, i as int), padded_dim(b@, gn, i as int)));
            return None;
        }
        let d: i32 = if x == 1 {
            y
        } else {
            x
        };
        out.push(d);
        i = i + 1;
        assert(out@ =~= broadcast_shape(a@, b@).take(i as int));
    }
    assert(out@ =~= broadcast_shape(a@, b@));
    Some(out)
}

/// Elementwise addition: the lazy array whose shape is the broadcast of the two
/// shapes and whose element type combines the two element types.
///
/// Fails when the shapes do not broadcast, or when the result would have more
/// elements than `usize` counts.
pub fn add(a: &Array, b: &Array) -> (r: Result<Array>)
    ensures
        r is Ok <==> broadcastable(a@, b@) && shape_size(broadcast_shape(a@, b@)) <= usize::MAX,
        r matches Ok(out) ==> out@ == broadcast_shape(a@, b@) && out.element_type()
            == promote_types(a.element_type(), b.element_type()),
        r matches Err(e) ==> e.what@ == (if broadcastable(a@, b@) {
            broadcast_too_large_message()
        } else {
            not_broadcastable_message()
        }),
{
    let sa = a.shape();
    let sb = b.shape();
    match broadcast_shapes(sa, sb) {
        None => Err(Exception::new("[broadcast_shapes] Shapes cannot be broadcast.")),
        Some(s) => {
            proof {
                lemma_broadcast_valid(sa@, sb@);
            }
            match checked_shape_size(s.as_slice()) {
                None => Err(Exception::new("[broadcast_shapes] The broadcast shape has too many elements.")),
                Some(_) => Ok(Array::from_shape(s, promote(a.dtype(), b.dtype()))),
            }
        },
    }
}

/// Dimension `k` of `s`, counted from the last one (which is dimension 0).
pub open spec fn dim_from_end(s: Seq<i32>, k: int) -> i32 {
    s[s.len() - 1 - k]
}

/// What broadcasting is, stated on the shapes themselves: two shapes broadcast
/// exactly when, aligned at their last dimension, every pair of dimensions that
/// both have is equal or holds a 1. The result is as long as the longer shape;
/// where both shapes have a dimension it takes the one that is not 1, and
/// elsewhere the longer shape's dimension.
pub proof fn law_broadcast_aligned(a: Seq<i32>, b: Seq<i32>)
    ensures
        broadcastable(a, b) <==> forall|k: int|
            0 <= k < a.len() && k < b.len() ==> (#[trigger] dim_from_end(a, k) == dim_from_end(b, k)
                || dim_from_end(a, k) == 1 || dim_from_end(b, k) == 1),
        broadcastable(a, b) ==> broadcast_shape(a, b).len() == (if a.len() >= b.len() {
            a.len()
        } else {
            b.len()
        }),
        broadcastable(a, b) ==> forall|k: int|
            0 <= k < broadcast_shape(a, b).len() ==> #[trigger] dim_from_end(broadcast_shape(a, b), k)
                == (if k < a.len() && k < b.len() {
                if dim_from_end(a, k) == 1 {
                    dim_from_end(b, k)
                } else {
                    dim_from_end(a, k)
                }
            } else if k < a.len() {
                dim_from_end(a, k)
            } else {
                dim_from_end(b, k)
            }),
{
    let n = max_len(a, b);
    if broadcastable(a, b) {
        assert forall|k: int| 0 <= k < a.len() && k < b.len() implies (#[trigger] dim_from_end(a, k)
            == dim_from_end(b, k) || dim_from_end(a, k) == 1 || dim_from_end(b, k) == 1) by {
            let i = n - 1 - k;
            assert(dims_compatible(padded_dim(a, n, i), padded_dim(b, n, i)));
        }
    }
    if forall|k: int|
        0 <= k < a.len() && k < b.len() ==> (#[trigger] dim_from_end(a, k) == dim_from_end(b, k)
            || dim_from_end(a, k) == 1 || dim_from_end(b, k) == 1) {
        assert forall|i: int| 0 <= i < n implies #[trigger] dims_compatible(
            padded_dim(a, n, i),
            padded_dim(b, n, i),
        ) by {
            let k = n - 1 - i;
            if k < a.len() && k < b.len() {
                assert(dim_from_end(a, k) == dim_from_end(b, k) || dim_from_end(a, k) == 1
                    || dim_from_end(b, k) == 1);
            }
        }
    }
}

} // verus!

//! Matrix multiplication and its shape rule.
//!
//! The last two dimensions of each operand are the matrix; the dimensions
//! before them are batch dimensions, which broadcast. A one-dimensional left
//! operand is a row vector and a one-dimensional right operand a column vector;
//! the dimension added for them does not appear in the result. The element
//! types of the operands combine, and the combination must be a real floating
//! point type.
use vstd::prelude::*;

use crate::array::Array;
use crate::backend::dtype::{is_real_floating, promote, promote_types, real_floating};
use crate::error::{Exception, Result};
use crate::ops::broadcast::{
    broadcast_shape, broadcast_shapes, broadcastable, lemma_broadcast_valid, max_len, padded_dim,
};
use crate::shape::{checked_shape_size, shape_size, valid_shape};

verus! {

/// Why two shapes cannot be multiplied as matrices.
#[derive(Clone, Copy, Debug, PartialEq, Eq, Structural)]
pub enum MatmulFailure {
    /// An operand has no dimension.
    ZeroRank,
    /// The last dimension of the left operand differs from the rows of the right operand.
    InnerMismatch,
    /// The operands' element types combine to a type that is not real floating point.
    NotFloating,
    /// The batch dimensions do not broadcast.
    BatchMismatch,
    /// The result has more elements than `usize` counts.
    TooLarge,
}

/// The batch dimensions of an operand: all but the last two.
pub open spec fn batch_dims(s: Seq<i32>) -> Seq<i32> {
    if s.len() >= 2 {
        s.take(s.len() - 2)
    } else {
        Seq::empty()
    }
}

/// The dimension along which the right operand is multiplied.
pub open spec fn rhs_inner(b: Seq<i32>) -> i32 {
    if b.len() == 1 {
        b[0]
    } else {
        b[b.len() - 2]
    }
}

/// The rows of the result: none for a one-dimensional left operand.
pub open spec fn lhs_rows(a: Seq<i32>) -> Seq<i32> {
    if a.len() >= 2 {
        seq![a[a.len() - 2]]
    } else {
        Seq::empty()
    }
}

/// The columns of the result: none for a one-dimensional right operand.
pub open spec fn rhs_cols(b: Seq<i32>) -> Seq<i32> {
    if b.len() >= 2 {
        seq![b.last()]
    } else {
        Seq::empty()
    }
}

/// The shape of the product of operands of shapes `a` and `b`.
pub open spec fn matmul_shape(a: Seq<i32>, b: Seq<i32>) -> Seq<i32> {
    broadcast_shape(batch_dims(a), batch_dims(b)) + lhs_rows(a) + rhs_cols(b)
}

/// Why operands of shapes `a` and `b` cannot be multiplied, checked in this order;
/// `None` where they can. `floating` tells whether their element types combine
/// to a real floating point type.
pub open spec fn matmul_failure(a: Seq<i32>, b: Seq<i32>, floating: bool) -> Option<MatmulFailure> {
    if a.len() == 0 || b.len() == 0 {
        Some(MatmulFailure::ZeroRank)
    } else if a.last() != rhs_inner(b) {
        Some(MatmulFailure::InnerMismatch)
    } else if !floating {
        Some(MatmulFailure::NotFloating)
    } else if !broadcastable(batch_dims(a), batch_dims(b)) {
        Some(MatmulFailure::BatchMismatch)
    } else if shape_size(matmul_shape(a, b)) > usize::MAX {
        Some(MatmulFailure::TooLarge)
    } else {
        None
    }
}

/// What an error for failure `f` says, after the operation's name.
pub open spec fn matmul_failure_text(f: MatmulFailure) -> Seq<char> {
    match f {
        MatmulFailure::ZeroRank => "Got 0 dimension input. Inputs must have at least one dimension."@,
        MatmulFailure::InnerMismatch => "Last dimension of first input must match second to last dimension of second input."@,
        MatmulFailure::NotFloating => "Only real floating point types are supported."@,
        MatmulFailure::BatchMismatch => "The batch dimensions of the inputs cannot be broadcast."@,
        MatmulFailure::TooLarge => "The result has too many elements."@,
    }
}

/// The message of a matrix multiplication that fails with `f`.
pub open spec fn matmul_message(f: MatmulFailure) -> Seq<char> {
    "[matmul] "@ + matmul_failure_text(f)
}

/// The text of failure `f`.
pub(crate) fn matmul_failure_str(f: MatmulFailure) -> (r: &'static str)
    ensures
        r@ == matmul_failure_text(f),
{
    match f {
        MatmulFailure::ZeroRank => "Got 0 dimension input. Inputs must have at least one dimension.",
        MatmulFailure::InnerMismatch => "Last dimension of first input must match second to last dimension of second input.",
        MatmulFailure::NotFloating => "Only real floating point types are supported.",
        MatmulFailure::BatchMismatch => "The batch dimensions of the inputs cannot be broadcast.",
        MatmulFailure::TooLarge => "The result has too many elements.",
    }
}

/// The error that `prefix` followed by `text` describes.
pub(crate) fn exception_with_prefix(prefix: &str, text: &str) -> (e: Exception)
    ensures
        e.what@ == prefix@ + text@,
{
    let mut what = prefix.to_owned();
    what.append(text);
    Exception { what }
}

/// The first `k` dimensions of `s`.
pub(crate) fn shape_prefix(s: &[i32], k: usize) -> (r: Vec<i32>)
    requires
        k <= s@.len(),
    ensures
        r@ == s@.take(k as int),
{
    let mut r: Vec<i32> = Vec::with_capacity(k);
    let mut i: usize = 0;
    while i < k
        invariant
            k <= s@.len(),
            i <= k,
            r@ == s@.take(i as int),
        decreases k - i,
    {
        r.push(s[i]);
        i = i + 1;
        assert(r@ =~= s@.take(i as int));
    }
    r
}

/// The shape of the product of operands of shapes `a` and `b`, or why there is none.
pub(crate) fn matmul_shape_checked(a: &[i32], b: &[i32], floating: bool) -> (r: core::result::Result<Vec<i32>, MatmulFailure>)
    requires
        valid_shape(a@),
        valid_shape(b@),
    ensures
        r matches Ok(s) ==> matmul_failure(a@, b@, floating) is None && s@ == matmul_shape(a@, b@),
        r matches Err(f) ==> matmul_failure(a@, b@, floating) == Some(f),
{
    let la = a.len();
    let lb = b.len();
    if la == 0 || lb == 0 {
        return Err(MatmulFailure::ZeroRank);
    }
    let inner_b: i32 = if lb == 1 {
        b[0]
    } else {
        b[lb - 2]
    };
    if a[la - 1] != inner_b {
        return Err(MatmulFailure::InnerMismatch);
    }
    if !floating {
        return Err(MatmulFailure::NotFloating);
    }
    let batch_a: Vec<i32> = if la >= 2 {
        shape_prefix(a, la - 2)
    } else {
        Vec::new()
    };
    let batch_b: Vec<i32> = if lb >= 2 {
        shape_prefix(b, lb - 2)
    } else {
        Vec::new()
    };
    assert(batch_a@ =~= batch_dims(a@));
    assert(batch_b@ =~= batch_dims(b@));
    let mut out = match broadcast_shapes(batch_a.as_slice(), batch_b.as_slice()) {
        None => {
            return Err(MatmulFailure::BatchMismatch);
        },
        Some(s) => s,
    };
    let ghost batch = out@;
    if la >= 2 {
        out.push(a[la - 2]);
    }
    let ghost with_rows = out@;
    if lb >= 2 {
        out.push(b[lb - 1]);
    }
    assert(with_rows =~= batch + lhs_rows(a@));
    assert(out@ =~= matmul_shape(a@, b@));
    proof {
        lemma_broadcast_valid(batch_dims(a@), batch_dims(b@));
        assert(valid_shape(out@));
    }
    match checked_shape_size(out.as_slice()) {
        None => Err(MatmulFailure::TooLarge),
        Some(_) => Ok(out),
    }
}

/// Matrix product: the lazy array of the product's shape, whose element type
/// combines the operands' element types.
///
/// Fails, with the message of the first failing check, when an operand has no
/// dimension, when the inner dimensions differ, when the element types combine
/// to a type that is not real floating point, when the batch dimensions do not
/// broadcast, or when the result would have more elements than `usize` counts.
pub fn matmul(a: &Array, b: &Array) -> (r: Result<Array>)
    ensures
        r is Ok <==> matmul_failure(
            a@,
            b@,
            is_real_floating(promote_types(a.element_type(), b.element_type())),
        ) is None,
        r matches Ok(out) ==> out@ == matmul_shape(a@, b@) && out.element_type() == promote_types(
            a.element_type(),
            b.element_type(),
        ),
        r matches Err(e) ==> matmul_failure(
            a@,
            b@,
            is_real_floating(promote_types(a.element_type(), b.element_type())),
        ) matches Some(f) && e.what@ == matmul_message(f),
{
    let dtype = promote(a.dtype(), b.dtype());
    match matmul_shape_checked(a.shape(), b.shape(), real_floating(dtype)) {
        Ok(s) => {
            proof {
                lemma_broadcast_valid(batch_dims(a@), batch_dims(b@));
            }
            Ok(Array::from_shape(s, dtype))
        },
        Err(f) => Err(exception_with_prefix("[matmul] ", matmul_failure_str(f))),
    }
}

/// Broadcasting a shape with the empty shape gives the shape back.
pub proof fn lemma_broadcast_empty(s: Seq<i32>)
    ensures
        broadcastable(s, Seq::empty()),
        broadcast_shape(s, Seq::empty()) == s,
{
    let e = Seq::<i32>::empty();
    let n = max_len(s, e);
    assert forall|i: int| 0 <= i < n implies #[trigger] crate::ops::broadcast::dims_compatible(
        padded_dim(s, n, i),
        padded_dim(e, n, i),
    ) by {}
    assert(broadcast_shape(s, e) =~= s);
}

/// A matrix product contracts matching dimensions: whatever the operands'
/// ranks, it succeeds only when both have a dimension and the left operand's
/// last dimension equals the right operand's contracted dimension, its only
/// one when it is one-dimensional and its second to last otherwise.
pub proof fn law_matmul_needs_matching_inner(a: Seq<i32>, b: Seq<i32>, floating: bool)
    ensures
        matmul_failure(a, b, floating) is None ==> {
            &&& a.len() >= 1
            &&& b.len() >= 1
            &&& a[a.len() - 1] == (if b.len() == 1 {
                b[0]
            } else {
                b[b.len() - 2]
            })
        },
{
}

/// The product of an operand of shape `x` (of any rank, its last dimension `k`)
/// with a `[k, n]` matrix succeeds, with real floating element types, exactly
/// when the result fits, and has the shape of `x` with its last dimension
/// replaced by `n`.
pub proof fn law_matmul_by_matrix(x: Seq<i32>, b: Seq<i32>)
    requires
        x.len() >= 1,
        b.len() == 2,
        x[x.len() - 1] == b[0],
    ensures
        matmul_shape(x, b) == x.drop_last().push(b[1]),
        matmul_failure(x, b, true) is None <==> shape_size(x.drop_last().push(b[1])) <= usize::MAX,
{
    assert(batch_dims(b) =~= Seq::<i32>::empty());
    lemma_broadcast_empty(batch_dims(x));
    assert(batch_dims(x) + lhs_rows(x) =~= x.drop_last());
    assert(matmul_shape(x, b) =~= x.drop_last().push(b[1]));
}

} // verus!

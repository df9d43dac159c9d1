//! Reshaping: the same elements under another shape.
//!
//! One dimension of the requested shape may be `-1`; it is inferred so that
//! the element count stays the same.
use vstd::prelude::*;

use crate::array::{copy_shape, Array};
use crate::error::Result;
use crate::ops::matmul::exception_with_prefix;
use crate::shape::{
    checked_shape_size, lemma_size_concat, lemma_size_nonneg, shape_size, valid_shape,
};

verus! {

/// Why a reshape is refused.
#[derive(Clone, Copy, Debug, PartialEq, Eq, Structural)]
pub enum ReshapeFailure {
    /// A requested dimension is negative and not `-1`.
    NegativeDimension,
    /// More than one requested dimension is `-1`.
    MultipleInferred,
    /// A dimension is to be inferred while the others hold no element.
    EmptyInferred,
    /// The requested shape does not hold as many elements as the array.
    SizeMismatch,
    /// The inferred dimension does not fit in `i32`.
    TooLarge,
}

/// Some requested dimension is negative and not `-1`.
pub open spec fn has_negative_dim(s: Seq<i32>) -> bool {
    exists|i: int| 0 <= i < s.len() && s[i] < -1
}

/// Some requested dimension is `-1`.
pub open spec fn has_inferred(s: Seq<i32>) -> bool {
    exists|i: int| 0 <= i < s.len() && s[i] == -1
}

/// Two requested dimensions are `-1`.
pub open spec fn has_two_inferred(s: Seq<i32>) -> bool {
    exists|i: int, j: int| 0 <= i < j < s.len() && s[i] == -1 && s[j] == -1
}

/// The position of the dimension to infer.
pub open spec fn inferred_index(s: Seq<i32>) -> int {
    choose|i: int| 0 <= i < s.len() && s[i] == -1
}

/// The requested shape with the dimension to infer counted as 1.
pub open spec fn known_dims(s: Seq<i32>) -> Seq<i32> {
    Seq::new(s.len(), |i: int| if s[i] == -1 { 1i32 } else { s[i] })
}

/// The number of elements the known dimensions hold.
pub open spec fn known_size(s: Seq<i32>) -> int {
    shape_size(known_dims(s))
}

/// Why an array of shape `a` cannot be reshaped to `s`, checked in this order;
/// `None` where it can.
pub open spec fn reshape_failure(a: Seq<i32>, s: Seq<i32>) -> Option<ReshapeFailure> {
    if has_negative_dim(s) {
        Some(ReshapeFailure::NegativeDimension)
    } else if has_two_inferred(s) {
        Some(ReshapeFailure::MultipleInferred)
    } else if has_inferred(s) {
        if known_size(s) == 0 {
            Some(ReshapeFailure::EmptyInferred)
        } else if shape_size(a) % known_size(s) != 0 {
            Some(ReshapeFailure::SizeMismatch)
        } else if shape_size(a) / known_size(s) > i32::MAX {
            Some(ReshapeFailure::TooLarge)
        } else {
            None
        }
    } else if known_size(s) != shape_size(a) {
        Some(ReshapeFailure::SizeMismatch)
    } else {
        None
    }
}

/// The shape that reshaping an array of shape `a` to `s` gives.
pub open spec fn reshape_shape(a: Seq<i32>, s: Seq<i32>) -> Seq<i32> {
    if has_inferred(s) {
        s.update(inferred_index(s), (shape_size(a) / known_size(s)) as i32)
    } else {
        s
    }
}

/// What an error for failure `f` says.
pub open spec fn reshape_failure_text(f: ReshapeFailure) -> Seq<char> {
    match f {
        ReshapeFailure::NegativeDimension => "Invalid negative dimension."@,
        ReshapeFailure::MultipleInferred => "Reshape can only infer one dimension."@,
        ReshapeFailure::EmptyInferred => "Cannot infer the shape of an empty array."@,
        ReshapeFailure::SizeMismatch => "Cannot reshape array into the requested shape."@,
        ReshapeFailure::TooLarge => "The inferred dimension is too large."@,
    }
}

/// The message of a reshape that fails with `f`.
pub open spec fn reshape_message(f: ReshapeFailure) -> Seq<char> {
    "[reshape] "@ + reshape_failure_text(f)
}

fn reshape_failure_str(f: ReshapeFailure) -> (r: &'static str)
    ensures
        r@ == reshape_failure_text(f),
{
    match f {
        ReshapeFailure::NegativeDimension => "Invalid negative dimension.",
        ReshapeFailure::MultipleInferred => "Reshape can only infer one dimension.",
        ReshapeFailure::EmptyInferred => "Cannot infer the shape of an empty array.",
        ReshapeFailure::SizeMismatch => "Cannot reshape array into the requested shape.",
        ReshapeFailure::TooLarge => "The inferred dimension is too large.",
    }
}

/// Setting dimension `i` to `v` scales the size by `v` against setting it to 1.
pub proof fn lemma_size_update(s: Seq<i32>, i: int, v: i32)
    requires
        0 <= i < s.len(),
    ensures
        shape_size(s.update(i, v)) == shape_size(s.update(i, 1i32)) * v,
{
    let pre = s.take(i);
    let post = s.skip(i + 1);
    assert(s.update(i, v) =~= pre + seq![v] + post);
    assert(s.update(i, 1i32) =~= pre + seq![1i32] + post);
    lemma_size_concat(pre + seq![v], post);
    lemma_size_concat(pre, seq![v]);
    lemma_size_concat(pre + seq![1i32], post);
    lemma_size_concat(pre, seq![1i32]);
    assert(seq![v].drop_last() =~= Seq::<i32>::empty());
    assert(seq![1i32].drop_last() =~= Seq::<i32>::empty());
    assert(shape_size(Seq::<i32>::empty()) == 1);
    assert(shape_size(seq![v]) == v as int);
    assert(shape_size(seq![1i32]) == 1);
    let x = shape_size(pre);
    let y = shape_size(post);
    let w = v as int;
    assert(shape_size(s.update(i, v)) == x * w * y);
    assert(shape_size(s.update(i, 1i32)) == x * 1 * y);
    assert(x * w * y == x * 1 * y * w) by (nonlinear_arith);
}

/// Reshape `a` to `shape`, inferring the dimension given as `-1`; the element
/// type stays.
///
/// Fails, with the message of the first failing check, when a dimension is
/// negative and not `-1`, when two dimensions are `-1`, when a dimension is to
/// be inferred from dimensions that hold no element, when the element counts
/// differ, or when the inferred dimension does not fit in `i32`.
pub fn reshape(a: &Array, shape: &[i32]) -> (r: Result<Array>)
    ensures
        r is Ok <==> reshape_failure(a@, shape@) is None,
        r matches Ok(out) ==> {
            &&& out@ == reshape_shape(a@, shape@)
            &&& shape_size(out@) == shape_size(a@)
            &&& out.element_type() == a.element_type()
        },
        r matches Err(e) ==> reshape_failure(a@, shape@) matches Some(f) && e.what@
            == reshape_message(f),
{
    match reshape_shape_checked(a, shape) {
        Ok(s) => Ok(Array::from_shape(s, a.dtype())),
        Err(f) => Err(exception_with_prefix("[reshape] ", reshape_failure_str(f))),
    }
}

fn reshape_shape_checked(a: &Array, shape: &[i32]) -> (r: core::result::Result<
    Vec<i32>,
    ReshapeFailure,
>)
    ensures
        r is Ok <==> reshape_failure(a@, shape@) is None,
        r matches Ok(s) ==> {
            &&& s@ == reshape_shape(a@, shape@)
            &&& valid_shape(s@)
            &&& shape_size(s@) == shape_size(a@)
            &&& shape_size(s@) <= usize::MAX
        },
        r matches Err(f) ==> reshape_failure(a@, shape@) == Some(f),
{
    let a_size = a.size();
    let _ = a.shape();
    let n = shape.len();
    // Scan the requested dimensions: refuse invalid ones, find the one to infer.
    let mut infer: Option<usize> = None;
    let mut i: usize = 0;
    while i < n
        invariant
            n == shape@.len(),
            i <= n,
            forall|j: int| 0 <= j < i ==> shape@[j] >= -1,
            match infer {
                None => forall|j: int| 0 <= j < i ==> shape@[j] != -1,
                Some(k) => k < i && shape@[k as int] == -1 && forall|j: int|
                    0 <= j < i && j != k ==> shape@[j] != -1,
            },
        decreases n - i,
    {
        if shape[i] < -1 {
            return Err(ReshapeFailure::NegativeDimension);
        }
        if shape[i] == -1 {
            match infer {
                Some(k) => {
                    let mut m: usize = i + 1;
                    while m < n
                        invariant
                            n == shape@.len(),
                            i < m <= n,
                            forall|j: int| 0 <= j < m ==> shape@[j] >= -1,
                        decreases n - m,
                    {
                        if shape[m] < -1 {
                            return Err(ReshapeFailure::NegativeDimension);
                        }
                        m = m + 1;
                    }
                    assert(!has_negative_dim(shape@));
                    assert(has_two_inferred(shape@)) by {
                        assert(0 <= k < i < shape@.len() && shape@[k as int] == -1 && shape@[i as int]
                            == -1);
                    }
                    return Err(ReshapeFailure::MultipleInferred);
                },
                None => {
                    infer = Some(i);
                },
            }
        }
        i = i + 1;
    }
    assert(!has_negative_dim(shape@));
    assert(!has_two_inferred(shape@));
    // The known dimensions, with the one to infer counted as 1.
    let mut known: Vec<i32> = Vec::with_capacity(n);
    let mut j: usize = 0;
    while j < n
        invariant
            n == shape@.len(),
            j <= n,
            known@ == known_dims(shape@).take(j as int),
        decreases n - j,
    {
        let d: i32 = if shape[j] == -1 {
            1
        } else {
            shape[j]
        };
        known.push(d);
        j = j + 1;
        assert(known@ =~= known_dims(shape@).take(j as int));
    }
    assert(known@ =~= known_dims(shape@));
    assert(valid_shape(known@));
    let known_count = checked_shape_size(known.as_slice());
    match infer {
        None => {
            assert(!has_inferred(shape@));
            assert(known@ =~= shape@);
            match known_count {
                Some(c) => {
                    if c != a_size {
                        return Err(ReshapeFailure::SizeMismatch);
                    }
                    Ok(copy_shape(shape))
                },
                None => Err(ReshapeFailure::SizeMismatch),
            }
        },
        Some(k) => {
            assert(has_inferred(shape@));
            let ghost ki = inferred_index(shape@);
            assert(ki == k);
            assert(known@ =~= shape@.update(k as int, 1i32));
            let q: usize = match known_count {
                Some(c) => {
                    if c == 0 {
                        return Err(ReshapeFailure::EmptyInferred);
                    }
                    if a_size % c != 0 {
                        return Err(ReshapeFailure::SizeMismatch);
                    }
                    a_size / c
                },
                None => {
                    // More known elements than `usize` counts: only an empty array fits.
                    if a_size != 0 {
                        proof {
                            let c = known_size(shape@);
                            let sz = shape_size(a@);
                            assert(sz % c == sz) by (nonlinear_arith)
                                requires
                                    0 < sz < c,
                            ;
                        }
                        return Err(ReshapeFailure::SizeMismatch);
                    }
                    0
                },
            };
            if q > 0x7fff_ffff {
                return Err(ReshapeFailure::TooLarge);
            }
            let mut out = copy_shape(shape);
            out.set(k, q as i32);
            proof {
                lemma_size_update(shape@, k as int, q as i32);
                let c = known_size(shape@);
                let sz = shape_size(a@);
                assert(c * (sz / c) == sz) by (nonlinear_arith)
                    requires
                        c > 0,
                        sz % c == 0,
                ;
            }
            assert(out@ =~= reshape_shape(a@, shape@));
            Ok(out)
        },
    }
}

/// Reshaping an array to its own shape succeeds and keeps the shape.
pub proof fn law_reshape_to_own_shape(a: Seq<i32>)
    requires
        valid_shape(a),
    ensures
        reshape_failure(a, a) is None,
        reshape_shape(a, a) == a,
{
    assert(known_dims(a) =~= a);
    assert(!has_inferred(a));
}

/// Reshaping to `[-1]` flattens: it succeeds exactly when the element count fits
/// in `i32`, and gives the shape holding the element count alone.
pub proof fn law_reshape_flatten(a: Seq<i32>)
    requires
        valid_shape(a),
    ensures
        reshape_failure(a, seq![-1i32]) is None <==> shape_size(a) <= i32::MAX,
        shape_size(a) <= i32::MAX ==> reshape_shape(a, seq![-1i32]) == seq![shape_size(a) as i32],
{
    let s = seq![-1i32];
    assert(s[0] == -1);
    assert(has_inferred(s));
    assert(!has_negative_dim(s));
    assert(!has_two_inferred(s));
    assert(inferred_index(s) == 0);
    assert(known_dims(s) =~= seq![1i32]);
    assert(seq![1i32].drop_last() =~= Seq::<i32>::empty());
    assert(shape_size(Seq::<i32>::empty()) == 1);
    assert(known_size(s) == 1);
    lemma_size_nonneg(a);
    assert(s.update(0, shape_size(a) as i32) =~= seq![shape_size(a) as i32]);
}

/// Reshaping to a shape without an inferred dimension succeeds exactly when the
/// requested shape holds as many elements as the array, and then gives the
/// requested shape.
pub proof fn law_reshape_explicit_shape(a: Seq<i32>, s: Seq<i32>)
    requires
        valid_shape(s),
    ensures
        reshape_failure(a, s) is None <==> shape_size(s) == shape_size(a),
        reshape_shape(a, s) == s,
{
    assert(known_dims(s) =~= s);
    assert(!has_inferred(s));
}

} // verus!

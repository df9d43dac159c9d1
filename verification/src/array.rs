//! Arrays as the operations see them: a node of the lazy computation graph,
//! described by its shape and element type. The values behind a node are
//! computed by the runtime when the array is evaluated; nothing in the rules
//! of the operations depends on them.
use vstd::prelude::*;

use crate::backend::dtype::DType;
use crate::shape::{checked_shape_size, shape_size, valid_shape};

verus! {

/// An array of the lazy computation graph, known by its shape and element type.
#[derive(Debug)]
pub struct Array {
    shape: Vec<i32>,
    dtype: DType,
}

impl View for Array {
    type V = Seq<i32>;

    /// The array's shape.
    closed spec fn view(&self) -> Seq<i32> {
        self.shape@
    }
}

/// Copies a shape.
pub(crate) fn copy_shape(s: &[i32]) -> (r: Vec<i32>)
    ensures
        r@ == s@,
{
    let mut r: Vec<i32> = Vec::with_capacity(s.len());
    let mut i: usize = 0;
    while i < s.len()
        invariant
            i <= s.len(),
            r@ == s@.take(i as int),
        decreases s.len() - i,
    {
        r.push(s[i]);
        i = i + 1;
        assert(r@ =~= s@.take(i as int));
    }
    assert(s@.take(s.len() as int) =~= s@);
    r
}

impl Array {
    /// The array's element type.
    pub closed spec fn element_type(&self) -> DType {
        self.dtype
    }

    /// Dimensions are never negative and the element count fits in `usize`.
    #[verifier::type_invariant]
    spec fn well_formed(self) -> bool {
        &&& valid_shape(self.shape@)
        &&& shape_size(self.shape@) <= usize::MAX
    }

    /// The array of the given shape.
    pub(crate) fn from_shape(shape: Vec<i32>, dtype: DType) -> (r: Array)
        requires
            valid_shape(shape@),
            shape_size(shape@) <= usize::MAX,
        ensures
            r@ == shape@,
            r.element_type() == dtype,
    {
        Array { shape, dtype }
    }

    /// The array holding `data`, laid out in row-major order, with the given
    /// shape; `dtype` is the element type of `T`.
    ///
    /// The runtime reads exactly as many elements as the shape holds, so `data`
    /// must hold that many.
    pub fn from_slice<T>(data: &[T], shape: &[i32], dtype: DType) -> (r: Array)
        requires
            valid_shape(shape@),
            data@.len() == shape_size(shape@),
        ensures
            r@ == shape@,
            r.element_type() == dtype,
    {
        let n: usize = data.len();
        assert(shape_size(shape@) == n);
        Array { shape: copy_shape(shape), dtype }
    }

    /// The array of the given shape and element type, or `None` where a dimension is negative or
    /// the element count does not fit in `usize`.
    pub fn with_shape(shape: &[i32], dtype: DType) -> (r: Option<Array>)
        ensures
            r is Some <==> valid_shape(shape@) && shape_size(shape@) <= usize::MAX,
            r matches Some(a) ==> a@ == shape@ && a.element_type() == dtype,
    {
        let mut i: usize = 0;
        while i < shape.len()
            invariant
                i <= shape@.len(),
                forall|j: int| 0 <= j < i ==> shape@[j] >= 0,
            decreases shape@.len() - i,
        {
            if shape[i] < 0 {
                return None;
            }
            i = i + 1;
        }
        match checked_shape_size(shape) {
            None => None,
            Some(_) => Some(Array { shape: copy_shape(shape), dtype }),
        }
    }

    /// The array's shape.
    pub fn shape(&self) -> (r: &[i32])
        ensures
            r@ == self@,
            valid_shape(r@),
            shape_size(r@) <= usize::MAX,
    {
        proof {
            use_type_invariant(self);
        }
        self.shape.as_slice()
    }

    /// The element type.
    pub fn dtype(&self) -> (r: DType)
        ensures
            r == self.element_type(),
    {
        self.dtype
    }

    /// The number of dimensions.
    pub fn ndim(&self) -> (r: usize)
        ensures
            r == self@.len(),
    {
        self.shape.len()
    }

    /// The number of elements.
    pub fn size(&self) -> (r: usize)
        ensures
            r == shape_size(self@),
    {
        proof {
            use_type_invariant(self);
        }
        match checked_shape_size(self.shape.as_slice()) {
            Some(n) => n,
            None => 0,
        }
    }
}

} // verus!

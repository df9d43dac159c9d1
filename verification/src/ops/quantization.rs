//! Affine quantization of matrices and its shape rules.
//!
//! Every `group_size` consecutive elements of a row of `w` are quantized
//! together: they share one floating point scale and one bias. Each element
//! takes `bits` bits and is packed into unsigned 32 bit integers, so a row of
//! `n` elements packs into `n * bits / 32` integers and has `n / group_size`
//! scales and as many biases. Only real floating point matrices are quantized;
//! the packed matrix is of unsigned 32 bit integers and the scales and biases
//! keep the matrix's element type.
use vstd::prelude::*;

use crate::array::Array;
use crate::backend::dtype::{is_real_floating, promote, promote_types, real_floating, DType};
use crate::error::{Exception, Result};
use crate::ops::broadcast::lemma_broadcast_valid;
use crate::ops::matmul::{
    batch_dims, exception_with_prefix, matmul_failure, matmul_failure_str, matmul_failure_text,
    law_matmul_by_matrix, matmul_shape, matmul_shape_checked, MatmulFailure,
};
use crate::shape::{
    checked_shape_size, lemma_with_last_size_le, prefixes_equal, shape_size, shapes_equal,
    valid_shape, with_last, with_last_dim,
};

verus! {

/// Default group size for quantization (64 elements per group).
pub const DEFAULT_GROUP_SIZE: i32 = 64;

/// Default number of bits per quantized element (4 bits).
pub const DEFAULT_BITS: i32 = 4;

/// The value of an optional integer, or `default` where it is absent.
pub open spec fn spec_optional_int(v: Option<i32>, default: i32) -> i32 {
    match v {
        Some(x) => x,
        None => default,
    }
}

/// Unwraps an optional integer to a default value.
pub fn optional_int(v: Option<i32>, default: i32) -> (r: i32)
    ensures
        r == spec_optional_int(v, default),
{
    match v {
        Some(x) => x,
        None => default,
    }
}

/// The group sizes that affine quantization supports.
pub open spec fn valid_group_size(g: i32) -> bool {
    g == 32 || g == 64 || g == 128
}

/// The numbers of bits per element that affine quantization supports.
pub open spec fn valid_bits(bits: i32) -> bool {
    bits == 2 || bits == 3 || bits == 4 || bits == 5 || bits == 6 || bits == 8
}

/// Why a quantization operation is refused.
#[derive(Clone, Copy, Debug, PartialEq, Eq, Structural)]
pub enum QuantizationFailure {
    /// The group size is not 32, 64 or 128.
    GroupSize,
    /// The number of bits is not 2, 3, 4, 5, 6 or 8.
    Bits,
    /// The matrix to quantize is not of a real floating point type.
    NotFloating,
    /// The packed matrix is not of unsigned 32 bit integers.
    NotPacked,
    /// Affine quantization needs biases and none were given.
    MissingBiases,
    /// A matrix has fewer than two dimensions.
    Rank,
    /// The scales and the biases have different shapes.
    ScalesBiasesMismatch,
    /// The scales do not have the matrix's leading dimensions.
    ScalesShape,
    /// The scales' last dimension does not match the matrix for the group size and bits.
    ScalesQuantParams,
    /// The matrix's last dimension is not a multiple of the group size.
    NotDivisible,
    /// A result dimension does not fit in `i32`, or a result has more elements than `usize` counts.
    TooLarge,
    /// The input and the dequantized weights cannot be multiplied.
    Matmul(MatmulFailure),
}

/// The operation whose name an error message starts with.
#[derive(Clone, Copy, Debug, PartialEq, Eq, Structural)]
pub enum QuantizationOp {
    Quantize,
    Dequantize,
    QuantizedMatmul,
}

/// The shape of the packed matrix: a row of `n` elements packs into `n * bits / 32` integers.
pub open spec fn packed_shape(w: Seq<i32>, bits: i32) -> Seq<i32> {
    with_last(w, w.last() * bits / 32int)
}

/// The shape of the scales, and of the biases: one per group of a row.
pub open spec fn scales_shape(w: Seq<i32>, group_size: i32) -> Seq<i32> {
    with_last(w, (w.last() as int) / (group_size as int))
}

/// Why a matrix of shape `w` and element type `dtype` cannot be quantized with
/// this group size and number of bits, checked in this order; `None` where it can.
pub open spec fn quantize_failure(w: Seq<i32>, dtype: DType, group_size: i32, bits: i32) -> Option<
    QuantizationFailure,
> {
    if !valid_group_size(group_size) {
        Some(QuantizationFailure::GroupSize)
    } else if !valid_bits(bits) {
        Some(QuantizationFailure::Bits)
    } else if !is_real_floating(dtype) {
        Some(QuantizationFailure::NotFloating)
    } else if w.len() < 2 {
        Some(QuantizationFailure::Rank)
    } else if w.last() % group_size != 0 {
        Some(QuantizationFailure::NotDivisible)
    } else {
        None
    }
}

/// The number of elements that a packed row of `w` holds.
pub open spec fn dequantized_dim(w: Seq<i32>, bits: i32) -> int {
    w.last() * 32 / (bits as int)
}

/// The shape of the matrix that the packed matrix `w` holds.
pub open spec fn dequantized_shape(w: Seq<i32>, bits: i32) -> Seq<i32> {
    with_last(w, dequantized_dim(w, bits))
}

/// Why the packed matrix `w` of element type `w_dtype` with these scales and
/// biases does not describe a quantized matrix, checked in this order; `None`
/// where it does.
pub open spec fn quantized_weight_failure(
    w: Seq<i32>,
    w_dtype: DType,
    scales: Seq<i32>,
    biases: Option<Seq<i32>>,
    group_size: i32,
    bits: i32,
) -> Option<QuantizationFailure> {
    if !valid_group_size(group_size) {
        Some(QuantizationFailure::GroupSize)
    } else if !valid_bits(bits) {
        Some(QuantizationFailure::Bits)
    } else if w_dtype != DType::U32 {
        Some(QuantizationFailure::NotPacked)
    } else if biases is None {
        Some(QuantizationFailure::MissingBiases)
    } else if w.len() < 2 || scales.len() < 2 {
        Some(QuantizationFailure::Rank)
    } else if scales != biases->0 {
        Some(QuantizationFailure::ScalesBiasesMismatch)
    } else if w.len() != scales.len() || w.drop_last() != scales.drop_last() {
        Some(QuantizationFailure::ScalesShape)
    } else if dequantized_dim(w, bits) != scales.last() * group_size {
        Some(QuantizationFailure::ScalesQuantParams)
    } else if dequantized_dim(w, bits) > i32::MAX {
        Some(QuantizationFailure::TooLarge)
    } else {
        None
    }
}

/// Why dequantizing fails; `None` where it succeeds.
pub open spec fn dequantize_failure(
    w: Seq<i32>,
    w_dtype: DType,
    scales: Seq<i32>,
    biases: Option<Seq<i32>>,
    group_size: i32,
    bits: i32,
) -> Option<QuantizationFailure> {
    match quantized_weight_failure(w, w_dtype, scales, biases, group_size, bits) {
        Some(f) => Some(f),
        None => if shape_size(dequantized_shape(w, bits)) > usize::MAX {
            Some(QuantizationFailure::TooLarge)
        } else {
            None
        },
    }
}

/// `s` with its last two dimensions exchanged.
pub open spec fn swap_last_two(s: Seq<i32>) -> Seq<i32> {
    s.update(s.len() - 2, s.last()).update(s.len() - 1, s[s.len() - 2])
}

/// The shape of the right operand that a quantized matrix multiplication
/// multiplies by: the dequantized matrix, transposed when `transpose` is set.
pub open spec fn quantized_rhs_shape(w: Seq<i32>, bits: i32, transpose: bool) -> Seq<i32> {
    if transpose {
        swap_last_two(dequantized_shape(w, bits))
    } else {
        dequantized_shape(w, bits)
    }
}

/// Why a quantized matrix multiplication fails; `None` where it succeeds.
/// `floating` tells whether the element types of `x`, the scales and the
/// biases combine to a real floating point type.
pub open spec fn quantized_matmul_failure(
    x: Seq<i32>,
    w: Seq<i32>,
    w_dtype: DType,
    scales: Seq<i32>,
    biases: Option<Seq<i32>>,
    transpose: bool,
    group_size: i32,
    bits: i32,
    floating: bool,
) -> Option<QuantizationFailure> {
    match quantized_weight_failure(w, w_dtype, scales, biases, group_size, bits) {
        Some(f) => Some(f),
        None => match matmul_failure(x, quantized_rhs_shape(w, bits, transpose), floating) {
            Some(m) => Some(QuantizationFailure::Matmul(m)),
            None => None,
        },
    }
}

/// For a row length that is a multiple of a supported group size, the packed
/// length is exact and unpacking it gives the row length back.
pub proof fn lemma_packed_len(len: int, group_size: i32, bits: i32)
    requires
        len >= 0,
        valid_group_size(group_size),
        valid_bits(bits),
        len % (group_size as int) == 0,
    ensures
        len % 32 == 0,
        len * bits / 32int == (len / 32) * bits,
        0 <= len * bits / 32int <= len,
        (len * bits / 32int) * 32 / (bits as int) == len,
        0 <= len / (group_size as int) <= len,
        (len / (group_size as int)) * (group_size as int) == len,
{
    let g = group_size as int;
    let b = bits as int;
    let q = len / g;
    assert(len == g * q) by (nonlinear_arith)
        requires
            len % g == 0,
            g > 0,
            q == len / g,
    ;
    let m = len / 32;
    assert(len == 32 * m) by (nonlinear_arith)
        requires
            len == g * q,
            g == 32 || g == 64 || g == 128,
            m == len / 32,
    ;
    assert(len * b / 32 == m * b) by (nonlinear_arith)
        requires
            len == 32 * m,
    ;
    assert(0 <= m * b <= len) by (nonlinear_arith)
        requires
            len == 32 * m,
            2 <= b <= 8,
            m >= 0,
    ;
    assert((m * b) * 32 / b == len) by (nonlinear_arith)
        requires
            len == 32 * m,
            b > 0,
    ;
    assert(0 <= q <= len) by (nonlinear_arith)
        requires
            len == g * q,
            g > 0,
            len >= 0,
    ;
}

/// The name that starts the messages of operation `op`.
pub open spec fn quantization_op_name(op: QuantizationOp) -> Seq<char> {
    match op {
        QuantizationOp::Quantize => "[quantize] "@,
        QuantizationOp::Dequantize => "[dequantize] "@,
        QuantizationOp::QuantizedMatmul => "[quantized_matmul] "@,
    }
}

/// What an error for failure `f` says, after the operation's name.
pub open spec fn quantization_failure_text(f: QuantizationFailure) -> Seq<char> {
    match f {
        QuantizationFailure::GroupSize => "The requested group size is not supported. The supported group sizes are 32, 64, and 128."@,
        QuantizationFailure::Bits => "The requested number of bits is not supported. The supported bits are 2, 3, 4, 5, 6 and 8."@,
        QuantizationFailure::NotFloating => "Only real floating types can be quantized."@,
        QuantizationFailure::NotPacked => "The matrix should be given as a uint32."@,
        QuantizationFailure::MissingBiases => "Biases must be provided for affine quantization."@,
        QuantizationFailure::Rank => "The matrix must have at least 2 dimensions."@,
        QuantizationFailure::ScalesBiasesMismatch => "Scales and biases should have the same shape."@,
        QuantizationFailure::ScalesShape => "Shape of scales and biases does not match the matrix."@,
        QuantizationFailure::ScalesQuantParams => "The shape of scales and biases does not match the matrix given the quantization parameters."@,
        QuantizationFailure::NotDivisible => "The last dimension of the matrix needs to be divisible by the quantization group size."@,
        QuantizationFailure::TooLarge => "The result has too many elements."@,
        QuantizationFailure::Matmul(m) => matmul_failure_text(m),
    }
}

/// The message of operation `op` failing with `f`.
pub open spec fn quantization_message(op: QuantizationOp, f: QuantizationFailure) -> Seq<char> {
    quantization_op_name(op) + quantization_failure_text(f)
}

fn quantization_op_str(op: QuantizationOp) -> (r: &'static str)
    ensures
        r@ == quantization_op_name(op),
{
    match op {
        QuantizationOp::Quantize => "[quantize] ",
        QuantizationOp::Dequantize => "[dequantize] ",
        QuantizationOp::QuantizedMatmul => "[quantized_matmul] ",
    }
}

fn quantization_failure_str(f: QuantizationFailure) -> (r: &'static str)
    ensures
        r@ == quantization_failure_text(f),
{
    match f {
        QuantizationFailure::GroupSize => "The requested group size is not supported. The supported group sizes are 32, 64, and 128.",
        QuantizationFailure::Bits => "The requested number of bits is not supported. The supported bits are 2, 3, 4, 5, 6 and 8.",
        QuantizationFailure::NotFloating => "Only real floating types can be quantized.",
        QuantizationFailure::NotPacked => "The matrix should be given as a uint32.",
        QuantizationFailure::MissingBiases => "Biases must be provided for affine quantization.",
        QuantizationFailure::Rank => "The matrix must have at least 2 dimensions.",
        QuantizationFailure::ScalesBiasesMismatch => "Scales and biases should have the same shape.",
        QuantizationFailure::ScalesShape => "Shape of scales and biases does not match the matrix.",
        QuantizationFailure::ScalesQuantParams => "The shape of scales and biases does not match the matrix given the quantization parameters.",
        QuantizationFailure::NotDivisible => "The last dimension of the matrix needs to be divisible by the quantization group size.",
        QuantizationFailure::TooLarge => "The result has too many elements.",
        QuantizationFailure::Matmul(m) => matmul_failure_str(m),
    }
}

/// The error of operation `op` failing with `f`.
pub(crate) fn quantization_exception(op: QuantizationOp, f: QuantizationFailure) -> (e: Exception)
    ensures
        e.what@ == quantization_message(op, f),
{
    exception_with_prefix(quantization_op_str(op), quantization_failure_str(f))
}


/// Quantize the matrix `w` using `bits` bits per element.
///
/// Every `group_size` elements in a row of `w` are quantized together, so the
/// number of columns of `w` must be divisible by `group_size`, and `w` must be
/// of a real floating point type. Absent parameters take the defaults: groups
/// of 64 and 4 bits. Gives the packed matrix, of unsigned 32 bit integers, and
/// the scales and the biases, of `w`'s element type, each as a lazy array.
pub fn quantize_device(w: &Array, group_size: Option<i32>, bits: Option<i32>) -> (r: Result<
    (Array, Array, Array),
>)
    ensures
        r is Ok <==> quantize_failure(
            w@,
            w.element_type(),
            spec_optional_int(group_size, DEFAULT_GROUP_SIZE),
            spec_optional_int(bits, DEFAULT_BITS),
        ) is None,
        r matches Ok((wq, scales, biases)) ==> {
            &&& wq@ == packed_shape(w@, spec_optional_int(bits, DEFAULT_BITS))
            &&& wq.element_type() == DType::U32
            &&& scales@ == scales_shape(w@, spec_optional_int(group_size, DEFAULT_GROUP_SIZE))
            &&& scales.element_type() == w.element_type()
            &&& biases@ == scales_shape(w@, spec_optional_int(group_size, DEFAULT_GROUP_SIZE))
            &&& biases.element_type() == w.element_type()
        },
        r matches Err(e) ==> quantize_failure(
            w@,
            w.element_type(),
            spec_optional_int(group_size, DEFAULT_GROUP_SIZE),
            spec_optional_int(bits, DEFAULT_BITS),
        ) matches Some(f) && e.what@ == quantization_message(QuantizationOp::Quantize, f),
{
    let g = optional_int(group_size, DEFAULT_GROUP_SIZE);
    let b = optional_int(bits, DEFAULT_BITS);
    let s = w.shape();
    let dtype = w.dtype();
    if !(g == 32 || g == 64 || g == 128) {
        return Err(quantization_exception(QuantizationOp::Quantize, QuantizationFailure::GroupSize));
    }
    if !(b == 2 || b == 3 || b == 4 || b == 5 || b == 6 || b == 8) {
        return Err(quantization_exception(QuantizationOp::Quantize, QuantizationFailure::Bits));
    }
    if !real_floating(dtype) {
        return Err(
            quantization_exception(QuantizationOp::Quantize, QuantizationFailure::NotFloating),
        );
    }
    if s.len() < 2 {
        return Err(quantization_exception(QuantizationOp::Quantize, QuantizationFailure::Rank));
    }
    let last = s[s.len() - 1];
    if last % g != 0 {
        return Err(
            quantization_exception(QuantizationOp::Quantize, QuantizationFailure::NotDivisible),
        );
    }
    proof {
        lemma_packed_len(last as int, g, b);
    }
    let packed: i32 = last / 32 * b;
    let groups: i32 = last / g;
    let wq = with_last_dim(s, packed);
    let scales = with_last_dim(s, groups);
    let biases = with_last_dim(s, groups);
    proof {
        lemma_with_last_size_le(s@, packed as int);
        lemma_with_last_size_le(s@, groups as int);
    }
    Ok(
        (
            Array::from_shape(wq, DType::U32),
            Array::from_shape(scales, dtype),
            Array::from_shape(biases, dtype),
        ),
    )
}

/// The shape of an optional array.
pub open spec fn optional_shape(a: Option<&Array>) -> Option<Seq<i32>> {
    match a {
        Some(x) => Some(x@),
        None => None,
    }
}

/// Checks that `w`, `scales` and `biases` describe a quantized matrix, and gives
/// the number of elements a packed row holds.
fn check_quantized_weight(
    w: &[i32],
    w_dtype: DType,
    scales: &[i32],
    biases: Option<&Array>,
    g: i32,
    b: i32,
) -> (r: core::result::Result<i32, QuantizationFailure>)
    requires
        valid_shape(w@),
        valid_shape(scales@),
    ensures
        r matches Ok(d) ==> quantized_weight_failure(
            w@,
            w_dtype,
            scales@,
            optional_shape(biases),
            g,
            b,
        ) is None && d == dequantized_dim(w@, b),
        r matches Err(f) ==> quantized_weight_failure(
            w@,
            w_dtype,
            scales@,
            optional_shape(biases),
            g,
            b,
        ) == Some(f),
{
    if !(g == 32 || g == 64 || g == 128) {
        return Err(QuantizationFailure::GroupSize);
    }
    if !(b == 2 || b == 3 || b == 4 || b == 5 || b == 6 || b == 8) {
        return Err(QuantizationFailure::Bits);
    }
    if w_dtype != DType::U32 {
        return Err(QuantizationFailure::NotPacked);
    }
    let bs = match biases {
        None => {
            return Err(QuantizationFailure::MissingBiases);
        },
        Some(a) => a.shape(),
    };
    let lw = w.len();
    let ls = scales.len();
    if lw < 2 || ls < 2 {
        return Err(QuantizationFailure::Rank);
    }
    if !shapes_equal(scales, bs) {
        return Err(QuantizationFailure::ScalesBiasesMismatch);
    }
    assert(w@.drop_last() =~= w@.take(lw - 1));
    assert(scales@.drop_last() =~= scales@.take(ls - 1));
    if lw != ls || !prefixes_equal(w, scales, lw - 1) {
        return Err(QuantizationFailure::ScalesShape);
    }
    let w_last: i64 = w[lw - 1] as i64;
    let s_last: i64 = scales[ls - 1] as i64;
    let d: i64 = w_last * 32 / (b as i64);
    assert(-0x8000_0000 <= s_last < 0x8000_0000);
    assert(s_last * (g as i64) <= 0x8000_0000 * 128) by (nonlinear_arith)
        requires
            s_last < 0x8000_0000,
            0 < g <= 128,
    ;
    assert(s_last * (g as i64) >= -0x8000_0000 * 128) by (nonlinear_arith)
        requires
            s_last >= -0x8000_0000,
            0 < g <= 128,
    ;
    if d != s_last * (g as i64) {
        return Err(QuantizationFailure::ScalesQuantParams);
    }
    if d > 0x7fff_ffff {
        return Err(QuantizationFailure::TooLarge);
    }
    Ok(d as i32)
}

/// Dequantize the packed matrix `w` with its `scales` and `biases` and the
/// `group_size` and `bits` it was quantized with, the absent parameters taking
/// the defaults. `w` must be of unsigned 32 bit integers. Gives the lazy array
/// of the matrix's shape, of the scales' element type.
pub fn dequantize_device(
    w: &Array,
    scales: &Array,
    biases: Option<&Array>,
    group_size: Option<i32>,
    bits: Option<i32>,
) -> (r: Result<Array>)
    ensures
        r is Ok <==> dequantize_failure(
            w@,
            w.element_type(),
            scales@,
            optional_shape(biases),
            spec_optional_int(group_size, DEFAULT_GROUP_SIZE),
            spec_optional_int(bits, DEFAULT_BITS),
        ) is None,
        r matches Ok(out) ==> out@ == dequantized_shape(w@, spec_optional_int(bits, DEFAULT_BITS))
            && out.element_type() == scales.element_type(),
        r matches Err(e) ==> dequantize_failure(
            w@,
            w.element_type(),
            scales@,
            optional_shape(biases),
            spec_optional_int(group_size, DEFAULT_GROUP_SIZE),
            spec_optional_int(bits, DEFAULT_BITS),
        ) matches Some(f) && e.what@ == quantization_message(QuantizationOp::Dequantize, f),
{
    let g = optional_int(group_size, DEFAULT_GROUP_SIZE);
    let b = optional_int(bits, DEFAULT_BITS);
    let sw = w.shape();
    let d = match check_quantized_weight(sw, w.dtype(), scales.shape(), biases, g, b) {
        Err(f) => {
            return Err(quantization_exception(QuantizationOp::Dequantize, f));
        },
        Ok(d) => d,
    };
    let out = with_last_dim(sw, d);
    assert(valid_shape(out@));
    match checked_shape_size(out.as_slice()) {
        None => Err(
            quantization_exception(QuantizationOp::Dequantize, QuantizationFailure::TooLarge),
        ),
        Some(_) => Ok(Array::from_shape(out, scales.dtype())),
    }
}

/// The value of an optional flag, or `default` where it is absent.
pub open spec fn spec_optional_bool(v: Option<bool>, default: bool) -> bool {
    match v {
        Some(x) => x,
        None => default,
    }
}

/// The element type of a quantized matrix product: the combination of the
/// element types of `x`, the scales and, where given, the biases.
pub open spec fn quantized_matmul_dtype(x: &Array, scales: &Array, biases: Option<&Array>) -> DType {
    match biases {
        Some(b) => promote_types(
            promote_types(x.element_type(), scales.element_type()),
            b.element_type(),
        ),
        None => promote_types(x.element_type(), scales.element_type()),
    }
}

/// Perform the matrix multiplication with the quantized matrix `w`. The
/// quantization uses one floating point scale and bias per `group_size` of
/// elements. Each element in `w` takes `bits` bits and is packed in an unsigned
/// 32 bit integer. With `transpose` the dequantized `w` is transposed before the
/// product. Absent parameters take the defaults: no transpose, groups of 64 and
/// 4 bits. The element types of `x`, the scales and the biases must combine to
/// a real floating point type, which is the result's. Gives the lazy array of
/// the product's shape.
pub fn quantized_matmul_device(
    x: &Array,
    w: &Array,
    scales: &Array,
    biases: Option<&Array>,
    transpose: Option<bool>,
    group_size: Option<i32>,
    bits: Option<i32>,
) -> (r: Result<Array>)
    ensures
        r is Ok <==> quantized_matmul_failure(
            x@,
            w@,
            w.element_type(),
            scales@,
            optional_shape(biases),
            spec_optional_bool(transpose, false),
            spec_optional_int(group_size, DEFAULT_GROUP_SIZE),
            spec_optional_int(bits, DEFAULT_BITS),
            is_real_floating(quantized_matmul_dtype(x, scales, biases)),
        ) is None,
        r matches Ok(out) ==> out@ == matmul_shape(
            x@,
            quantized_rhs_shape(
                w@,
                spec_optional_int(bits, DEFAULT_BITS),
                spec_optional_bool(transpose, false),
            ),
        ) && out.element_type() == quantized_matmul_dtype(x, scales, biases),
        r matches Err(e) ==> quantized_matmul_failure(
            x@,
            w@,
            w.element_type(),
            scales@,
            optional_shape(biases),
            spec_optional_bool(transpose, false),
            spec_optional_int(group_size, DEFAULT_GROUP_SIZE),
            spec_optional_int(bits, DEFAULT_BITS),
            is_real_floating(quantized_matmul_dtype(x, scales, biases)),
        ) matches Some(f) && e.what@ == quantization_message(QuantizationOp::QuantizedMatmul, f),
{
    let t: bool = match transpose {
        Some(v) => v,
        None => false,
    };
    let g = optional_int(group_size, DEFAULT_GROUP_SIZE);
    let b = optional_int(bits, DEFAULT_BITS);
    let xs = promote(x.dtype(), scales.dtype());
    let dtype = match biases {
        Some(bi) => promote(xs, bi.dtype()),
        None => xs,
    };
    let sw = w.shape();
    let d = match check_quantized_weight(sw, w.dtype(), scales.shape(), biases, g, b) {
        Err(f) => {
            return Err(quantization_exception(QuantizationOp::QuantizedMatmul, f));
        },
        Ok(d) => d,
    };
    let mut rhs = with_last_dim(sw, d);
    if t {
        let n = rhs.len();
        let last = rhs[n - 1];
        let prev = rhs[n - 2];
        rhs.set(n - 2, last);
        rhs.set(n - 1, prev);
    }
    assert(rhs@ =~= quantized_rhs_shape(w@, b, t));
    assert(valid_shape(rhs@));
    match matmul_shape_checked(x.shape(), rhs.as_slice(), real_floating(dtype)) {
        Err(m) => Err(
            quantization_exception(QuantizationOp::QuantizedMatmul, QuantizationFailure::Matmul(m)),
        ),
        Ok(s) => {
            proof {
                lemma_broadcast_valid(batch_dims(x@), batch_dims(rhs@));
            }
            Ok(Array::from_shape(s, dtype))
        },
    }
}

/// Dequantizing what quantizing gave succeeds and gives back the matrix: whenever
/// a matrix of shape `w` and element type `dtype` quantizes with a group size
/// and number of bits, the packed matrix (of unsigned 32 bit integers) with its
/// scales and biases dequantizes with the same parameters to an array of `w`'s
/// shape.
pub proof fn law_dequantize_inverts_quantize(w: Seq<i32>, dtype: DType, group_size: i32, bits: i32)
    requires
        valid_shape(w),
        shape_size(w) <= usize::MAX,
        quantize_failure(w, dtype, group_size, bits) is None,
    ensures
        dequantize_failure(
            packed_shape(w, bits),
            DType::U32,
            scales_shape(w, group_size),
            Some(scales_shape(w, group_size)),
            group_size,
            bits,
        ) is None,
        dequantized_shape(packed_shape(w, bits), bits) == w,
{
    let len = w.last() as int;
    lemma_packed_len(len, group_size, bits);
    let p = packed_shape(w, bits);
    let s = scales_shape(w, group_size);
    assert(p.last() == len * bits / 32int);
    assert(dequantized_dim(p, bits) == len);
    assert(p.drop_last() =~= w.drop_last());
    assert(s.drop_last() =~= w.drop_last());
    assert(dequantized_shape(p, bits) =~= w);
}

/// Multiplying by a quantized matrix behaves, in shape and element type, as
/// multiplying by the matrix itself: whenever a matrix of shape `w` and element
/// type `w_dtype` quantizes, the quantized matrix multiplication of `x` (of
/// element type `x_dtype`) by the packed matrix, its scales and biases succeeds
/// exactly when `x` multiplies with `w` (with `w` transposed when `transpose` is
/// set), its right operand has that shape, and its element type is that
/// product's.
pub proof fn law_quantized_matmul_matches_matmul(
    x: Seq<i32>,
    x_dtype: DType,
    w: Seq<i32>,
    w_dtype: DType,
    group_size: i32,
    bits: i32,
    transpose: bool,
)
    requires
        valid_shape(w),
        shape_size(w) <= usize::MAX,
        quantize_failure(w, w_dtype, group_size, bits) is None,
    ensures
        promote_types(promote_types(x_dtype, w_dtype), w_dtype) == promote_types(x_dtype, w_dtype),
        quantized_matmul_failure(
            x,
            packed_shape(w, bits),
            DType::U32,
            scales_shape(w, group_size),
            Some(scales_shape(w, group_size)),
            transpose,
            group_size,
            bits,
            is_real_floating(promote_types(promote_types(x_dtype, w_dtype), w_dtype)),
        ) is None <==> matmul_failure(
            x,
            if transpose {
                swap_last_two(w)
            } else {
                w
            },
            is_real_floating(promote_types(x_dtype, w_dtype)),
        ) is None,
        quantized_rhs_shape(packed_shape(w, bits), bits, transpose) == (if transpose {
            swap_last_two(w)
        } else {
            w
        }),
{
    law_dequantize_inverts_quantize(w, w_dtype, group_size, bits);
    crate::backend::dtype::law_promote_types_absorbs(x_dtype, w_dtype);
}

/// Which rows quantize: a real floating point matrix of at least two dimensions,
/// with a supported group size and number of bits, quantizes exactly when its
/// row length is a multiple of the group size; no other bound on the row
/// length refuses it.
pub proof fn law_quantize_accepts_divisible_rows(w: Seq<i32>, dtype: DType, group_size: i32, bits: i32)
    requires
        group_size == 32 || group_size == 64 || group_size == 128,
        bits == 2 || bits == 3 || bits == 4 || bits == 5 || bits == 6 || bits == 8,
        dtype == DType::F16 || dtype == DType::F32 || dtype == DType::F64 || dtype == DType::BF16,
        w.len() >= 2,
    ensures
        quantize_failure(w, dtype, group_size, bits) is None <==> w[w.len() - 1] % group_size == 0,
{
}

/// Which packed matrices dequantize: a packed matrix of unsigned 32 bit
/// integers of at least two dimensions, with scales and biases of one shape
/// that agrees with it outside the last dimension, dequantizes whenever a
/// packed row unpacks to exactly `group_size` times the scales' last
/// dimension and the result fits; no other bound on the row length refuses
/// it. The result is the packed matrix with each row unpacked.
pub proof fn law_dequantize_accepts_matching_scales(
    w: Seq<i32>,
    scales: Seq<i32>,
    group_size: i32,
    bits: i32,
)
    requires
        group_size == 32 || group_size == 64 || group_size == 128,
        bits == 2 || bits == 3 || bits == 4 || bits == 5 || bits == 6 || bits == 8,
        w.len() >= 2,
        scales.len() == w.len(),
        forall|i: int| 0 <= i < w.len() - 1 ==> w[i] == scales[i],
        w[w.len() - 1] * 32 / (bits as int) == scales[scales.len() - 1] * group_size,
        w[w.len() - 1] * 32 / (bits as int) <= i32::MAX,
        shape_size(w.update(w.len() - 1, (w[w.len() - 1] * 32 / (bits as int)) as i32)) <= usize::MAX,
    ensures
        dequantize_failure(w, DType::U32, scales, Some(scales), group_size, bits) is None,
        dequantized_shape(w, bits) == w.update(
            w.len() - 1,
            (w[w.len() - 1] * 32 / (bits as int)) as i32,
        ),
{
    assert(w.drop_last() =~= scales.drop_last());
}

/// With `transpose` set, a quantized matrix product multiplies by the
/// dequantized weight with its last two dimensions exchanged, whatever their
/// sizes: for a packed `[n, p]` weight that unpacks to `[n, k]`, an input
/// `[.., k]` gives a result `[.., n]`, and an input whose last dimension is not
/// `k` is refused.
pub proof fn law_quantized_matmul_transposed(
    x: Seq<i32>,
    w: Seq<i32>,
    scales: Seq<i32>,
    biases: Option<Seq<i32>>,
    group_size: i32,
    bits: i32,
)
    requires
        valid_shape(w),
        w.len() == 2,
        x.len() >= 1,
        quantized_weight_failure(w, DType::U32, scales, biases, group_size, bits) is None,
    ensures
        quantized_rhs_shape(w, bits, true) == seq![(w[1] * 32 / (bits as int)) as i32, w[0]],
        quantized_matmul_failure(x, w, DType::U32, scales, biases, true, group_size, bits, true)
            is None <==> (x[x.len() - 1] == w[1] * 32 / (bits as int) && shape_size(
            x.drop_last().push(w[0]),
        ) <= usize::MAX),
        x[x.len() - 1] == w[1] * 32 / (bits as int) ==> matmul_shape(
            x,
            quantized_rhs_shape(w, bits, true),
        ) == x.drop_last().push(w[0]),
{
    let rhs = quantized_rhs_shape(w, bits, true);
    assert(0 <= w[1] * 32 / (bits as int) <= i32::MAX) by (nonlinear_arith)
        requires
            0 <= w[1],
            2 <= bits,
            w[1] * 32 / (bits as int) <= i32::MAX,
    ;
    assert(rhs =~= seq![(w[1] * 32 / (bits as int)) as i32, w[0]]);
    if x[x.len() - 1] == w[1] * 32 / (bits as int) {
        law_matmul_by_matrix(x, rhs);
    }
}

/// Without `transpose`, a quantized matrix product multiplies by the
/// dequantized weight itself: for a packed `[k, p]` weight that unpacks to
/// `[k, n]`, an input `[.., k]` gives a result `[.., n]`, and an input whose
/// last dimension is not `k` is refused.
pub proof fn law_quantized_matmul_untransposed(
    x: Seq<i32>,
    w: Seq<i32>,
    scales: Seq<i32>,
    biases: Option<Seq<i32>>,
    group_size: i32,
    bits: i32,
)
    requires
        valid_shape(w),
        w.len() == 2,
        x.len() >= 1,
        quantized_weight_failure(w, DType::U32, scales, biases, group_size, bits) is None,
    ensures
        quantized_rhs_shape(w, bits, false) == seq![w[0], (w[1] * 32 / (bits as int)) as i32],
        quantized_matmul_failure(x, w, DType::U32, scales, biases, false, group_size, bits, true)
            is None <==> (x[x.len() - 1] == w[0] && shape_size(
            x.drop_last().push((w[1] * 32 / (bits as int)) as i32),
        ) <= usize::MAX),
        x[x.len() - 1] == w[0] ==> matmul_shape(x, quantized_rhs_shape(w, bits, false))
            == x.drop_last().push((w[1] * 32 / (bits as int)) as i32),
{
    let rhs = quantized_rhs_shape(w, bits, false);
    assert(0 <= w[1] * 32 / (bits as int) <= i32::MAX) by (nonlinear_arith)
        requires
            0 <= w[1],
            2 <= bits,
            w[1] * 32 / (bits as int) <= i32::MAX,
    ;
    assert(rhs =~= seq![w[0], (w[1] * 32 / (bits as int)) as i32]);
    if x[x.len() - 1] == w[0] {
        law_matmul_by_matrix(x, rhs);
    }
}

/// What quantizing gives: the packed matrix and the scales keep every dimension
/// of `w` but the last; a packed row holds exactly `bits` bits for each element
/// of the row in its 32 bit integers, and there is one scale for each group of
/// `group_size` elements.
pub proof fn law_quantize_shapes(w: Seq<i32>, dtype: DType, group_size: i32, bits: i32)
    requires
        valid_shape(w),
        quantize_failure(w, dtype, group_size, bits) is None,
    ensures
        packed_shape(w, bits).len() == w.len(),
        scales_shape(w, group_size).len() == w.len(),
        forall|i: int|
            0 <= i < w.len() - 1 ==> #[trigger] packed_shape(w, bits)[i] == w[i]
                && scales_shape(w, group_size)[i] == w[i],
        packed_shape(w, bits)[w.len() - 1] * 32 == w[w.len() - 1] * bits,
        scales_shape(w, group_size)[w.len() - 1] * group_size == w[w.len() - 1],
{
    let len = w.last() as int;
    lemma_packed_len(len, group_size, bits);
    let m = len / 32;
    assert(m * (bits as int) * 32 == len * bits) by (nonlinear_arith)
        requires
            len == 32 * m,
    ;
}

} // verus!

//! Element types of tensors, and how two element types combine.
use vstd::prelude::*;

verus! {

/// The element type of a tensor: the types the runtime computes with.
#[derive(Clone, Copy, Debug, PartialEq, Eq, Structural, Hash)]
pub enum DType {
    Bool,
    U8,
    U16,
    U32,
    U64,
    I8,
    I16,
    I32,
    I64,
    F16,
    F32,
    F64,
    BF16,
    C64,
}

/// A real floating point type.
pub open spec fn is_real_floating(d: DType) -> bool {
    d == DType::F16 || d == DType::F32 || d == DType::F64 || d == DType::BF16
}

/// An unsigned integer type.
pub open spec fn is_unsigned(d: DType) -> bool {
    d == DType::U8 || d == DType::U16 || d == DType::U32 || d == DType::U64
}

/// A signed integer type.
pub open spec fn is_signed(d: DType) -> bool {
    d == DType::I8 || d == DType::I16 || d == DType::I32 || d == DType::I64
}

/// The width in bits of an integer type.
pub open spec fn int_bits(d: DType) -> int {
    match d {
        DType::U8 | DType::I8 => 8,
        DType::U16 | DType::I16 => 16,
        DType::U32 | DType::I32 => 32,
        DType::U64 | DType::I64 => 64,
        _ => 0,
    }
}

/// The narrowest signed integer type of at least `bits` bits.
pub open spec fn signed_of_bits(bits: int) -> DType {
    if bits <= 8 {
        DType::I8
    } else if bits <= 16 {
        DType::I16
    } else if bits <= 32 {
        DType::I32
    } else {
        DType::I64
    }
}

/// The narrowest unsigned integer type of at least `bits` bits.
pub open spec fn unsigned_of_bits(bits: int) -> DType {
    if bits <= 8 {
        DType::U8
    } else if bits <= 16 {
        DType::U16
    } else if bits <= 32 {
        DType::U32
    } else {
        DType::U64
    }
}

/// The larger of two integers.
pub open spec fn max_int(x: int, y: int) -> int {
    if x >= y {
        x
    } else {
        y
    }
}

/// The element type of the result of combining elements of types `a` and `b`.
///
/// Complex wins over everything, then `F64`, then `F32`; `F16` with `BF16`
/// gives `F32`; a half precision type wins over booleans and integers; a
/// boolean gives way to the other type; integers of one signedness give the
/// wider; an unsigned with a signed integer gives the signed type wide enough
/// for both, except `U64`, which with a signed integer gives `F32`.
pub open spec fn promote_types(a: DType, b: DType) -> DType {
    if a == b {
        a
    } else if a == DType::C64 || b == DType::C64 {
        DType::C64
    } else if a == DType::F64 || b == DType::F64 {
        DType::F64
    } else if a == DType::F32 || b == DType::F32 {
        DType::F32
    } else if (a == DType::F16 && b == DType::BF16) || (a == DType::BF16 && b == DType::F16) {
        DType::F32
    } else if a == DType::F16 || b == DType::F16 {
        DType::F16
    } else if a == DType::BF16 || b == DType::BF16 {
        DType::BF16
    } else if a == DType::Bool {
        b
    } else if b == DType::Bool {
        a
    } else if is_unsigned(a) && is_unsigned(b) {
        unsigned_of_bits(max_int(int_bits(a), int_bits(b)))
    } else if is_signed(a) && is_signed(b) {
        signed_of_bits(max_int(int_bits(a), int_bits(b)))
    } else {
        let u = if is_unsigned(a) {
            a
        } else {
            b
        };
        let s = if is_unsigned(a) {
            b
        } else {
            a
        };
        if u == DType::U64 {
            DType::F32
        } else {
            signed_of_bits(max_int(2 * int_bits(u), int_bits(s)))
        }
    }
}

/// The width in bits of an integer type, as a number.
fn int_bits_of(d: DType) -> (r: u32)
    ensures
        r == int_bits(d),
{
    match d {
        DType::U8 | DType::I8 => 8,
        DType::U16 | DType::I16 => 16,
        DType::U32 | DType::I32 => 32,
        DType::U64 | DType::I64 => 64,
        _ => 0,
    }
}

fn signed_of(bits: u32) -> (r: DType)
    ensures
        r == signed_of_bits(bits as int),
{
    if bits <= 8 {
        DType::I8
    } else if bits <= 16 {
        DType::I16
    } else if bits <= 32 {
        DType::I32
    } else {
        DType::I64
    }
}

fn unsigned_of(bits: u32) -> (r: DType)
    ensures
        r == unsigned_of_bits(bits as int),
{
    if bits <= 8 {
        DType::U8
    } else if bits <= 16 {
        DType::U16
    } else if bits <= 32 {
        DType::U32
    } else {
        DType::U64
    }
}

/// Whether `d` is a real floating point type.
pub fn real_floating(d: DType) -> (r: bool)
    ensures
        r == is_real_floating(d),
{
    d == DType::F16 || d == DType::F32 || d == DType::F64 || d == DType::BF16
}

/// The element type of the result of combining elements of types `a` and `b`.
pub fn promote(a: DType, b: DType) -> (r: DType)
    ensures
        r == promote_types(a, b),
{
    let ua = a == DType::U8 || a == DType::U16 || a == DType::U32 || a == DType::U64;
    let ub = b == DType::U8 || b == DType::U16 || b == DType::U32 || b == DType::U64;
    let sa = a == DType::I8 || a == DType::I16 || a == DType::I32 || a == DType::I64;
    let sb = b == DType::I8 || b == DType::I16 || b == DType::I32 || b == DType::I64;
    let ba = int_bits_of(a);
    let bb = int_bits_of(b);
    let wider = if ba >= bb {
        ba
    } else {
        bb
    };
    if a == b {
        a
    } else if a == DType::C64 || b == DType::C64 {
        DType::C64
    } else if a == DType::F64 || b == DType::F64 {
        DType::F64
    } else if a == DType::F32 || b == DType::F32 {
        DType::F32
    } else if (a == DType::F16 && b == DType::BF16) || (a == DType::BF16 && b == DType::F16) {
        DType::F32
    } else if a == DType::F16 || b == DType::F16 {
        DType::F16
    } else if a == DType::BF16 || b == DType::BF16 {
        DType::BF16
    } else if a == DType::Bool {
        b
    } else if b == DType::Bool {
        a
    } else if ua && ub {
        unsigned_of(wider)
    } else if sa && sb {
        signed_of(wider)
    } else {
        let u = if ua {
            a
        } else {
            b
        };
        let s = if ua {
            b
        } else {
            a
        };
        if u == DType::U64 {
            DType::F32
        } else {
            let bu = int_bits_of(u);
            let bs = int_bits_of(s);
            let w = if 2 * bu >= bs {
                2 * bu
            } else {
                bs
            };
            signed_of(w)
        }
    }
}

/// Combining element types does not depend on their order.
pub proof fn law_promote_types_commutes(a: DType, b: DType)
    ensures
        promote_types(a, b) == promote_types(b, a),
{
}

/// Combining a result again with one of its operands' types changes nothing.
pub proof fn law_promote_types_absorbs(a: DType, b: DType)
    ensures
        promote_types(promote_types(a, b), b) == promote_types(a, b),
{
}

} // verus!

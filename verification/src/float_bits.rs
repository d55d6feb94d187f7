//! Classification of IEEE 754 bit patterns. A floating-point value crosses
//! the library boundary as its raw bit pattern; whether it is NaN, an
//! infinity or finite is decided here, on the bits alone, and proved against
//! the mask predicates below.

use vstd::prelude::*;

verus! {

pub const F64_EXP_MASK: u64 = 0x7ff0_0000_0000_0000;

pub const F64_MANTISSA_MASK: u64 = 0x000f_ffff_ffff_ffff;

pub const F64_SIGN_MASK: u64 = 0x8000_0000_0000_0000;

pub const F32_EXP_MASK: u32 = 0x7f80_0000;

pub const F32_MANTISSA_MASK: u32 = 0x007f_ffff;

pub const F32_SIGN_MASK: u32 = 0x8000_0000;

/// NaN: exponent field all ones, mantissa field non-zero.
pub open spec fn f64_bits_is_nan(bits: u64) -> bool {
    bits & F64_EXP_MASK == F64_EXP_MASK && bits & F64_MANTISSA_MASK != 0
}

/// Positive infinity is the single pattern with exponent all ones, mantissa
/// zero and sign clear.
pub open spec fn f64_bits_is_pos_inf(bits: u64) -> bool {
    bits == F64_EXP_MASK
}

/// Negative infinity is the single pattern with exponent all ones, mantissa
/// zero and sign set.
pub open spec fn f64_bits_is_neg_inf(bits: u64) -> bool {
    bits == 0xfff0_0000_0000_0000u64
}

/// Finite: exponent field not all ones.
pub open spec fn f64_bits_is_finite(bits: u64) -> bool {
    bits & F64_EXP_MASK != F64_EXP_MASK
}

/// NaN: exponent field all ones, mantissa field non-zero.
pub open spec fn f32_bits_is_nan(bits: u32) -> bool {
    bits & F32_EXP_MASK == F32_EXP_MASK && bits & F32_MANTISSA_MASK != 0
}

/// Positive infinity is the single pattern with exponent all ones, mantissa
/// zero and sign clear.
pub open spec fn f32_bits_is_pos_inf(bits: u32) -> bool {
    bits == F32_EXP_MASK
}

/// Negative infinity is the single pattern with exponent all ones, mantissa
/// zero and sign set.
pub open spec fn f32_bits_is_neg_inf(bits: u32) -> bool {
    bits == 0xff80_0000u32
}

/// Finite: exponent field not all ones.
pub open spec fn f32_bits_is_finite(bits: u32) -> bool {
    bits & F32_EXP_MASK != F32_EXP_MASK
}

/// The four disjoint shapes a floating-point bit pattern can take.
#[derive(Clone, Copy, Debug, PartialEq, Eq, Structural)]
pub enum FloatClass {
    Nan,
    PosInf,
    NegInf,
    Finite,
}

proof fn lemma_f64_mask_facts(bits: u64)
    by (bit_vector)
    ensures
        (bits & 0x7ff0_0000_0000_0000u64 == 0x7ff0_0000_0000_0000u64 && bits
            & 0x000f_ffff_ffff_ffffu64 == 0 && bits & 0x8000_0000_0000_0000u64 != 0) <==> bits
            == 0xfff0_0000_0000_0000u64,
        (bits & 0x7ff0_0000_0000_0000u64 == 0x7ff0_0000_0000_0000u64 && bits
            & 0x000f_ffff_ffff_ffffu64 == 0 && bits & 0x8000_0000_0000_0000u64 == 0) <==> bits
            == 0x7ff0_0000_0000_0000u64,
{
}

proof fn lemma_f32_mask_facts(bits: u32)
    by (bit_vector)
    ensures
        (bits & 0x7f80_0000u32 == 0x7f80_0000u32 && bits & 0x007f_ffffu32 == 0 && bits
            & 0x8000_0000u32 != 0) <==> bits == 0xff80_0000u32,
        (bits & 0x7f80_0000u32 == 0x7f80_0000u32 && bits & 0x007f_ffffu32 == 0 && bits
            & 0x8000_0000u32 == 0) <==> bits == 0x7f80_0000u32,
{
}

/// Decides the class of a 64-bit pattern, and pins each class to its mask
/// predicate.
pub fn classify_f64_bits(bits: u64) -> (c: FloatClass)
    ensures
        (c == FloatClass::Nan) == f64_bits_is_nan(bits),
        (c == FloatClass::PosInf) == f64_bits_is_pos_inf(bits),
        (c == FloatClass::NegInf) == f64_bits_is_neg_inf(bits),
        (c == FloatClass::Finite) == f64_bits_is_finite(bits),
{
    proof {
        lemma_f64_mask_facts(bits);
    }
    if bits & F64_EXP_MASK != F64_EXP_MASK {
        FloatClass::Finite
    } else if bits & F64_MANTISSA_MASK != 0 {
        FloatClass::Nan
    } else if bits & F64_SIGN_MASK != 0 {
        FloatClass::NegInf
    } else {
        FloatClass::PosInf
    }
}

/// Decides the class of a 32-bit pattern, and pins each class to its mask
/// predicate.
pub fn classify_f32_bits(bits: u32) -> (c: FloatClass)
    ensures
        (c == FloatClass::Nan) == f32_bits_is_nan(bits),
        (c == FloatClass::PosInf) == f32_bits_is_pos_inf(bits),
        (c == FloatClass::NegInf) == f32_bits_is_neg_inf(bits),
        (c == FloatClass::Finite) == f32_bits_is_finite(bits),
{
    proof {
        lemma_f32_mask_facts(bits);
    }
    if bits & F32_EXP_MASK != F32_EXP_MASK {
        FloatClass::Finite
    } else if bits & F32_MANTISSA_MASK != 0 {
        FloatClass::Nan
    } else if bits & F32_SIGN_MASK != 0 {
        FloatClass::NegInf
    } else {
        FloatClass::PosInf
    }
}

/// Every 64-bit pattern is NaN, positive infinity, negative infinity or
/// finite, and never two of these at once.
pub proof fn lemma_f64_class_partition(bits: u64)
    ensures
        f64_bits_is_finite(bits) <==> !(f64_bits_is_nan(bits) || f64_bits_is_pos_inf(bits)
            || f64_bits_is_neg_inf(bits)),
        !(f64_bits_is_nan(bits) && f64_bits_is_pos_inf(bits)),
        !(f64_bits_is_nan(bits) && f64_bits_is_neg_inf(bits)),
        !(f64_bits_is_pos_inf(bits) && f64_bits_is_neg_inf(bits)),
{
    lemma_f64_mask_facts(bits);
}

/// Every 32-bit pattern is NaN, positive infinity, negative infinity or
/// finite, and never two of these at once.
pub proof fn lemma_f32_class_partition(bits: u32)
    ensures
        f32_bits_is_finite(bits) <==> !(f32_bits_is_nan(bits) || f32_bits_is_pos_inf(bits)
            || f32_bits_is_neg_inf(bits)),
        !(f32_bits_is_nan(bits) && f32_bits_is_pos_inf(bits)),
        !(f32_bits_is_nan(bits) && f32_bits_is_neg_inf(bits)),
        !(f32_bits_is_pos_inf(bits) && f32_bits_is_neg_inf(bits)),
{
    lemma_f32_mask_facts(bits);
}

} // verus!

//! The float entry points. A checked entry decides the class of the bit
//! pattern itself: a non-finite pattern yields its fixed token, a finite one
//! yields the digit bytes the caller's shortest round-trip formatter
//! produced for exactly that pattern. A finite-only entry skips the class
//! decision and writes the digit bytes directly.

use vstd::prelude::*;

use crate::buffer::buffer_accepts;
use crate::buffer::buffer_ok;
use crate::buffer::write_prefix;
use crate::float_bits::classify_f32_bits;
use crate::float_bits::classify_f64_bits;
use crate::float_bits::f32_bits_is_finite;
use crate::float_bits::f32_bits_is_nan;
use crate::float_bits::f32_bits_is_neg_inf;
use crate::float_bits::f32_bits_is_pos_inf;
use crate::float_bits::f64_bits_is_finite;
use crate::float_bits::f64_bits_is_nan;
use crate::float_bits::f64_bits_is_neg_inf;
use crate::float_bits::f64_bits_is_pos_inf;
use crate::float_bits::lemma_f32_class_partition;
use crate::float_bits::lemma_f64_class_partition;
use crate::float_bits::FloatClass;
use crate::ZMIJ_BUFFER_SIZE;

verus! {

/// The bytes of `"NaN"`.
pub open spec fn nan_token() -> Seq<u8> {
    seq![78u8, 97u8, 78u8]
}

/// The bytes of `"inf"`.
pub open spec fn inf_token() -> Seq<u8> {
    seq![105u8, 110u8, 102u8]
}

/// The bytes of `"-inf"`.
pub open spec fn neg_inf_token() -> Seq<u8> {
    seq![45u8, 105u8, 110u8, 102u8]
}

/// What a checked 64-bit entry writes: the fixed token of a non-finite
/// pattern, else the finite digit bytes it was handed.
pub open spec fn f64_payload(bits: u64, digits: Seq<u8>) -> Seq<u8> {
    if f64_bits_is_nan(bits) {
        nan_token()
    } else if f64_bits_is_pos_inf(bits) {
        inf_token()
    } else if f64_bits_is_neg_inf(bits) {
        neg_inf_token()
    } else {
        digits
    }
}

/// What a checked 32-bit entry writes: the fixed token of a non-finite
/// pattern, else the finite digit bytes it was handed.
pub open spec fn f32_payload(bits: u32, digits: Seq<u8>) -> Seq<u8> {
    if f32_bits_is_nan(bits) {
        nan_token()
    } else if f32_bits_is_pos_inf(bits) {
        inf_token()
    } else if f32_bits_is_neg_inf(bits) {
        neg_inf_token()
    } else {
        digits
    }
}

fn nan_token_vec() -> (t: Vec<u8>)
    ensures
        t@ == nan_token(),
{
    let mut t: Vec<u8> = Vec::new();
    t.push(78);
    t.push(97);
    t.push(78);
    proof {
        assert(t@ =~= nan_token());
    }
    t
}

fn inf_token_vec() -> (t: Vec<u8>)
    ensures
        t@ == inf_token(),
{
    let mut t: Vec<u8> = Vec::new();
    t.push(105);
    t.push(110);
    t.push(102);
    proof {
        assert(t@ =~= inf_token());
    }
    t
}

fn neg_inf_token_vec() -> (t: Vec<u8>)
    ensures
        t@ == neg_inf_token(),
{
    let mut t: Vec<u8> = Vec::new();
    t.push(45);
    t.push(105);
    t.push(110);
    t.push(102);
    proof {
        assert(t@ =~= neg_inf_token());
    }
    t
}

/// Checked 64-bit formatting. `digits` must be the finite-formatter's output
/// for this very pattern; it is ignored for a non-finite pattern. Returns the
/// byte count written, or `0` — with the destination untouched — when the
/// destination is rejected or the payload cannot fit.
pub fn zmij_format_f64(bits: u64, digits: &Vec<u8>, buf: &mut Vec<u8>, buf_null: bool) -> (n:
    usize)
    ensures
        final(buf)@.len() == old(buf)@.len(),
        n <= final(buf)@.len(),
        ({
            let payload = f64_payload(bits, digits@);
            let ok = buffer_ok(buf_null, old(buf)@.len(), ZMIJ_BUFFER_SIZE as nat) && 0
                < payload.len() <= old(buf)@.len();
            &&& ok ==> n == payload.len() && final(buf)@.subrange(0, n as int) == payload
            &&& !ok ==> n == 0
            &&& final(buf)@.skip(n as int) == old(buf)@.skip(n as int)
        }),
{
    if !buffer_accepts(buf_null, buf.len(), ZMIJ_BUFFER_SIZE) {
        return 0;
    }
    let c = classify_f64_bits(bits);
    match c {
        FloatClass::Nan => {
            let t = nan_token_vec();
            write_prefix(&t, buf);
            t.len()
        },
        FloatClass::PosInf => {
            let t = inf_token_vec();
            write_prefix(&t, buf);
            t.len()
        },
        FloatClass::NegInf => {
            let t = neg_inf_token_vec();
            write_prefix(&t, buf);
            t.len()
        },
        FloatClass::Finite => {
            if digits.len() == 0 || digits.len() > buf.len() {
                return 0;
            }
            write_prefix(digits, buf);
            digits.len()
        },
    }
}

/// Checked 32-bit formatting; see `zmij_format_f64`.
pub fn zmij_format_f32(bits: u32, digits: &Vec<u8>, buf: &mut Vec<u8>, buf_null: bool) -> (n:
    usize)
    ensures
        final(buf)@.len() == old(buf)@.len(),
        n <= final(buf)@.len(),
        ({
            let payload = f32_payload(bits, digits@);
            let ok = buffer_ok(buf_null, old(buf)@.len(), ZMIJ_BUFFER_SIZE as nat) && 0
                < payload.len() <= old(buf)@.len();
            &&& ok ==> n == payload.len() && final(buf)@.subrange(0, n as int) == payload
            &&& !ok ==> n == 0
            &&& final(buf)@.skip(n as int) == old(buf)@.skip(n as int)
        }),
{
    if !buffer_accepts(buf_null, buf.len(), ZMIJ_BUFFER_SIZE) {
        return 0;
    }
    let c = classify_f32_bits(bits);
    match c {
        FloatClass::Nan => {
            let t = nan_token_vec();
            write_prefix(&t, buf);
            t.len()
        },
        FloatClass::PosInf => {
            let t = inf_token_vec();
            write_prefix(&t, buf);
            t.len()
        },
        FloatClass::NegInf => {
            let t = neg_inf_token_vec();
            write_prefix(&t, buf);
            t.len()
        },
        FloatClass::Finite => {
            if digits.len() == 0 || digits.len() > buf.len() {
                return 0;
            }
            write_prefix(digits, buf);
            digits.len()
        },
    }
}

/// Finite-only 64-bit formatting: writes the digit bytes as they are, with
/// the same destination contract as the checked entry and no class decision.
pub fn zmij_format_finite_f64(digits: &Vec<u8>, buf: &mut Vec<u8>, buf_null: bool) -> (n: usize)
    ensures
        final(buf)@.len() == old(buf)@.len(),
        n <= final(buf)@.len(),
        ({
            let ok = buffer_ok(buf_null, old(buf)@.len(), ZMIJ_BUFFER_SIZE as nat) && 0
                < digits@.len() <= old(buf)@.len();
            &&& ok ==> n == digits@.len() && final(buf)@.subrange(0, n as int) == digits@
            &&& !ok ==> n == 0
            &&& final(buf)@.skip(n as int) == old(buf)@.skip(n as int)
        }),
{
    if !buffer_accepts(buf_null, buf.len(), ZMIJ_BUFFER_SIZE) {
        return 0;
    }
    if digits.len() == 0 || digits.len() > buf.len() {
        return 0;
    }
    write_prefix(digits, buf);
    digits.len()
}

/// Finite-only 32-bit formatting; see `zmij_format_finite_f64`.
pub fn zmij_format_finite_f32(digits: &Vec<u8>, buf: &mut Vec<u8>, buf_null: bool) -> (n: usize)
    ensures
        final(buf)@.len() == old(buf)@.len(),
        n <= final(buf)@.len(),
        ({
            let ok = buffer_ok(buf_null, old(buf)@.len(), ZMIJ_BUFFER_SIZE as nat) && 0
                < digits@.len() <= old(buf)@.len();
            &&& ok ==> n == digits@.len() && final(buf)@.subrange(0, n as int) == digits@
            &&& !ok ==> n == 0
            &&& final(buf)@.skip(n as int) == old(buf)@.skip(n as int)
        }),
{
    if !buffer_accepts(buf_null, buf.len(), ZMIJ_BUFFER_SIZE) {
        return 0;
    }
    if digits.len() == 0 || digits.len() > buf.len() {
        return 0;
    }
    write_prefix(digits, buf);
    digits.len()
}

/// For a finite pattern the checked entry writes exactly what the
/// finite-only entry writes: the non-finite branch never fires.
pub proof fn lemma_f64_checked_agrees_with_finite(bits: u64, digits: Seq<u8>)
    requires
        f64_bits_is_finite(bits),
    ensures
        f64_payload(bits, digits) == digits,
{
    lemma_f64_class_partition(bits);
}

/// For a finite pattern the checked entry writes exactly what the
/// finite-only entry writes: the non-finite branch never fires.
pub proof fn lemma_f32_checked_agrees_with_finite(bits: u32, digits: Seq<u8>)
    requires
        f32_bits_is_finite(bits),
    ensures
        f32_payload(bits, digits) == digits,
{
    lemma_f32_class_partition(bits);
}

} // verus!

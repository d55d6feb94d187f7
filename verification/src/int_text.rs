//! The integer entry points: decimal text for 32- and 64-bit values, signed
//! and unsigned. Digit generation is delegated to the itoa crate through
//! trusted wrappers whose contracts state the exact decimal text; everything
//! around the call — buffer validation, the copy into the destination, the
//! length returned — is verified here.

use vstd::prelude::*;

use crate::buffer::buffer_accepts;
use crate::buffer::buffer_ok;
use crate::buffer::write_prefix;
use crate::digits::int_digits;
use crate::digits::lemma_i32_digits_len;
use crate::digits::lemma_i64_digits_len;
use crate::digits::lemma_u32_digits_len;
use crate::digits::lemma_u64_digits_len;
use crate::digits::u_digits;
use crate::ITOA_BUFFER_SIZE;

verus! {

/// Relies on itoa::Buffer::format for i64: minimal decimal digits of the
/// magnitude, preceded by a `-` byte exactly for negative values.
#[verifier::external_body]
fn itoa_digits_i64(value: i64) -> (r: Vec<u8>)
    ensures
        r@ == int_digits(value as int),
{
    let mut b = itoa::Buffer::new();
    b.format(value).as_bytes().to_vec()
}

/// Relies on itoa::Buffer::format for u64: minimal decimal digits, with zero
/// rendered as the single byte `"0"`.
#[verifier::external_body]
fn itoa_digits_u64(value: u64) -> (r: Vec<u8>)
    ensures
        r@ == u_digits(value as nat),
{
    let mut b = itoa::Buffer::new();
    b.format(value).as_bytes().to_vec()
}

/// Relies on itoa::Buffer::format for i32: minimal decimal digits of the
/// magnitude, preceded by a `-` byte exactly for negative values.
#[verifier::external_body]
fn itoa_digits_i32(value: i32) -> (r: Vec<u8>)
    ensures
        r@ == int_digits(value as int),
{
    let mut b = itoa::Buffer::new();
    b.format(value).as_bytes().to_vec()
}

/// Relies on itoa::Buffer::format for u32: minimal decimal digits, with zero
/// rendered as the single byte `"0"`.
#[verifier::external_body]
fn itoa_digits_u32(value: u32) -> (r: Vec<u8>)
    ensures
        r@ == u_digits(value as nat),
{
    let mut b = itoa::Buffer::new();
    b.format(value).as_bytes().to_vec()
}

/// Writes the decimal text of a 64-bit signed value into the destination and
/// returns the byte count, or `0` — with the destination untouched — when the
/// destination is null or shorter than `ITOA_BUFFER_SIZE`.
pub fn rust_itoa_i64(value: i64, buf: &mut Vec<u8>, buf_null: bool) -> (n: usize)
    ensures
        final(buf)@.len() == old(buf)@.len(),
        n <= final(buf)@.len(),
        ({
            let ok = buffer_ok(buf_null, old(buf)@.len(), ITOA_BUFFER_SIZE as nat);
            &&& ok ==> n == int_digits(value as int).len() && final(buf)@.subrange(0, n as int)
                == int_digits(value as int)
            &&& !ok ==> n == 0
            &&& final(buf)@.skip(n as int) == old(buf)@.skip(n as int)
        }),
{
    if !buffer_accepts(buf_null, buf.len(), ITOA_BUFFER_SIZE) {
        return 0;
    }
    let digits = itoa_digits_i64(value);
    proof {
        lemma_i64_digits_len(value);
    }
    let n = digits.len();
    write_prefix(&digits, buf);
    n
}

/// Writes the decimal text of a 64-bit unsigned value into the destination
/// and returns the byte count, or `0` — with the destination untouched — when
/// the destination is null or shorter than `ITOA_BUFFER_SIZE`.
pub fn rust_itoa_u64(value: u64, buf: &mut Vec<u8>, buf_null: bool) -> (n: usize)
    ensures
        final(buf)@.len() == old(buf)@.len(),
        n <= final(buf)@.len(),
        ({
            let ok = buffer_ok(buf_null, old(buf)@.len(), ITOA_BUFFER_SIZE as nat);
            &&& ok ==> n == u_digits(value as nat).len() && final(buf)@.subrange(0, n as int)
                == u_digits(value as nat)
            &&& !ok ==> n == 0
            &&& final(buf)@.skip(n as int) == old(buf)@.skip(n as int)
        }),
{
    if !buffer_accepts(buf_null, buf.len(), ITOA_BUFFER_SIZE) {
        return 0;
    }
    let digits = itoa_digits_u64(value);
    proof {
        lemma_u64_digits_len(value);
    }
    let n = digits.len();
    write_prefix(&digits, buf);
    n
}

/// Writes the decimal text of a 32-bit signed value into the destination and
/// returns the byte count, or `0` — with the destination untouched — when the
/// destination is null or shorter than `ITOA_BUFFER_SIZE`.
pub fn rust_itoa_i32(value: i32, buf: &mut Vec<u8>, buf_null: bool) -> (n: usize)
    ensures
        final(buf)@.len() == old(buf)@.len(),
        n <= final(buf)@.len(),
        ({
            let ok = buffer_ok(buf_null, old(buf)@.len(), ITOA_BUFFER_SIZE as nat);
            &&& ok ==> n == int_digits(value as int).len() && final(buf)@.subrange(0, n as int)
                == int_digits(value as int)
            &&& !ok ==> n == 0
            &&& final(buf)@.skip(n as int) == old(buf)@.skip(n as int)
        }),
{
    if !buffer_accepts(buf_null, buf.len(), ITOA_BUFFER_SIZE) {
        return 0;
    }
    let digits = itoa_digits_i32(value);
    proof {
        lemma_i32_digits_len(value);
    }
    let n = digits.len();
    write_prefix(&digits, buf);
    n
}

/// Writes the decimal text of a 32-bit unsigned value into the destination
/// and returns the byte count, or `0` — with the destination untouched — when
/// the destination is null or shorter than `ITOA_BUFFER_SIZE`.
pub fn rust_itoa_u32(value: u32, buf: &mut Vec<u8>, buf_null: bool) -> (n: usize)
    ensures
        final(buf)@.len() == old(buf)@.len(),
        n <= final(buf)@.len(),
        ({
            let ok = buffer_ok(buf_null, old(buf)@.len(), ITOA_BUFFER_SIZE as nat);
            &&& ok ==> n == u_digits(value as nat).len() && final(buf)@.subrange(0, n as int)
                == u_digits(value as nat)
            &&& !ok ==> n == 0
            &&& final(buf)@.skip(n as int) == old(buf)@.skip(n as int)
        }),
{
    if !buffer_accepts(buf_null, buf.len(), ITOA_BUFFER_SIZE) {
        return 0;
    }
    let digits = itoa_digits_u32(value);
    proof {
        lemma_u32_digits_len(value);
    }
    let n = digits.len();
    write_prefix(&digits, buf);
    n
}

} // verus!

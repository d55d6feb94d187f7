//! Decimal text encoding of integer and floating-point values into
//! caller-supplied, fixed-size byte buffers.
//!
//! Every entry point validates the destination first (a modelled null flag and
//! a minimum length per value family), writes at most the returned count of
//! bytes at the front of the buffer, and leaves everything else untouched.
//! A return of `0` means the destination was rejected and not written at all.
//!
//! Floating-point values cross this boundary as their IEEE 754 bit patterns;
//! the digit text of a finite value is produced by the caller's shortest
//! round-trip formatter and handed in as bytes, while the non-finite tokens
//! and all buffer handling are decided and proved here.

use vstd::prelude::*;

pub mod buffer;
pub mod digits;
pub mod float_bits;
pub mod float_text;
pub mod int_text;

pub use float_text::zmij_format_f32;
pub use float_text::zmij_format_f64;
pub use float_text::zmij_format_finite_f32;
pub use float_text::zmij_format_finite_f64;
pub use int_text::rust_itoa_i32;
pub use int_text::rust_itoa_i64;
pub use int_text::rust_itoa_u32;
pub use int_text::rust_itoa_u64;

verus! {

/// Minimum destination length for the integer entry points: the longest
/// decimal text of a 128-bit signed value, used uniformly for all widths.
pub const ITOA_BUFFER_SIZE: usize = 40;

/// Minimum destination length for the float entry points: room for a sign,
/// 17 significant digits, a decimal point, an exponent, or a non-finite token.
pub const ZMIJ_BUFFER_SIZE: usize = 24;

} // verus!

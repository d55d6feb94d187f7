//! The decimal text of an integer, as a mathematical sequence of ASCII bytes,
//! together with the lemmas the entry points and their callers rely on:
//! the text parses back to the value it was made from, its length is bounded
//! by the width of the machine integer, and it starts with `-` exactly for
//! negative values.

use vstd::prelude::*;

verus! {

/// The minimal decimal digit text of a non-negative integer: no leading
/// zeros, except that zero itself is the single byte `"0"`.
pub open spec fn u_digits(n: nat) -> Seq<u8>
    decreases n,
{
    if n < 10 {
        seq![(48 + n) as u8]
    } else {
        u_digits(n / 10).push((48 + n % 10) as u8)
    }
}

/// The decimal text of a signed integer: a leading `-` byte for negative
/// values, then the digits of the magnitude.
pub open spec fn int_digits(i: int) -> Seq<u8> {
    if i < 0 {
        seq![45u8] + u_digits((-i) as nat)
    } else {
        u_digits(i as nat)
    }
}

/// The value a run of decimal digit bytes denotes, most significant first.
pub open spec fn dec_value(s: Seq<u8>) -> int
    decreases s.len(),
{
    if s.len() == 0 {
        0
    } else {
        dec_value(s.drop_last()) * 10 + s.last() - 48
    }
}

/// The signed value a decimal text denotes: a leading `-` byte negates the
/// value of the remaining digits.
pub open spec fn int_value(s: Seq<u8>) -> int {
    if s.len() > 0 && s[0] == 45 {
        -dec_value(s.skip(1))
    } else {
        dec_value(s)
    }
}

/// Powers of ten, for the digit-count bounds.
pub open spec fn pow10(k: nat) -> nat
    decreases k,
{
    if k == 0 {
        1
    } else {
        10 * pow10((k - 1) as nat)
    }
}

/// Digit text is never empty and holds digit bytes only.
pub proof fn lemma_u_digits_in_range(n: nat)
    ensures
        u_digits(n).len() >= 1,
        forall|j: int| 0 <= j < u_digits(n).len() ==> 48 <= #[trigger] u_digits(n)[j] <= 57,
    decreases n,
{
    if n >= 10 {
        lemma_u_digits_in_range(n / 10);
    }
}

/// The digit text of `n` parses back to `n`.
pub proof fn lemma_u_digits_value(n: nat)
    ensures
        dec_value(u_digits(n)) == n,
    decreases n,
{
    if n < 10 {
        let s = u_digits(n);
        assert(s.drop_last() =~= Seq::<u8>::empty());
        assert(dec_value(Seq::<u8>::empty()) == 0);
        assert(s.last() == (48 + n) as u8);
        assert(dec_value(s) == 0 * 10 + (48 + n) - 48);
    } else {
        lemma_u_digits_value(n / 10);
        let s = u_digits(n);
        assert(s.drop_last() =~= u_digits(n / 10));
        assert(s.last() == (48 + n % 10) as u8);
        assert(dec_value(s) == (n / 10) * 10 + n % 10);
    }
}

/// The signed decimal text of `i` parses back to `i`: formatting loses
/// nothing.
pub proof fn lemma_int_digits_value(i: int)
    ensures
        int_value(int_digits(i)) == i,
{
    if i < 0 {
        let s = int_digits(i);
        lemma_u_digits_in_range((-i) as nat);
        assert(s[0] == 45);
        assert(s.skip(1) =~= u_digits((-i) as nat));
        lemma_u_digits_value((-i) as nat);
    } else {
        lemma_u_digits_in_range(i as nat);
        lemma_u_digits_value(i as nat);
        assert(int_digits(i)[0] != 45);
    }
}

/// The decimal text of a signed integer starts with the `-` byte exactly
/// when the value is negative.
pub proof fn lemma_int_digits_sign(i: int)
    ensures
        int_digits(i).len() >= 1,
        (int_digits(i)[0] == 45) == (i < 0),
{
    if i < 0 {
        lemma_u_digits_in_range((-i) as nat);
    } else {
        lemma_u_digits_in_range(i as nat);
    }
}

/// A value below `pow10(k)` takes at most `k` digits.
pub proof fn lemma_u_digits_len_bound(n: nat, k: nat)
    requires
        1 <= k,
        n < pow10(k),
    ensures
        u_digits(n).len() <= k,
    decreases n,
{
    if n < 10 {
    } else {
        if k == 1 {
            assert(pow10(1) == 10) by {
                reveal_with_fuel(pow10, 2);
            }
            assert(false);
        }
        assert(pow10(k) == 10 * pow10((k - 1) as nat));
        assert(n / 10 < pow10((k - 1) as nat)) by (nonlinear_arith)
            requires
                n < 10 * pow10((k - 1) as nat),
        ;
        lemma_u_digits_len_bound(n / 10, (k - 1) as nat);
    }
}

/// Every 64-bit unsigned value has at most 20 digits.
pub proof fn lemma_u64_digits_len(v: u64)
    ensures
        1 <= u_digits(v as nat).len() <= 20,
{
    lemma_u_digits_in_range(v as nat);
    assert(pow10(20) == 100000000000000000000) by {
        reveal_with_fuel(pow10, 21);
    }
    lemma_u_digits_len_bound(v as nat, 20);
}

/// Every 64-bit signed value has at most 20 bytes of text, sign included.
pub proof fn lemma_i64_digits_len(v: i64)
    ensures
        1 <= int_digits(v as int).len() <= 20,
{
    assert(pow10(19) == 10000000000000000000) by {
        reveal_with_fuel(pow10, 20);
    }
    if v < 0 {
        lemma_u_digits_in_range((-(v as int)) as nat);
        lemma_u_digits_len_bound((-(v as int)) as nat, 19);
    } else {
        lemma_u_digits_in_range(v as nat);
        lemma_u_digits_len_bound(v as nat, 19);
    }
}

/// Every 32-bit unsigned value has at most 10 digits.
pub proof fn lemma_u32_digits_len(v: u32)
    ensures
        1 <= u_digits(v as nat).len() <= 10,
{
    lemma_u_digits_in_range(v as nat);
    assert(pow10(10) == 10000000000) by {
        reveal_with_fuel(pow10, 11);
    }
    lemma_u_digits_len_bound(v as nat, 10);
}

/// Every 32-bit signed value has at most 11 bytes of text, sign included.
pub proof fn lemma_i32_digits_len(v: i32)
    ensures
        1 <= int_digits(v as int).len() <= 11,
{
    assert(pow10(10) == 10000000000) by {
        reveal_with_fuel(pow10, 11);
    }
    if v < 0 {
        lemma_u_digits_in_range((-(v as int)) as nat);
        lemma_u_digits_len_bound((-(v as int)) as nat, 10);
    } else {
        lemma_u_digits_in_range(v as nat);
        lemma_u_digits_len_bound(v as nat, 10);
    }
}

} // verus!

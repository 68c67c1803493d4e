//! Decimal rendering of unsigned integers.

use vstd::prelude::*;

verus! {

/// The ASCII code of the digit zero.
pub const ASCII_ZERO: u8 = 48;

/// The decimal digits of `n` in ASCII, most significant first, without
/// leading zeros; `0` has the one digit `0`.
pub open spec fn decimal_digits(n: nat) -> Seq<u8>
    decreases n,
{
    if n < 10 {
        seq![(ASCII_ZERO + n) as u8]
    } else {
        decimal_digits(n / 10).push((ASCII_ZERO + n % 10) as u8)
    }
}

/// Appends the decimal digits of `n` to `out`.
pub fn push_decimal(out: &mut Vec<u8>, n: u64)
    ensures
        final(out)@ == old(out)@ + decimal_digits(n as nat),
{
    // The digits, least significant first.
    let mut reversed: Vec<u8> = Vec::new();
    let mut rest: u64 = n;
    while rest >= 10
        invariant
            decimal_digits(n as nat) == decimal_digits(rest as nat) + reversed@.reverse(),
        decreases rest,
    {
        let digit: u8 = ASCII_ZERO + (rest % 10) as u8;
        proof {
            assert(reversed@.push(digit).reverse() =~= seq![digit] + reversed@.reverse());
            assert(decimal_digits(rest as nat) == decimal_digits((rest / 10) as nat).push(digit));
            assert(decimal_digits((rest / 10) as nat).push(digit) + reversed@.reverse()
                =~= decimal_digits((rest / 10) as nat) + (seq![digit] + reversed@.reverse()));
        }
        reversed.push(digit);
        rest = rest / 10;
    }
    let leading: u8 = ASCII_ZERO + rest as u8;
    proof {
        assert(reversed@.push(leading).reverse() =~= seq![leading] + reversed@.reverse());
        assert(decimal_digits(rest as nat) == seq![leading]);
    }
    reversed.push(leading);
    assert(reversed@.reverse() == decimal_digits(n as nat));
    let mut i: usize = reversed.len();
    while i > 0
        invariant
            i <= reversed@.len(),
            out@ == old(out)@ + reversed@.reverse().subrange(0, reversed@.len() - i),
        decreases i,
    {
        i -= 1;
        proof {
            let done = reversed@.len() - i - 1;
            assert(reversed@.reverse().subrange(0, done + 1) =~= reversed@.reverse().subrange(
                0,
                done,
            ).push(reversed@[i as int]));
            assert(out@.push(reversed@[i as int]) =~= old(out)@ + reversed@.reverse().subrange(
                0,
                done,
            ).push(reversed@[i as int]));
        }
        out.push(reversed[i]);
    }
    assert(reversed@.reverse().subrange(0, reversed@.len() as int) =~= reversed@.reverse());
}

} // verus!

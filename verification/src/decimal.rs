//! Decimal numerals as ASCII bytes.

use vstd::prelude::*;

verus! {

/// The ASCII code of the decimal digit `d`.
pub open spec fn digit_byte(d: nat) -> u8
    recommends
        d < 10,
{
    (48 + d) as u8
}

/// The decimal numeral of `n`: most significant digit first, no leading zero
/// but for zero itself.
pub open spec fn numeral(n: nat) -> Seq<u8>
    decreases n,
{
    if n < 10 {
        seq![digit_byte(n)]
    } else {
        numeral(n / 10).push(digit_byte(n % 10))
    }
}

/// The decimal text of a signed integer: the numeral of its magnitude, behind
/// a minus sign where it is negative.
pub open spec fn decimal_text(n: int) -> Seq<u8> {
    if n < 0 {
        seq![45u8] + numeral((-n) as nat)
    } else {
        numeral(n as nat)
    }
}

/// The number that a sequence of ASCII digits denotes.
pub open spec fn numeral_value(digits: Seq<u8>) -> nat
    decreases digits.len(),
{
    if digits.len() == 0 {
        0
    } else {
        (numeral_value(digits.drop_last()) * 10 + (digits.last() - 48)) as nat
    }
}

/// The largest value that can be left to write once `written` digits of a
/// `u32` have been produced, least significant first.
spec fn headroom(written: nat) -> nat
    decreases written,
{
    if written == 0 {
        0xffff_ffff
    } else {
        headroom((written - 1) as nat) / 10
    }
}

/// Every byte of a numeral is an ASCII digit, and a numeral is never empty.
pub proof fn lemma_numeral_is_digits(n: nat)
    ensures
        numeral(n).len() >= 1,
        forall|i: int| 0 <= i < numeral(n).len() ==> 48 <= #[trigger] numeral(n)[i] <= 57,
    decreases n,
{
    if n >= 10 {
        lemma_numeral_is_digits(n / 10);
    }
}

/// Reading a numeral back gives the number it was written for.
pub proof fn lemma_numeral_value(n: nat)
    ensures
        numeral_value(numeral(n)) == n,
    decreases n,
{
    if n < 10 {
        assert(numeral(n).drop_last() =~= Seq::<u8>::empty());
        assert(numeral_value(numeral(n).drop_last()) == 0);
    } else {
        lemma_numeral_value(n / 10);
        assert(numeral(n).drop_last() =~= numeral(n / 10));
    }
}

/// Different numbers have different numerals.
pub proof fn lemma_numeral_injective(a: nat, b: nat)
    requires
        numeral(a) == numeral(b),
    ensures
        a == b,
{
    lemma_numeral_value(a);
    lemma_numeral_value(b);
}

/// Different integers have different decimal texts.
pub proof fn lemma_decimal_text_injective(a: int, b: int)
    requires
        decimal_text(a) == decimal_text(b),
    ensures
        a == b,
{
    let ma = (if a < 0 { -a } else { a }) as nat;
    let mb = (if b < 0 { -b } else { b }) as nat;
    lemma_numeral_is_digits(ma);
    lemma_numeral_is_digits(mb);
    if a < 0 && b < 0 {
        assert(numeral(ma) =~= decimal_text(a).subrange(1, decimal_text(a).len() as int));
        assert(numeral(mb) =~= decimal_text(b).subrange(1, decimal_text(b).len() as int));
        lemma_numeral_injective(ma, mb);
    } else if a >= 0 && b >= 0 {
        lemma_numeral_injective(ma, mb);
    } else if a < 0 {
        assert(decimal_text(a)[0] == 45);
        assert(decimal_text(b)[0] == numeral(mb)[0]);
    } else {
        assert(decimal_text(b)[0] == 45);
        assert(decimal_text(a)[0] == numeral(ma)[0]);
    }
}

/// A numeral has at most ten digits where the number fits in 32 bits.
pub proof fn lemma_numeral_len_u32(n: nat)
    requires
        n <= 0xffff_ffff,
    ensures
        numeral(n).len() <= 10,
{
    reveal_with_fuel(numeral, 11);
}

/// Appends the numeral of `n` to `out`.
pub fn push_numeral(out: &mut Vec<u8>, n: u32)
    ensures
        final(out)@ == old(out)@ + numeral(n as nat),
{
    let mut digits: [u8; 10] = [0u8; 10];
    let mut start: usize = 10;
    let mut rest: u32 = n;
    loop
        invariant_except_break
            start <= 10,
            start < 10 ==> rest > 0,
            rest <= headroom((10 - start) as nat),
            numeral(n as nat) == numeral(rest as nat) + digits@.subrange(start as int, 10),
        ensures
            start < 10,
            numeral(n as nat) == digits@.subrange(start as int, 10),
        decreases start,
    {
        proof {
            reveal_with_fuel(headroom, 11);
        }
        let ghost tail = digits@.subrange(start as int, 10);
        let low: u8 = (rest % 10) as u8;
        start = start - 1;
        digits[start] = 48u8 + low;
        assert(numeral(rest as nat) + tail =~= if rest < 10 {
            digits@.subrange(start as int, 10)
        } else {
            numeral((rest / 10) as nat) + digits@.subrange(start as int, 10)
        });
        rest = rest / 10;
        if rest == 0 {
            break ;
        }
    }
    let ghost before = out@;
    let mut at: usize = start;
    while at < 10
        invariant
            start <= at <= 10,
            out@ == before + digits@.subrange(start as int, at as int),
        decreases 10 - at,
    {
        out.push(digits[at]);
        at = at + 1;
        assert(out@ =~= before + digits@.subrange(start as int, at as int));
    }
}

/// Appends the decimal text of `n` to `out`.
pub fn push_decimal(out: &mut Vec<u8>, n: i32)
    ensures
        final(out)@ == old(out)@ + decimal_text(n as int),
{
    let wide: i64 = n as i64;
    if wide < 0 {
        out.push(45u8);
        let magnitude: u32 = (-wide) as u32;
        push_numeral(out, magnitude);
        assert(out@ =~= old(out)@ + decimal_text(n as int));
    } else {
        push_numeral(out, wide as u32);
    }
}

} // verus!

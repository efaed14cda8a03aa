//! Canonical decimal numerals.

use crate::bytes::{all_digits, is_all_digits, is_digit};
use vstd::prelude::*;

verus! {

/// The decimal numeral of `n`, without leading zeros.
pub open spec fn decimal(n: nat) -> Seq<u8>
    decreases n,
{
    if n < 10 {
        seq![(48 + n) as u8]
    } else {
        decimal(n / 10).push((48 + n % 10) as u8)
    }
}

/// The number that digits stand for.
pub open spec fn decimal_value(digits: Seq<u8>) -> nat
    decreases digits.len(),
{
    if digits.len() == 0 {
        0
    } else {
        10 * decimal_value(digits.drop_last()) + (digits.last() - 48) as nat
    }
}

/// Digits without a superfluous leading zero.
pub open spec fn is_numeral(digits: Seq<u8>) -> bool {
    digits.len() != 0 && all_digits(digits) && (digits.len() > 1 ==> digits[0] != 48)
}

/// A numeral is a numeral, and stands for its number.
pub proof fn lemma_decimal_is_numeral(n: nat)
    ensures
        is_numeral(decimal(n)),
        decimal_value(decimal(n)) == n,
        n != 0 ==> decimal(n)[0] != 48,
    decreases n,
{
    reveal_with_fuel(decimal_value, 2);
    if n < 10 {
        let digits = decimal(n);
        assert(digits.drop_last() =~= Seq::<u8>::empty());
    } else {
        lemma_decimal_is_numeral(n / 10);
        let head = decimal(n / 10);
        let digits = decimal(n);
        assert(digits.drop_last() =~= head);
        assert(digits.last() == (48 + n % 10) as u8);
        assert forall|i: int| 0 <= i < digits.len() implies is_digit(#[trigger] digits[i]) by {
            if i < head.len() {
                assert(digits[i] == head[i]);
            }
        }
        assert(digits[0] == head[0]);
    }
}

/// Digits that do not begin with a zero stand for no zero.
proof fn lemma_value_is_positive(digits: Seq<u8>)
    requires
        digits.len() != 0,
        all_digits(digits),
        digits[0] != 48,
    ensures
        decimal_value(digits) >= 1,
    decreases digits.len(),
{
    assert(is_digit(digits[0]));
    if digits.len() > 1 {
        let head = digits.drop_last();
        assert(head[0] == digits[0]);
        assert forall|i: int| 0 <= i < head.len() implies is_digit(#[trigger] head[i]) by {
            assert(head[i] == digits[i]);
        }
        lemma_value_is_positive(head);
    }
}

/// A numeral is the numeral of the number that it stands for.
pub proof fn lemma_numeral_is_decimal(digits: Seq<u8>)
    requires
        is_numeral(digits),
    ensures
        decimal(decimal_value(digits)) == digits,
    decreases digits.len(),
{
    reveal_with_fuel(decimal_value, 2);
    let head = digits.drop_last();
    let last = (digits.last() - 48) as nat;
    assert(is_digit(digits.last()));
    if digits.len() == 1 {
        assert(head.len() == 0);
        assert(decimal(decimal_value(digits)) =~= digits);
    } else {
        assert forall|i: int| 0 <= i < head.len() implies is_digit(#[trigger] head[i]) by {
            assert(head[i] == digits[i]);
        }
        assert(head[0] == digits[0]);
        lemma_value_is_positive(head);
        lemma_numeral_is_decimal(head);
        let value = decimal_value(digits);
        assert(value / 10 == decimal_value(head) && value % 10 == last);
        assert(decimal(value) =~= head.push(digits.last()));
        assert(digits =~= head.push(digits.last()));
    }
}

/// More digits stand for no smaller number.
proof fn lemma_value_grows(digits: Seq<u8>, count: int)
    requires
        0 <= count <= digits.len(),
        all_digits(digits),
    ensures
        decimal_value(digits.subrange(0, count)) <= decimal_value(digits),
    decreases digits.len() - count,
{
    if count == digits.len() {
        assert(digits.subrange(0, count) =~= digits);
    } else {
        let longer = digits.subrange(0, count + 1);
        assert(longer.drop_last() =~= digits.subrange(0, count));
        lemma_value_grows(digits, count + 1);
    }
}

/// Appends the decimal numeral of `n`.
pub fn push_decimal(out: &mut Vec<u8>, n: u64)
    ensures
        final(out)@ == old(out)@ + decimal(n as nat),
    decreases n,
{
    if n >= 10 {
        push_decimal(out, n / 10);
    }
    let digit: u8 = 48 + (n % 10) as u8;
    out.push(digit);
    assert(out@ =~= old(out)@ + decimal(n as nat));
}

/// The decimal digit of `d`.
pub open spec fn digit_char(d: nat) -> char {
    (48 + d) as u8 as char
}

/// The decimal numeral of `n`, as text.
pub open spec fn decimal_text(n: nat) -> Seq<char>
    decreases n,
{
    if n < 10 {
        seq![digit_char(n)]
    } else {
        decimal_text(n / 10).push(digit_char(n % 10))
    }
}

fn digit_text(d: u64) -> (text: &'static str)
    requires
        d < 10,
    ensures
        text@ == seq![digit_char(d as nat)],
{
    proof {
        reveal_strlit("0");
        reveal_strlit("1");
        reveal_strlit("2");
        reveal_strlit("3");
        reveal_strlit("4");
        reveal_strlit("5");
        reveal_strlit("6");
        reveal_strlit("7");
        reveal_strlit("8");
        reveal_strlit("9");
    }
    let text = match d {
        0 => "0",
        1 => "1",
        2 => "2",
        3 => "3",
        4 => "4",
        5 => "5",
        6 => "6",
        7 => "7",
        8 => "8",
        _ => "9",
    };
    assert(text@ =~= seq![digit_char(d as nat)]);
    text
}

/// Appends the decimal numeral of `n`, as text.
pub fn append_decimal(out: &mut String, n: u64)
    ensures
        final(out)@ == old(out)@ + decimal_text(n as nat),
    decreases n,
{
    if n >= 10 {
        append_decimal(out, n / 10);
    }
    out.append(digit_text(n % 10));
    assert(out@ =~= old(out)@ + decimal_text(n as nat));
}

/// Whether the bytes are digits without a superfluous leading zero.
pub fn is_canonical(digits: &[u8]) -> (r: bool)
    ensures
        r == is_numeral(digits@),
{
    digits.len() != 0 && is_all_digits(digits) && !(digits.len() > 1 && digits[0] == 48)
}

/// The number that a numeral stands for, where it fits into 32 bits.
pub fn parse_u32(digits: &[u8]) -> (r: Option<u32>)
    requires
        all_digits(digits@),
    ensures
        r is Some <==> decimal_value(digits@) <= u32::MAX,
        r matches Some(value) ==> value == decimal_value(digits@),
{
    let mut value: u64 = 0;
    let mut i: usize = 0;
    assert(digits@.subrange(0, 0) =~= Seq::<u8>::empty());
    while i < digits.len()
        invariant
            i <= digits@.len(),
            all_digits(digits@),
            value <= u32::MAX,
            value == decimal_value(digits@.subrange(0, i as int)),
        decreases digits@.len() - i,
    {
        let ghost longer = digits@.subrange(0, i as int + 1);
        proof {
            assert(longer.drop_last() =~= digits@.subrange(0, i as int));
            assert(is_digit(digits@[i as int]));
        }
        value = 10 * value + (digits[i] - 48) as u64;
        if value > 4_294_967_295 {
            proof {
                lemma_value_grows(digits@, i as int + 1);
            }
            return None;
        }
        i += 1;
    }
    assert(digits@.subrange(0, digits@.len() as int) =~= digits@);
    Some(value as u32)
}

} // verus!

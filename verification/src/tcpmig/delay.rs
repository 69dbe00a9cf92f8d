//! The `MIG_DELAY` setting.

use vstd::prelude::*;
use vstd::string::StrSliceExecFns;

verus! {

/// Is `c` a decimal digit?
pub open spec fn is_digit(c: char) -> bool {
    '0' <= c <= '9'
}

/// The number that a row of decimal digits stands for.
pub open spec fn digits_value(digits: Seq<char>) -> nat
    decreases digits.len(),
{
    if digits.len() == 0 {
        0
    } else {
        digits_value(digits.drop_last()) * 10 + (digits.last() as nat - '0' as nat) as nat
    }
}

/// `text` without a plus sign in front.
pub open spec fn unsigned_part(text: Seq<char>) -> Seq<char> {
    if text.len() > 0 && text[0] == '+' {
        text.skip(1)
    } else {
        text
    }
}

/// The number written in `text`: decimal digits, at least one, with or without
/// a plus sign in front, and nothing else. It has to fit 32 bits.
pub open spec fn decimal_u32(text: Seq<char>) -> Option<u32> {
    let digits = unsigned_part(text);
    if digits.len() > 0 && (forall|i: int| 0 <= i < digits.len() ==> is_digit(#[trigger] digits[i]))
        && digits_value(digits) <= u32::MAX {
        Some(digits_value(digits) as u32)
    } else {
        None
    }
}

proof fn lemma_digits_value_grows(digits: Seq<char>, n: int)
    requires
        0 <= n <= digits.len(),
        forall|i: int| 0 <= i < digits.len() ==> is_digit(#[trigger] digits[i]),
    ensures
        digits_value(digits.take(n)) <= digits_value(digits),
    decreases digits.len() - n,
{
    if n < digits.len() {
        lemma_digits_value_grows(digits, n + 1);
        assert(digits.take(n + 1).drop_last() =~= digits.take(n));
    } else {
        assert(digits.take(n) =~= digits);
    }
}

/// The delay that the variable asks for: none where it is not set. There is no
/// answer where it holds something other than a number.
pub fn parse_mig_delay(var: Option<&str>) -> (delay: Option<u32>)
    ensures
        delay == (match var {
            Some(text) => decimal_u32(text@),
            None => Some(0u32),
        }),
{
    let text: &str = match var {
        Some(text) => text,
        None => {
            return Some(0);
        },
    };
    let len: usize = text.unicode_len();
    let start: usize = if len > 0 && text.get_char(0) == '+' {
        1
    } else {
        0
    };
    let ghost digits = unsigned_part(text@);
    assert(digits =~= text@.skip(start as int));
    if start == len {
        return None;
    }
    let mut value: u32 = 0;
    let mut i: usize = start;
    while i < len
        invariant
            start <= i <= len,
            len == text@.len(),
            start < len,
            var == Some(text),
            digits == unsigned_part(text@),
            digits == text@.skip(start as int),
            forall|j: int| 0 <= j < i - start ==> is_digit(#[trigger] digits[j]),
            value == digits_value(digits.take(i - start)),
        decreases len - i,
    {
        let c: char = text.get_char(i);
        assert(c == digits[i - start]);
        if c < '0' || '9' < c {
            return None;
        }
        let digit: u32 = (c as u32) - ('0' as u32);
        let ghost k: int = i - start;
        assert(digits.take(k + 1).drop_last() =~= digits.take(k));
        if value > u32::MAX / 10 || (value == u32::MAX / 10 && digit > u32::MAX % 10) {
            proof {
                if forall|j: int| 0 <= j < digits.len() ==> is_digit(#[trigger] digits[j]) {
                    lemma_digits_value_grows(digits, k + 1);
                }
            }
            return None;
        }
        value = value * 10 + digit;
        i += 1;
    }
    assert(digits.take(len - start) =~= digits);
    Some(value)
}

/// One digit is a number, and one more digit behind a number makes it ten times as
/// large and adds the digit, as long as that fits 32 bits. Where it does not, or no
/// longer did, there is no number.
pub proof fn law_digit_by_digit(text: Seq<char>, c: char)
    requires
        '0' <= c <= '9',
    ensures
        decimal_u32(seq![c]) == Some((c as int - 48) as u32),
        decimal_u32(text) matches Some(v) ==> decimal_u32(text.push(c)) == (if v * 10 + (c as int
            - 48) <= 0xffff_ffff {
            Some((v * 10 + (c as int - 48)) as u32)
        } else {
            None
        }),
        (text.len() > 0 && text != seq!['+'] && decimal_u32(text) is None) ==> decimal_u32(
            text.push(c),
        ) is None,
{
    reveal_with_fuel(digits_value, 2);
    assert(unsigned_part(seq![c]) =~= seq![c]);
    assert(seq![c].drop_last() =~= Seq::<char>::empty());
    if text.len() > 0 {
        let digits = unsigned_part(text);
        let longer = unsigned_part(text.push(c));
        assert(longer =~= digits.push(c));
        assert(longer.drop_last() =~= digits);
        assert(longer.last() == c);
        if text.len() == 1 && text[0] == '+' {
            assert(text =~= seq!['+']);
        }
        if decimal_u32(text) is Some {
            assert forall|i: int| 0 <= i < longer.len() implies is_digit(#[trigger] longer[i]) by {
                if i < digits.len() {
                    assert(longer[i] == digits[i]);
                }
            }
        } else if text != seq!['+'] {
            if forall|i: int| 0 <= i < longer.len() ==> is_digit(#[trigger] longer[i]) {
                assert forall|i: int| 0 <= i < digits.len() implies is_digit(
                    #[trigger] digits[i],
                ) by {
                    assert(digits[i] == longer[i]);
                }
            }
        }
    }
}

/// A plus sign in front of a number that has none changes nothing, and there is no
/// number without a digit.
pub proof fn law_plus_sign(text: Seq<char>)
    ensures
        text.len() > 0 && text[0] != '+' ==> decimal_u32(seq!['+'] + text) == decimal_u32(text),
        decimal_u32(Seq::<char>::empty()) is None,
        decimal_u32(seq!['+']) is None,
{
    assert((seq!['+'] + text).skip(1) =~= text);
    assert(seq!['+'].skip(1) =~= Seq::<char>::empty());
}

/// Any character but a digit, and but a plus sign in front, spoils a number.
pub proof fn law_stray_character(text: Seq<char>, i: int)
    requires
        0 <= i < text.len(),
        !('0' <= text[i] <= '9'),
        !(i == 0 && text[i] == '+'),
    ensures
        decimal_u32(text) is None,
{
    let digits = unsigned_part(text);
    if text[0] == '+' {
        assert(digits[i - 1] == text[i]);
        assert(!is_digit(digits[i - 1]));
    } else {
        assert(!is_digit(digits[i]));
    }
}

} // verus!

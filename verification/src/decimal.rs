//! Decimal numerals.

use vstd::prelude::*;

verus! {

/// The character that stands for the digit `d` in base 10.
pub open spec fn decimal_digit(d: nat) -> char {
    ('0' as int + d) as char
}

/// The number `n` in base 10, without leading zeros; `0` for zero.
pub open spec fn decimal(n: nat) -> Seq<char>
    decreases n,
{
    if n < 10 {
        seq![decimal_digit(n)]
    } else {
        decimal(n / 10).push(decimal_digit(n % 10))
    }
}

/// The number that the digits of `text` write in base 10.
pub open spec fn decimal_value(text: Seq<char>) -> nat
    decreases text.len(),
{
    if text.len() == 0 {
        0
    } else {
        (decimal_value(text.drop_last()) * 10 + (text.last() as int - '0' as int)) as nat
    }
}

/// Reading the decimal form of a number gives back the number.
pub proof fn lemma_decimal_value(n: nat)
    ensures
        decimal_value(decimal(n)) == n,
    decreases n,
{
    let text = decimal(n);
    if n < 10 {
        assert(text.drop_last() =~= seq![]);
        assert(decimal_value(text.drop_last()) == 0);
    } else {
        lemma_decimal_value(n / 10);
        assert(text.drop_last() =~= decimal(n / 10));
    }
}

/// The one-character text of the digit `d`.
fn digit_text(d: u64) -> (text: &'static str)
    requires
        d < 10,
    ensures
        text@ == seq![decimal_digit(d as nat)],
{
    proof {
        reveal_strlit("0");
        reveal_strlit("1");
        reveal_strlit("2");
        reveal_strlit("3");
        reveal_strlit("4");
        reveal_strlit("5");
        reveal_strlit("6");
        reveal_strlit("7");
        reveal_strlit("8");
        reveal_strlit("9");
    }
    match d {
        0 => "0",
        1 => "1",
        2 => "2",
        3 => "3",
        4 => "4",
        5 => "5",
        6 => "6",
        7 => "7",
        8 => "8",
        _ => "9",
    }
}

/// The decimal form of `n`.
pub fn to_decimal(n: u64) -> (text: String)
    ensures
        text@ == decimal(n as nat),
    decreases n,
{
    if n < 10 {
        digit_text(n).to_string()
    } else {
        let mut text = to_decimal(n / 10);
        text.append(digit_text(n % 10));
        text
    }
}

/// A numeral is made of the digits `0` to `9`, and starts with `0` only where it is that alone.
pub proof fn lemma_decimal_digits(n: nat)
    ensures
        decimal(n).len() > 0,
        forall|i: int| 0 <= i < decimal(n).len() ==> '0' <= #[trigger] decimal(n)[i] <= '9',
        decimal(n)[0] == '0' ==> decimal(n) == "0"@,
    decreases n,
{
    reveal_strlit("0");
    if n < 10 {
        assert(decimal(n)[0] == '0' ==> decimal(n) =~= "0"@);
    } else {
        let before = decimal(n / 10);
        lemma_decimal_digits(n / 10);
        assert(decimal(n)[0] == before[0]);
        if before[0] == '0' {
            lemma_decimal_value(n / 10);
            assert(before.drop_last() =~= seq![]);
            assert(decimal_value(before.drop_last()) == 0);
            assert(decimal_value(before) == 0);
        }
    }
}

} // verus!

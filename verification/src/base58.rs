//! Base 58, in which peers write their identifiers: what a text in it is, and that no two byte
//! sequences share one.

use vstd::prelude::*;

verus! {

/// The number that `bytes` write in base 256, the first byte weighing most.
pub open spec fn base256(bytes: Seq<u8>) -> nat
    decreases bytes.len(),
{
    if bytes.len() == 0 {
        0
    } else {
        base256(bytes.drop_last()) * 256 + bytes.last() as nat
    }
}

/// The character that stands for the digit `d` in base 58: the digits and letters of ASCII in
/// their order, without `0`, `I`, `O` and `l`.
pub open spec fn base58_digit(d: nat) -> char {
    if d < 9 {
        ('1' as int + d) as char
    } else if d < 17 {
        ('A' as int + (d - 9)) as char
    } else if d < 22 {
        ('J' as int + (d - 17)) as char
    } else if d < 33 {
        ('P' as int + (d - 22)) as char
    } else if d < 44 {
        ('a' as int + (d - 33)) as char
    } else {
        ('m' as int + (d - 44)) as char
    }
}

/// The number `n` in base 58, without leading zeros; nothing for zero.
pub open spec fn base58_number(n: nat) -> Seq<char>
    decreases n,
{
    if n == 0 {
        seq![]
    } else {
        base58_number(n / 58).push(base58_digit(n % 58))
    }
}

/// `bytes` in base 58: a `1` for each leading zero byte, then the number that the others write.
pub open spec fn base58(bytes: Seq<u8>) -> Seq<char>
    decreases bytes.len(),
{
    if bytes.len() > 0 && bytes[0] == 0 {
        seq!['1'] + base58(bytes.drop_first())
    } else {
        base58_number(base256(bytes))
    }
}

/// The number that the base 58 digits of `text` write.
spec fn base58_value(text: Seq<char>) -> nat
    decreases text.len(),
{
    if text.len() == 0 {
        0
    } else {
        base58_value(text.drop_last()) * 58 + base58_digit_value(text.last())
    }
}

/// The digit that `c` stands for in base 58.
spec fn base58_digit_value(c: char) -> nat {
    choose|d: nat| d < 58 && #[trigger] base58_digit(d) == c
}

proof fn lemma_base58_digit_value(d: nat)
    requires
        d < 58,
    ensures
        base58_digit_value(base58_digit(d)) == d,
{
    let c = base58_digit_value(base58_digit(d));
    assert(c < 58 && base58_digit(c) == base58_digit(d));
}

/// Reading a base 58 number gives back the number.
proof fn lemma_base58_value(n: nat)
    ensures
        base58_value(base58_number(n)) == n,
    decreases n,
{
    if n > 0 {
        lemma_base58_value(n / 58);
        lemma_base58_digit_value(n % 58);
        let text = base58_number(n);
        assert(text.drop_last() =~= base58_number(n / 58));
        assert(text.last() == base58_digit(n % 58));
    }
}

/// A base 58 number other than zero starts with a digit other than zero.
proof fn lemma_base58_number_first(n: nat)
    requires
        n > 0,
    ensures
        base58_number(n).len() > 0,
        base58_number(n)[0] != '1',
    decreases n,
{
    if n >= 58 {
        lemma_base58_number_first(n / 58);
    } else {
        assert(base58_number(n / 58) =~= seq![]);
        assert(base58_number(n)[0] == base58_digit(n));
    }
}

/// Bytes that start with a byte other than zero write a number other than zero.
proof fn lemma_base256_positive(bytes: Seq<u8>)
    requires
        bytes.len() > 0,
        bytes[0] != 0,
    ensures
        base256(bytes) > 0,
    decreases bytes.len(),
{
    if bytes.len() > 1 {
        lemma_base256_positive(bytes.drop_last());
    }
}

/// Two byte sequences without leading zeros that write the same number are the same.
proof fn lemma_base256_injective(a: Seq<u8>, b: Seq<u8>)
    requires
        a.len() > 0 ==> a[0] != 0,
        b.len() > 0 ==> b[0] != 0,
        base256(a) == base256(b),
    ensures
        a == b,
    decreases a.len(),
{
    if a.len() > 0 {
        lemma_base256_positive(a);
    }
    if b.len() > 0 {
        lemma_base256_positive(b);
    }
    if a.len() > 0 && b.len() > 0 {
        lemma_base256_injective(a.drop_last(), b.drop_last());
        assert(a =~= a.drop_last().push(a.last()));
        assert(b =~= b.drop_last().push(b.last()));
    } else {
        assert(a =~= b);
    }
}

/// Different byte sequences have different base 58 forms.
pub proof fn lemma_base58_injective(a: Seq<u8>, b: Seq<u8>)
    requires
        base58(a) == base58(b),
    ensures
        a == b,
    decreases a.len(),
{
    let zero_a = a.len() > 0 && a[0] == 0;
    let zero_b = b.len() > 0 && b[0] == 0;
    if !zero_a && a.len() > 0 {
        lemma_base256_positive(a);
        lemma_base58_number_first(base256(a));
    }
    if !zero_b && b.len() > 0 {
        lemma_base256_positive(b);
        lemma_base58_number_first(base256(b));
    }
    if zero_a && zero_b {
        assert(base58(a).drop_first() =~= base58(a.drop_first()));
        assert(base58(b).drop_first() =~= base58(b.drop_first()));
        lemma_base58_injective(a.drop_first(), b.drop_first());
        assert(a =~= seq![0u8] + a.drop_first());
        assert(b =~= seq![0u8] + b.drop_first());
    } else if zero_a {
        assert(base58(a)[0] == '1');
    } else if zero_b {
        assert(base58(b)[0] == '1');
    } else {
        lemma_base58_value(base256(a));
        lemma_base58_value(base256(b));
        lemma_base256_injective(a, b);
    }
}

} // verus!

//! Text encodings used on Firehose lines: decimal numbers and hexadecimal bytes.
use vstd::prelude::*;

verus! {

/// The ASCII character of a digit in base 16 (lower case); digits below ten
/// give `'0'..='9'`.
pub open spec fn digit_char(d: int) -> char {
    if d < 10 {
        (48 + d) as char
    } else {
        (87 + d) as char
    }
}

/// Decimal text of a natural number, without leading zeros (`0` is `"0"`).
pub open spec fn decimal(n: nat) -> Seq<char>
    decreases n,
{
    if n < 10 {
        seq![digit_char(n as int)]
    } else {
        decimal(n / 10).push(digit_char((n % 10) as int))
    }
}

/// `String::push`: appends one character.
#[verifier::external_body]
pub(crate) fn push_char(s: &mut String, c: char)
    ensures
        final(s)@ == old(s)@.push(c),
{
    s.push(c);
}

/// The character of a digit below 16.
pub fn digit(d: u8) -> (c: char)
    requires
        d < 16,
    ensures
        c == digit_char(d as int),
{
    if d < 10 {
        (48u8 + d) as char
    } else {
        (87u8 + d) as char
    }
}

/// Appends the decimal text of `n`.
pub fn push_decimal(s: &mut String, n: u64)
    ensures
        final(s)@ == old(s)@ + decimal(n as nat),
    decreases n,
{
    if n >= 10 {
        push_decimal(s, n / 10);
    }
    push_char(s, digit((n % 10) as u8));
}


/// The two lower-case hexadecimal digits of a byte, high nibble first.
pub open spec fn byte_hex(b: u8) -> Seq<char> {
    seq![digit_char((b / 16) as int), digit_char((b % 16) as int)]
}

/// Every byte written as two lower-case hexadecimal digits, in order.
pub open spec fn hex_pairs(bytes: Seq<u8>) -> Seq<char>
    decreases bytes.len(),
{
    if bytes.len() == 0 {
        Seq::empty()
    } else {
        hex_pairs(bytes.drop_last()) + byte_hex(bytes.last())
    }
}

/// Whether every byte is zero (true of the empty sequence).
pub open spec fn all_zero(bytes: Seq<u8>) -> bool {
    forall|i: int| 0 <= i < bytes.len() ==> bytes[i] == 0
}

/// Appends the two hexadecimal digits of a byte.
pub fn push_byte_hex(s: &mut String, b: u8)
    ensures
        final(s)@ == old(s)@ + byte_hex(b),
{
    push_char(s, digit(b / 16));
    push_char(s, digit(b % 16));
}

/// Appends every byte of `bytes` as two hexadecimal digits.
pub fn push_hex_pairs(s: &mut String, bytes: &[u8])
    ensures
        final(s)@ == old(s)@ + hex_pairs(bytes@),
{
    let ghost start = s@;
    let mut i: usize = 0;
    while i < bytes.len()
        invariant
            i <= bytes.len(),
            s@ == start + hex_pairs(bytes@.take(i as int)),
        decreases bytes.len() - i,
    {
        proof {
            assert(bytes@.take(i + 1).drop_last() =~= bytes@.take(i as int));
        }
        push_byte_hex(s, bytes[i]);
        i = i + 1;
    }
    proof {
        assert(bytes@.take(i as int) =~= bytes@);
    }
}

/// Whether every byte of `bytes` is zero.
pub fn is_all_zero(bytes: &[u8]) -> (r: bool)
    ensures
        r == all_zero(bytes@),
{
    let mut i: usize = 0;
    while i < bytes.len()
        invariant
            i <= bytes.len(),
            forall|j: int| 0 <= j < i ==> bytes@[j] == 0,
        decreases bytes.len() - i,
    {
        if bytes[i] != 0 {
            return false;
        }
        i = i + 1;
    }
    true
}

/// The value of a digit character written by `digit_char`.
pub open spec fn digit_value(c: char) -> int {
    if (c as int) < 58 {
        c as int - 48
    } else {
        c as int - 87
    }
}

/// The number that a sequence of digits stands for in the given base, most
/// significant digit first.
pub open spec fn digits_value(s: Seq<char>, base: int) -> int
    decreases s.len(),
{
    if s.len() == 0 {
        0
    } else {
        digits_value(s.drop_last(), base) * base + digit_value(s.last())
    }
}

/// Whether a character is a decimal digit.
pub open spec fn is_decimal_digit(c: char) -> bool {
    '0' <= c <= '9'
}

/// The bytes that hexadecimal digit pairs stand for.
pub open spec fn hex_pairs_value(s: Seq<char>) -> Seq<u8>
    decreases s.len(),
{
    if s.len() < 2 {
        Seq::empty()
    } else {
        hex_pairs_value(s.subrange(0, s.len() - 2)).push(
            (digit_value(s[s.len() - 2]) * 16 + digit_value(s[s.len() - 1])) as u8,
        )
    }
}

/// A digit character stands for its digit.
pub proof fn lemma_digit_value(d: int)
    requires
        0 <= d < 16,
    ensures
        digit_value(digit_char(d)) == d,
{
}

/// Decimal text is a non-empty run of decimal digits with no leading zero,
/// and reading it back gives the number.
pub proof fn law_decimal_round_trip(n: nat)
    ensures
        decimal(n).len() > 0,
        decimal(n).len() == 1 <==> n < 10,
        forall|i: int| 0 <= i < decimal(n).len() ==> is_decimal_digit(#[trigger] decimal(n)[i]),
        decimal(n).len() > 1 ==> decimal(n)[0] != '0',
        digits_value(decimal(n), 10) == n,
    decreases n,
{
    if n >= 10 {
        law_decimal_round_trip(n / 10);
        let s = decimal(n);
        let prefix = decimal(n / 10);
        assert(s.drop_last() =~= prefix);
        assert(s.last() == digit_char((n % 10) as int));
        lemma_digit_value((n % 10) as int);
        assert(digits_value(s, 10) == digits_value(prefix, 10) * 10 + (n % 10) as int);
        assert(forall|i: int| 0 <= i < s.len() - 1 ==> s[i] == prefix[i]);
        assert(digits_value(prefix, 10) * 10 + (n % 10) as int == n);
        if prefix.len() == 1 {
            lemma_digit_value((n / 10) as int);
            assert(prefix[0] == digit_char((n / 10) as int));
            assert(digit_value('0') == 0);
        }
        assert(s[0] == prefix[0]);
    } else {
        lemma_digit_value(n as int);
        assert(decimal(n).drop_last() =~= Seq::<char>::empty());
        assert(digits_value(Seq::<char>::empty(), 10) == 0);
        assert(digits_value(decimal(n), 10) == digit_value(digit_char(n as int)));
    }
}

/// Hexadecimal digit pairs are twice as long as the bytes, and reading them
/// back gives the bytes.
pub proof fn law_hex_pairs_round_trip(bytes: Seq<u8>)
    ensures
        hex_pairs(bytes).len() == 2 * bytes.len(),
        hex_pairs_value(hex_pairs(bytes)) == bytes,
    decreases bytes.len(),
{
    if bytes.len() > 0 {
        law_hex_pairs_round_trip(bytes.drop_last());
        let s = hex_pairs(bytes);
        let b = bytes.last();
        assert(s.subrange(0, s.len() - 2) =~= hex_pairs(bytes.drop_last()));
        lemma_digit_value((b / 16) as int);
        lemma_digit_value((b % 16) as int);
        assert(s[s.len() - 2] == digit_char((b / 16) as int));
        assert(s[s.len() - 1] == digit_char((b % 16) as int));
        assert(hex_pairs_value(s) =~= bytes);
    } else {
        assert(hex_pairs(bytes) =~= Seq::<char>::empty());
    }
}

} // verus!

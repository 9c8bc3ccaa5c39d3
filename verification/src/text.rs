//! Small text utilities: decimal rendering and reading of amounts, text
//! equality, splitting, and the leading-zero test that both mining loops
//! use.

use vstd::prelude::*;
use vstd::string::*;

verus! {

/// The characters of each string of a sequence.
pub open spec fn texts(items: Seq<String>) -> Seq<Seq<char>> {
    items.map_values(|s: String| s@)
}

/// The character that writes the decimal digit `d`.
pub open spec fn digit_char(d: nat) -> char {
    if d == 0 {
        '0'
    } else if d == 1 {
        '1'
    } else if d == 2 {
        '2'
    } else if d == 3 {
        '3'
    } else if d == 4 {
        '4'
    } else if d == 5 {
        '5'
    } else if d == 6 {
        '6'
    } else if d == 7 {
        '7'
    } else if d == 8 {
        '8'
    } else {
        '9'
    }
}

/// The decimal rendering of `n`, most significant digit first, without
/// leading zeros (zero itself is `"0"`).
pub open spec fn decimal_text(n: nat) -> Seq<char>
    decreases n,
{
    if n < 10 {
        seq![digit_char(n)]
    } else {
        decimal_text(n / 10).push(digit_char(n % 10))
    }
}

/// `text` starts with at least `count` characters `'0'`.
pub open spec fn has_zero_prefix(text: Seq<char>, count: nat) -> bool {
    &&& count <= text.len()
    &&& forall|i: int| 0 <= i < count ==> text[i] == '0'
}

fn digit_str(d: u64) -> (s: &'static str)
    requires
        d < 10,
    ensures
        s@ == seq![digit_char(d as nat)],
{
    proof {
        reveal_strlit("0");
        reveal_strlit("1");
        reveal_strlit("2");
        reveal_strlit("3");
        reveal_strlit("4");
        reveal_strlit("5");
        reveal_strlit("6");
        reveal_strlit("7");
        reveal_strlit("8");
        reveal_strlit("9");
    }
    let s = if d == 0 {
        "0"
    } else if d == 1 {
        "1"
    } else if d == 2 {
        "2"
    } else if d == 3 {
        "3"
    } else if d == 4 {
        "4"
    } else if d == 5 {
        "5"
    } else if d == 6 {
        "6"
    } else if d == 7 {
        "7"
    } else if d == 8 {
        "8"
    } else {
        "9"
    };
    assert(s@ =~= seq![digit_char(d as nat)]);
    s
}

/// Renders `n` in decimal.
pub fn decimal_string(n: u64) -> (s: String)
    ensures
        s@ == decimal_text(n as nat),
{
    let mut out: String = String::from_str(digit_str(n % 10));
    let mut rest: u64 = n / 10;
    while rest > 0
        invariant
            rest > 0 ==> decimal_text(n as nat) == decimal_text(rest as nat) + out@,
            rest == 0 ==> decimal_text(n as nat) == out@,
        decreases rest,
    {
        let head: String = String::from_str(digit_str(rest % 10));
        out = head.concat(out.as_str());
        rest = rest / 10;
    }
    out
}

/// Whether two texts hold the same characters.
pub fn same_text(a: &str, b: &str) -> (same: bool)
    ensures
        same == (a@ == b@),
{
    let left: String = String::from_str(a);
    let right: String = String::from_str(b);
    left == right
}

/// Whether `wanted` is among `items`.
pub fn contains_text(items: &[String], wanted: &str) -> (found: bool)
    ensures
        found == texts(items@).contains(wanted@),
{
    let needle: String = String::from_str(wanted);
    let mut i: usize = 0;
    while i < items.len()
        invariant
            i <= items.len(),
            needle@ == wanted@,
            forall|j: int| 0 <= j < i ==> texts(items@)[j] != wanted@,
        decreases items.len() - i,
    {
        if items[i] == needle {
            assert(texts(items@)[i as int] == wanted@);
            return true;
        }
        i = i + 1;
    }
    false
}

/// Whether `text` starts with at least `count` zero characters: the
/// difficulty test of both mining loops.
pub fn starts_with_zeros(text: &str, count: u32) -> (ok: bool)
    ensures
        ok == has_zero_prefix(text@, count as nat),
{
    let len: usize = text.unicode_len();
    if (count as usize) > len {
        return false;
    }
    let mut i: usize = 0;
    while i < count as usize
        invariant
            i <= count as usize <= len,
            len == text@.len(),
            forall|j: int| 0 <= j < i ==> text@[j] == '0',
        decreases count as usize - i,
    {
        if text.get_char(i) != '0' {
            return false;
        }
        i = i + 1;
    }
    true
}

/// The value of a decimal digit character.
pub open spec fn digit_value(c: char) -> Option<nat> {
    if c == '0' {
        Some(0)
    } else if c == '1' {
        Some(1)
    } else if c == '2' {
        Some(2)
    } else if c == '3' {
        Some(3)
    } else if c == '4' {
        Some(4)
    } else if c == '5' {
        Some(5)
    } else if c == '6' {
        Some(6)
    } else if c == '7' {
        Some(7)
    } else if c == '8' {
        Some(8)
    } else if c == '9' {
        Some(9)
    } else {
        None
    }
}

/// The number that a text of decimal digits writes, if it holds nothing
/// else. The empty text writes zero.
pub open spec fn digits_value(text: Seq<char>) -> Option<nat>
    decreases text.len(),
{
    if text.len() == 0 {
        Some(0)
    } else {
        match (digits_value(text.drop_last()), digit_value(text.last())) {
            (Some(value), Some(digit)) => Some(10 * value + digit),
            _ => None,
        }
    }
}

/// The amount that a text writes: decimal digits, after at most one `+`,
/// that give a number of at most `u64::MAX`. Any other text writes zero.
pub open spec fn amount_text_value(text: Seq<char>) -> nat {
    let digits = if text.len() > 0 && text[0] == '+' {
        text.skip(1)
    } else {
        text
    };
    match digits_value(digits) {
        Some(value) => if digits.len() > 0 && value <= u64::MAX {
            value
        } else {
            0
        },
        None => 0,
    }
}

/// The pieces of `text` between the separators `separator`. A text
/// without separator is one piece, and so is the empty text.
pub open spec fn split_text(text: Seq<char>, separator: char) -> Seq<Seq<char>>
    decreases text.len(),
{
    if text.len() == 0 {
        seq![Seq::empty()]
    } else {
        let before = split_text(text.drop_last(), separator);
        if text.last() == separator {
            before.push(Seq::empty())
        } else {
            before.drop_last().push(before.last().push(text.last()))
        }
    }
}

/// A text of digits writes at least what any of its beginnings writes.
pub proof fn lemma_digits_value_grows(text: Seq<char>, k: int)
    requires
        0 <= k <= text.len(),
        digits_value(text) is Some,
    ensures
        digits_value(text.take(k)) is Some,
        digits_value(text.take(k))->0 <= digits_value(text)->0,
    decreases text.len() - k,
{
    if k == text.len() {
        assert(text.take(k) =~= text);
    } else {
        lemma_digits_value_grows(text, k + 1);
        assert(text.take(k + 1).drop_last() =~= text.take(k));
    }
}

/// A text with something else than digits in one of its beginnings
/// writes no number.
pub proof fn lemma_digits_value_none(text: Seq<char>, k: int)
    requires
        0 <= k <= text.len(),
        digits_value(text.take(k)) is None,
    ensures
        digits_value(text) is None,
    decreases text.len() - k,
{
    if k == text.len() {
        assert(text.take(k) =~= text);
    } else {
        assert(text.take(k + 1).drop_last() =~= text.take(k));
        lemma_digits_value_none(text, k + 1);
    }
}

/// The decimal rendering of a number is not empty and holds digits only:
/// it writes the number.
pub proof fn lemma_digits_of_decimal(n: nat)
    ensures
        decimal_text(n).len() >= 1,
        digits_value(decimal_text(n)) == Some(n),
        digit_value(decimal_text(n)[0]) is Some,
    decreases n,
{
    if n < 10 {
        assert(digits_value(decimal_text(n).drop_last()) == Some(0nat));
    } else {
        lemma_digits_of_decimal(n / 10);
        let init = decimal_text(n / 10);
        assert(decimal_text(n).drop_last() =~= init);
    }
}

/// Reading back the decimal rendering of an amount gives the amount.
pub proof fn lemma_amount_of_decimal(n: nat)
    requires
        n <= u64::MAX,
    ensures
        amount_text_value(decimal_text(n)) == n,
{
    lemma_digits_of_decimal(n);
}

fn digit_of(c: char) -> (digit: Option<u64>)
    ensures
        digit is Some <==> digit_value(c) is Some,
        digit matches Some(d) ==> d == digit_value(c)->0 && d <= 9,
{
    if c == '0' {
        Some(0)
    } else if c == '1' {
        Some(1)
    } else if c == '2' {
        Some(2)
    } else if c == '3' {
        Some(3)
    } else if c == '4' {
        Some(4)
    } else if c == '5' {
        Some(5)
    } else if c == '6' {
        Some(6)
    } else if c == '7' {
        Some(7)
    } else if c == '8' {
        Some(8)
    } else if c == '9' {
        Some(9)
    } else {
        None
    }
}

/// Reads an amount: zero for a text that does not write one.
pub fn parse_amount(text: &str) -> (amount: u64)
    ensures
        amount == amount_text_value(text@),
{
    let len: usize = text.unicode_len();
    if len == 0 {
        return 0;
    }
    let start: usize = if text.get_char(0) == '+' {
        1
    } else {
        0
    };
    let ghost digits = text@.skip(start as int);
    assert(start == 0 ==> digits =~= text@);
    if start == len {
        return 0;
    }
    let mut value: u64 = 0;
    let mut i: usize = start;
    while i < len
        invariant
            start <= i <= len == text@.len(),
            start <= 1,
            start == 1 <==> text@[0] == '+',
            digits == text@.skip(start as int),
            digits.len() == len - start,
            digits.len() > 0,
            digits_value(digits.take(i - start)) == Some(value as nat),
        decreases len - i,
    {
        let c: char = text.get_char(i);
        proof {
            assert(digits.take(i - start + 1).drop_last() =~= digits.take(i - start));
        }
        match digit_of(c) {
            Some(d) => {
                if value > (u64::MAX - d) / 10 {
                    proof {
                        if digits_value(digits) is Some {
                            lemma_digits_value_grows(digits, i - start + 1);
                        }
                        assert(start == 0 ==> digits =~= text@);
                    }
                    return 0;
                }
                value = value * 10 + d;
            },
            None => {
                proof {
                    lemma_digits_value_none(digits, i - start + 1);
                }
                return 0;
            },
        }
        i = i + 1;
    }
    assert(digits.take(len - start) =~= digits);
    value
}

/// Splits `text` at every `separator`.
pub fn split_at_char(text: &str, separator: char) -> (pieces: Vec<String>)
    ensures
        texts(pieces@) == split_text(text@, separator),
        pieces@.len() >= 1,
{
    let len: usize = text.unicode_len();
    let mut pieces: Vec<String> = Vec::new();
    let mut current: String = String::new();
    let mut i: usize = 0;
    while i < len
        invariant
            i <= len == text@.len(),
            texts(pieces@).push(current@) == split_text(
                text@.take(i as int),
                separator,
            ),
        decreases len - i,
    {
        let ghost piece = current@;
        let c: char = text.get_char(i);
        proof {
            assert(text@.take(i + 1).drop_last() =~= text@.take(i as int));
        }
        if c == separator {
            pieces.push(current);
            current = String::new();
        } else {
            current.append(text.substring_char(i, i + 1));
            assert(current@ =~= piece.push(c));
        }
        i = i + 1;
    }
    assert(text@.take(len as int) =~= text@);
    pieces.push(current);
    pieces
}

} // verus!

//! Text building blocks: decimal numerals, joined lists, prefixes, and the
//! debug renderings that the standard library writes.

use vstd::prelude::*;
use vstd::string::StringExecFns;

verus! {

/// The character that writes the digit `d`; digits run from zero to nine.
pub open spec fn digit_char(d: nat) -> char {
    if d == 0 {
        '0'
    } else if d == 1 {
        '1'
    } else if d == 2 {
        '2'
    } else if d == 3 {
        '3'
    } else if d == 4 {
        '4'
    } else if d == 5 {
        '5'
    } else if d == 6 {
        '6'
    } else if d == 7 {
        '7'
    } else if d == 8 {
        '8'
    } else {
        '9'
    }
}

/// The decimal numeral of `n`: most significant digit first, no sign, no
/// padding, and a single `0` for zero.
pub open spec fn decimal_digits(n: nat) -> Seq<char>
    decreases n,
{
    if n < 10 {
        seq![digit_char(n)]
    } else {
        decimal_digits(n / 10).push(digit_char(n % 10))
    }
}

/// The number that a run of decimal digits writes, read most significant
/// digit first. Characters that are no digits count as nine.
pub open spec fn decimal_value(digits: Seq<char>) -> nat
    decreases digits.len(),
{
    if digits.len() == 0 {
        0
    } else {
        10 * decimal_value(digits.drop_last()) + digit_value(digits.last())
    }
}

/// The digit that `c` writes.
pub open spec fn digit_value(c: char) -> nat {
    if c == '0' {
        0
    } else if c == '1' {
        1
    } else if c == '2' {
        2
    } else if c == '3' {
        3
    } else if c == '4' {
        4
    } else if c == '5' {
        5
    } else if c == '6' {
        6
    } else if c == '7' {
        7
    } else if c == '8' {
        8
    } else {
        9
    }
}

/// A numeral is never empty, holds digits only, and starts with `0` only
/// when it is the numeral of zero.
pub proof fn lemma_decimal_digits_shape(n: nat)
    ensures
        decimal_digits(n).len() >= 1,
        forall|i: int|
            0 <= i < decimal_digits(n).len() ==> digit_char(
                digit_value(#[trigger] decimal_digits(n)[i]),
            ) == decimal_digits(n)[i],
        decimal_digits(n)[0] == '0' <==> n == 0,
    decreases n,
{
    if n >= 10 {
        lemma_decimal_digits_shape(n / 10);
    }
}

/// Reading a numeral gives back the number it was written for.
pub proof fn lemma_decimal_round_trip(n: nat)
    ensures
        decimal_value(decimal_digits(n)) == n,
    decreases n,
{
    let digits = decimal_digits(n);
    if n < 10 {
        assert(digits.drop_last() =~= Seq::<char>::empty());
        assert(decimal_value(digits.drop_last()) == 0);
        assert(digits.last() == digit_char(n));
    } else {
        lemma_decimal_round_trip(n / 10);
        assert(digits.drop_last() =~= decimal_digits(n / 10));
        assert(digits.last() == digit_char(n % 10));
    }
    assert(decimal_value(digits) == 10 * decimal_value(digits.drop_last()) + digit_value(
        digits.last(),
    ));
}

/// Two numbers with the same numeral are the same number.
pub proof fn lemma_decimal_digits_injective(a: nat, b: nat)
    requires
        decimal_digits(a) == decimal_digits(b),
    ensures
        a == b,
{
    lemma_decimal_round_trip(a);
    lemma_decimal_round_trip(b);
}

/// The one-character text of a digit.
fn digit_text(d: u8) -> (s: &'static str)
    requires
        d < 10,
    ensures
        s@ == seq![digit_char(d as nat)],
{
    proof {
        reveal_strlit("0");
        reveal_strlit("1");
        reveal_strlit("2");
        reveal_strlit("3");
        reveal_strlit("4");
        reveal_strlit("5");
        reveal_strlit("6");
        reveal_strlit("7");
        reveal_strlit("8");
        reveal_strlit("9");
    }
    let s: &'static str = match d {
        0 => "0",
        1 => "1",
        2 => "2",
        3 => "3",
        4 => "4",
        5 => "5",
        6 => "6",
        7 => "7",
        8 => "8",
        _ => "9",
    };
    assert(s@ =~= seq![digit_char(d as nat)]);
    s
}

/// Appends the decimal numeral of `n` to `out`.
pub fn push_decimal(out: &mut String, n: u128)
    ensures
        final(out)@ == old(out)@ + decimal_digits(n as nat),
    decreases n,
{
    if n >= 10 {
        push_decimal(out, n / 10);
    }
    let d: u8 = (n % 10) as u8;
    out.append(digit_text(d));
    assert(final(out)@ =~= old(out)@ + decimal_digits(n as nat));
}

/// The decimal numeral of `n` as a string of its own.
pub fn decimal_string(n: u128) -> (s: String)
    ensures
        s@ == decimal_digits(n as nat),
{
    let mut s = String::new();
    push_decimal(&mut s, n);
    assert(s@ =~= decimal_digits(n as nat));
    s
}

/// The characters of an optional text.
pub open spec fn text_view(text: Option<String>) -> Option<Seq<char>> {
    match text {
        Some(t) => Some(t@),
        None => None,
    }
}

/// A copy of an optional text.
pub fn copy_text(text: &Option<String>) -> (r: Option<String>)
    ensures
        text_view(r) == text_view(*text),
{
    match text {
        Some(t) => Some(t.clone()),
        None => None,
    }
}

/// The characters of each string of a list.
pub open spec fn texts_view(texts: Seq<String>) -> Seq<Seq<char>> {
    texts.map_values(|t: String| t@)
}

/// The parts in their order, with the separator between each two
/// neighbours: nothing for no parts, the part itself for a single one.
pub open spec fn joined(parts: Seq<Seq<char>>, separator: Seq<char>) -> Seq<char>
    decreases parts.len(),
{
    if parts.len() == 0 {
        Seq::empty()
    } else if parts.len() == 1 {
        parts[0]
    } else {
        joined(parts.drop_last(), separator) + separator + parts.last()
    }
}

/// Joins the strings of `parts` with `separator` between neighbours.
pub fn join(parts: &Vec<String>, separator: &str) -> (s: String)
    ensures
        s@ == joined(texts_view(parts@), separator@),
{
    let ghost views = texts_view(parts@);
    let mut s = String::new();
    let mut i: usize = 0;
    while i < parts.len()
        invariant
            i <= parts.len(),
            views == texts_view(parts@),
            s@ == joined(views.take(i as int), separator@),
        decreases parts.len() - i,
    {
        if i > 0 {
            s.append(separator);
        }
        s.append(parts[i].as_str());
        proof {
            let next = views.take(i + 1);
            assert(next.drop_last() =~= views.take(i as int));
            assert(next.last() == parts@[i as int]@);
            if i == 0 {
                assert(s@ =~= next[0]);
            }
        }
        i += 1;
    }
    assert(views.take(i as int) =~= views);
    s
}

/// The three texts in a row.
pub fn wrap(before: &str, text: &str, after: &str) -> (s: String)
    ensures
        s@ == before@ + text@ + after@,
{
    let mut s = String::from_str(before);
    s.append(text);
    s.append(after);
    s
}

/// Whether `text` begins with `prefix`.
pub open spec fn has_prefix(text: Seq<char>, prefix: Seq<char>) -> bool {
    prefix.len() <= text.len() && text.subrange(0, prefix.len() as int) == prefix
}

/// Tells whether `text` begins with `prefix`, character by character.
pub fn starts_with(text: &str, prefix: &str) -> (b: bool)
    ensures
        b == has_prefix(text@, prefix@),
{
    let n: usize = prefix.unicode_len();
    if text.unicode_len() < n {
        return false;
    }
    let mut i: usize = 0;
    while i < n
        invariant
            i <= n,
            n == prefix@.len(),
            n <= text@.len(),
            text@.subrange(0, i as int) == prefix@.subrange(0, i as int),
        decreases n - i,
    {
        if text.get_char(i) != prefix.get_char(i) {
            assert(text@.subrange(0, n as int)[i as int] != prefix@[i as int]);
            return false;
        }
        assert(text@.subrange(0, i + 1) =~= text@.subrange(0, i as int).push(text@[i as int]));
        assert(prefix@.subrange(0, i + 1) =~= prefix@.subrange(0, i as int).push(
            prefix@[i as int],
        ));
        i += 1;
    }
    assert(prefix@.subrange(0, n as int) =~= prefix@);
    true
}

/// Tells whether two texts hold the same characters.
pub fn same_text(a: &str, b: &str) -> (same: bool)
    ensures
        same == (a@ == b@),
{
    if a.unicode_len() != b.unicode_len() {
        return false;
    }
    let same = starts_with(a, b);
    assert(a@.subrange(0, a@.len() as int) =~= a@);
    same
}

/// What the standard library's `{:?}` writes for a string.
pub uninterp spec fn debug_text(text: Seq<char>) -> Seq<char>;

/// Formats `text` with `{:?}`. The result is a function of the characters
/// alone; which characters are escaped, and how, is left to the standard
/// library.
#[verifier::external_body]
pub(crate) fn debug_string(text: &str) -> (s: String)
    ensures
        s@ == debug_text(text@),
{
    format!("{:?}", text)
}

/// What the standard library's `{:#?}` writes for an optional string.
pub uninterp spec fn pretty_debug_text(text: Option<Seq<char>>) -> Seq<char>;

/// Formats an optional string with `{:#?}`. The result is a function of the
/// characters alone; its layout is left to the standard library.
#[verifier::external_body]
pub(crate) fn pretty_debug_string(text: &Option<String>) -> (s: String)
    ensures
        s@ == pretty_debug_text(text_view(*text)),
{
    format!("{:#?}", text)
}

} // verus!

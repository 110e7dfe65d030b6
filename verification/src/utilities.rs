//! Small helpers shared by the commands: a random colour, a duration in
//! words, a number with its ordinal ending.

use crate::colour::{colour_rgb, random_in};
use crate::text::{
    decimal_digits, decimal_string, join, joined, lemma_decimal_digits_injective,
    lemma_decimal_digits_shape, texts_view,
};
use serenity::utils::Colour;
use std::time::Duration;
use vstd::prelude::*;
use vstd::string::StringExecFns;

verus! {

/// Whether `c` is one of the colours that `rand_color` may give: red from 50
/// up to 99, green and blue from 100 up to 254.
pub open spec fn is_bright(c: Colour) -> bool {
    &&& 50 <= colour_rgb(c).0 < 100
    &&& 100 <= colour_rgb(c).1 < 255
    &&& 100 <= colour_rgb(c).2 < 255
}

/// A random bright colour. Each call draws anew, so nothing ties one result
/// to another. The draw fails, with a panic, only where the system's random
/// source does.
pub fn rand_color() -> (c: Colour)
    ensures
        is_bright(c),
{
    let red: u8 = random_in(50, 100);
    let green: u8 = random_in(100, 255);
    let blue: u8 = random_in(100, 255);
    Colour::from_rgb(red, green, blue)
}

/// The number of whole seconds in a duration, as `Duration::as_secs` gives
/// it.
pub uninterp spec fn whole_seconds(duration: Duration) -> u64;

/// `Duration::as_secs` returns the whole seconds of the duration and drops
/// the fraction.
pub assume_specification[ Duration::as_secs ](duration: &Duration) -> (seconds: u64)
    ensures
        seconds == whole_seconds(*duration),
;

/// What the standard library's `{:#?}` writes for a duration.
pub uninterp spec fn duration_debug_text(duration: Duration) -> Seq<char>;

/// Formats a duration with `{:#?}`. The result is a function of the duration
/// alone; its layout is left to the standard library.
#[verifier::external_body]
pub(crate) fn duration_debug_string(duration: &Duration) -> (s: String)
    ensures
        s@ == duration_debug_text(*duration),
{
    format!("{:#?}", duration)
}

/// The part of a duration text for one unit: the amount and the unit's
/// name, or nothing where the amount is zero.
pub open spec fn unit_part(amount: nat, unit: Seq<char>) -> Seq<Seq<char>> {
    if amount >= 1 {
        seq![decimal_digits(amount) + unit]
    } else {
        Seq::empty()
    }
}

/// The parts of a duration text: hours, minutes of the last hour, seconds of
/// the last minute, each only where it is not zero. The unit names stay in
/// the plural whatever the amount.
pub open spec fn duration_parts(seconds: nat) -> Seq<Seq<char>> {
    unit_part(seconds / 3600, " hours"@) + unit_part(seconds % 3600 / 60, " minutes"@)
        + unit_part(seconds % 60, " seconds"@)
}

/// A number of seconds in words: its parts joined by a comma and a space.
/// Zero seconds give the empty text.
pub open spec fn duration_text(seconds: nat) -> Seq<char> {
    joined(duration_parts(seconds), ", "@)
}

/// A duration text is empty for zero seconds and for nothing else.
pub proof fn lemma_duration_text_empty(seconds: nat)
    ensures
        duration_text(seconds).len() == 0 <==> seconds == 0,
{
    let parts = duration_parts(seconds);
    if seconds == 0 {
        assert(parts =~= Seq::<Seq<char>>::empty());
    } else {
        lemma_decimal_digits_shape(seconds / 3600);
        lemma_decimal_digits_shape(seconds % 3600 / 60);
        lemma_decimal_digits_shape(seconds % 60);
        assert(parts.len() >= 1);
        assert(parts.last().len() >= 1);
    }
}

/// Appends the part for one unit to `parts`, if the amount is not zero.
fn push_unit(parts: &mut Vec<String>, amount: u64, unit: &str)
    ensures
        texts_view(final(parts)@) == texts_view(old(parts)@) + unit_part(amount as nat, unit@),
{
    if amount >= 1 {
        let mut part = decimal_string(amount as u128);
        part.append(unit);
        parts.push(part);
    }
    assert(texts_view(parts@) =~= texts_view(old(parts)@) + unit_part(amount as nat, unit@));
}

/// Writes a number of seconds in words, as in `1 hours, 1 minutes, 1
/// seconds` for 3661.
pub fn format_seconds(seconds: u64) -> (s: String)
    ensures
        s@ == duration_text(seconds as nat),
{
    let mut parts: Vec<String> = Vec::new();
    assert(texts_view(parts@) =~= Seq::<Seq<char>>::empty());
    push_unit(&mut parts, seconds / 3600, " hours");
    push_unit(&mut parts, seconds % 3600 / 60, " minutes");
    push_unit(&mut parts, seconds % 60, " seconds");
    assert(texts_view(parts@) =~= duration_parts(seconds as nat));
    join(&parts, ", ")
}

/// Writes the whole seconds of a duration in words; the fraction of a second
/// is dropped.
pub fn duration_formatter(duration: Duration) -> (s: String)
    ensures
        s@ == duration_text(whole_seconds(duration) as nat),
{
    format_seconds(duration.as_secs())
}

/// The ordinal ending of a number: `th` for the numbers that end in 11, 12
/// or 13; for the others `st` after a last digit of 1, `nd` after 2, `rd`
/// after 3, and `th` after every other digit.
pub open spec fn ordinal_ending(n: nat) -> Seq<char> {
    if n % 100 == 11 || n % 100 == 12 || n % 100 == 13 {
        "th"@
    } else if n % 10 == 1 {
        "st"@
    } else if n % 10 == 2 {
        "nd"@
    } else if n % 10 == 3 {
        "rd"@
    } else {
        "th"@
    }
}

/// A number followed by its ordinal ending.
pub open spec fn ordinal_text(n: nat) -> Seq<char> {
    decimal_digits(n) + ordinal_ending(n)
}

/// An ordinal text tells its number: two numbers with the same text are the
/// same number.
pub proof fn lemma_ordinal_text_injective(a: nat, b: nat)
    requires
        ordinal_text(a) == ordinal_text(b),
    ensures
        a == b,
{
    reveal_strlit("st");
    reveal_strlit("nd");
    reveal_strlit("rd");
    reveal_strlit("th");
    let text = ordinal_text(a);
    assert(ordinal_ending(a).len() == 2);
    assert(ordinal_ending(b).len() == 2);
    assert(decimal_digits(a) =~= text.subrange(0, text.len() - 2));
    assert(decimal_digits(b) =~= text.subrange(0, text.len() - 2));
    lemma_decimal_digits_injective(a, b);
}

/// Writes `num` with its ordinal ending, as in `1st`, `22nd`, `103rd` and
/// `11th`.
pub fn num_prefix(num: usize) -> (s: String)
    ensures
        s@ == ordinal_text(num as nat),
{
    let mut s = decimal_string(num as u128);
    let teens: usize = num % 100;
    let last: usize = num % 10;
    if teens == 11 || teens == 12 || teens == 13 {
        s.append("th");
    } else if last == 1 {
        s.append("st");
    } else if last == 2 {
        s.append("nd");
    } else if last == 3 {
        s.append("rd");
    } else {
        s.append("th");
    }
    s
}

} // verus!

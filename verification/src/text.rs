//! Text as the stock tables need it: whole numbers in decimal, a search for a part of a
//! name, and names in lower case.

use vstd::prelude::*;
use vstd::string::StringExecFns;

verus! {

/// What `str::to_lowercase` makes of a text.
pub uninterp spec fn spec_lowercase(text: Seq<char>) -> Seq<char>;

/// Whether `part` stands somewhere in `text`, character for character.
pub open spec fn spec_contains(text: Seq<char>, part: Seq<char>) -> bool {
    exists|start: int|
        0 <= start <= text.len() - part.len() && #[trigger] text.subrange(
            start,
            start + part.len(),
        ) == part
}

/// The empty text stands in every text, and every text stands in itself.
pub proof fn lemma_contains_empty_and_self(text: Seq<char>)
    ensures
        spec_contains(text, Seq::empty()),
        spec_contains(text, text),
{
    assert(text.subrange(0int, 0int + Seq::<char>::empty().len()) =~= Seq::<char>::empty());
    assert(text.subrange(0int, 0int + text.len()) =~= text);
}

/// The character of a decimal digit.
pub open spec fn spec_digit(digit: nat) -> char {
    if digit == 0 {
        '0'
    } else if digit == 1 {
        '1'
    } else if digit == 2 {
        '2'
    } else if digit == 3 {
        '3'
    } else if digit == 4 {
        '4'
    } else if digit == 5 {
        '5'
    } else if digit == 6 {
        '6'
    } else if digit == 7 {
        '7'
    } else if digit == 8 {
        '8'
    } else {
        '9'
    }
}

/// A whole number in decimal, without leading zeros.
pub open spec fn spec_decimal(number: nat) -> Seq<char>
    decreases number,
{
    if number < 10 {
        seq![spec_digit(number)]
    } else {
        spec_decimal(number / 10).push(spec_digit(number % 10))
    }
}

/// `str::contains` with a text as the pattern: whether the pattern matches a part of the
/// text.
#[verifier::external_body]
fn str_contains(text: &str, part: &str) -> (found: bool)
    ensures
        found == spec_contains(text@, part@),
{
    text.contains(part)
}

/// `str::to_lowercase`: the text in lower case as Unicode defines it. The contract only
/// gives the result its name.
#[verifier::external_body]
fn str_to_lowercase(text: &str) -> (lowered: String)
    ensures
        lowered@ == spec_lowercase(text@),
{
    text.to_lowercase()
}

/// Whether `text` holds exactly the characters of `other`.
pub fn equals(text: &str, other: &str) -> (same: bool)
    ensures
        same == (text@ == other@),
{
    String::from_str(text) == String::from_str(other)
}

/// Whether `part` stands somewhere in `text`. The empty text stands in every text.
pub fn contains(text: &str, part: &str) -> (found: bool)
    ensures
        found == spec_contains(text@, part@),
{
    str_contains(text, part)
}

/// Whether `filter` stands somewhere in `name` once `name` is put in lower case.
pub open spec fn spec_name_matches(name: Seq<char>, filter: Seq<char>) -> bool {
    spec_contains(spec_lowercase(name), filter)
}

/// Whether `filter` stands somewhere in `name` once `name` is put in lower case. Capital
/// letters in `filter` are left as they are.
pub fn name_matches(name: &str, filter: &str) -> (found: bool)
    ensures
        found == spec_name_matches(name@, filter@),
{
    let lowered: String = str_to_lowercase(name);
    str_contains(lowered.as_str(), filter)
}

fn digit_text(digit: u32) -> (text: &'static str)
    requires
        digit < 10,
    ensures
        text@ == seq![spec_digit(digit as nat)],
{
    proof {
        reveal_strlit("0");
        reveal_strlit("1");
        reveal_strlit("2");
        reveal_strlit("3");
        reveal_strlit("4");
        reveal_strlit("5");
        reveal_strlit("6");
        reveal_strlit("7");
        reveal_strlit("8");
        reveal_strlit("9");
    }
    let text: &'static str = if digit == 0 {
        "0"
    } else if digit == 1 {
        "1"
    } else if digit == 2 {
        "2"
    } else if digit == 3 {
        "3"
    } else if digit == 4 {
        "4"
    } else if digit == 5 {
        "5"
    } else if digit == 6 {
        "6"
    } else if digit == 7 {
        "7"
    } else if digit == 8 {
        "8"
    } else {
        "9"
    };
    text
}

/// Writes `number` in decimal behind what `target` holds.
pub fn append_decimal(target: &mut String, number: u32)
    ensures
        final(target)@ == old(target)@ + spec_decimal(number as nat),
    decreases number,
{
    if number >= 10 {
        append_decimal(target, number / 10);
    }
    target.append(digit_text(number % 10));
}

/// `number` in decimal.
pub fn decimal(number: u32) -> (text: String)
    ensures
        text@ == spec_decimal(number as nat),
{
    let mut text: String = String::new();
    append_decimal(&mut text, number);
    text
}

/// A whole number in decimal, with a minus sign in front where it is negative.
pub open spec fn spec_signed_decimal(number: int) -> Seq<char> {
    if number < 0 {
        "-"@ + spec_decimal((-number) as nat)
    } else {
        spec_decimal(number as nat)
    }
}

/// `number` in decimal, with a minus sign in front where it is negative.
pub fn signed_decimal(number: i32) -> (text: String)
    ensures
        text@ == spec_signed_decimal(number as int),
{
    if number < 0 {
        let mut text: String = String::from_str("-");
        append_decimal(&mut text, (-(number as i64)) as u32);
        text
    } else {
        decimal(number as u32)
    }
}

} // verus!

//! Small verified string utilities shared by the analyses.

use vstd::prelude::*;
use vstd::string::StrSliceExecFns;
use vstd::string::StringExecFns;

verus! {

/// Returns whether two string slices hold the same characters.
pub fn str_eq(left: &str, right: &str) -> (equal: bool)
    ensures
        equal == (left@ == right@),
{
    let left = String::from_str(left);
    let right = String::from_str(right);
    left == right
}

/// Returns `first` followed by `second`.
pub fn join2(first: &str, second: &str) -> (joined: String)
    ensures
        joined@ == first@ + second@,
{
    let mut joined = String::from_str(first);
    joined.append(second);
    joined
}

/// Returns the concatenation of three pieces.
pub fn join3(first: &str, second: &str, third: &str) -> (joined: String)
    ensures
        joined@ == first@ + second@ + third@,
{
    let mut joined = String::from_str(first);
    joined.append(second);
    joined.append(third);
    joined
}

/// Returns the concatenation of four pieces.
pub fn join4(first: &str, second: &str, third: &str, fourth: &str) -> (joined: String)
    ensures
        joined@ == first@ + second@ + third@ + fourth@,
{
    let mut joined = join3(first, second, third);
    joined.append(fourth);
    joined
}

/// Returns the concatenation of five pieces.
pub fn join5(first: &str, second: &str, third: &str, fourth: &str, fifth: &str) -> (joined: String)
    ensures
        joined@ == first@ + second@ + third@ + fourth@ + fifth@,
{
    let mut joined = join4(first, second, third, fourth);
    joined.append(fifth);
    joined
}

/// Returns the concatenation of seven pieces.
pub fn join7(
    first: &str,
    second: &str,
    third: &str,
    fourth: &str,
    fifth: &str,
    sixth: &str,
    seventh: &str,
) -> (joined: String)
    ensures
        joined@ == first@ + second@ + third@ + fourth@ + fifth@ + sixth@ + seventh@,
{
    let mut joined = join5(first, second, third, fourth, fifth);
    joined.append(sixth);
    joined.append(seventh);
    joined
}

/// The decimal digit character of `digit`.
pub open spec fn digit_char(digit: nat) -> char {
    if digit == 0 {
        '0'
    } else if digit == 1 {
        '1'
    } else if digit == 2 {
        '2'
    } else if digit == 3 {
        '3'
    } else if digit == 4 {
        '4'
    } else if digit == 5 {
        '5'
    } else if digit == 6 {
        '6'
    } else if digit == 7 {
        '7'
    } else if digit == 8 {
        '8'
    } else {
        '9'
    }
}

/// The shortest base-10 rendering of `value`.
pub open spec fn decimal(value: nat) -> Seq<char>
    decreases value,
{
    if value < 10 {
        seq![digit_char(value)]
    } else {
        decimal(value / 10) + seq![digit_char(value % 10)]
    }
}

pub(crate) fn digit_str(digit: usize) -> (text: &'static str)
    requires
        digit < 10,
    ensures
        text@ == seq![digit_char(digit as nat)],
{
    proof {
        reveal_strlit("0");
        reveal_strlit("1");
        reveal_strlit("2");
        reveal_strlit("3");
        reveal_strlit("4");
        reveal_strlit("5");
        reveal_strlit("6");
        reveal_strlit("7");
        reveal_strlit("8");
        reveal_strlit("9");
    }
    let text = if digit == 0 {
        "0"
    } else if digit == 1 {
        "1"
    } else if digit == 2 {
        "2"
    } else if digit == 3 {
        "3"
    } else if digit == 4 {
        "4"
    } else if digit == 5 {
        "5"
    } else if digit == 6 {
        "6"
    } else if digit == 7 {
        "7"
    } else if digit == 8 {
        "8"
    } else {
        "9"
    };
    assert(text@ =~= seq![digit_char(digit as nat)]);
    text
}

/// Renders `value` in base 10.
pub fn decimal_string(value: usize) -> (text: String)
    ensures
        text@ == decimal(value as nat),
    decreases value,
{
    if value < 10 {
        String::from_str(digit_str(value))
    } else {
        let mut text = decimal_string(value / 10);
        text.append(digit_str(value % 10));
        text
    }
}

/// Whether a character may start an identifier segment.
pub open spec fn is_identifier_start(character: char) -> bool {
    character == '_' || ('a' <= character <= 'z') || ('A' <= character <= 'Z')
}

/// Whether a character may continue an identifier segment.
pub open spec fn is_identifier_continue(character: char) -> bool {
    is_identifier_start(character) || ('0' <= character <= '9')
}

/// Returns the characters of a string slice.
pub fn chars_of(text: &str) -> (characters: Vec<char>)
    ensures
        characters@ == text@,
{
    let length = text.unicode_len();
    let mut characters: Vec<char> = Vec::new();
    let mut index: usize = 0;
    while index < length
        invariant
            length == text@.len(),
            index <= length,
            characters@ == text@.subrange(0, index as int),
        decreases length - index,
    {
        let character = text.get_char(index);
        characters.push(character);
        index += 1;
    }
    characters
}

/// Returns whether `text` starts with `prefix`.
pub fn starts_with(text: &str, prefix: &str) -> (result: bool)
    ensures
        result == (prefix@.len() <= text@.len() && text@.subrange(0, prefix@.len() as int)
            == prefix@),
{
    let whole = chars_of(text);
    let start = chars_of(prefix);
    if start.len() > whole.len() {
        return false;
    }
    let mut index: usize = 0;
    while index < start.len()
        invariant
            whole@ == text@,
            start@ == prefix@,
            start.len() <= whole.len(),
            index <= start.len(),
            forall|j: int| 0 <= j < index ==> whole@[j] == start@[j],
        decreases start.len() - index,
    {
        if whole[index] != start[index] {
            assert(text@.subrange(0, prefix@.len() as int)[index as int] != prefix@[index as int]);
            return false;
        }
        index += 1;
    }
    assert(text@.subrange(0, prefix@.len() as int) =~= prefix@);
    true
}

/// Appends one character to a string.
///
/// Trusted: calls `String::push`, which std documents as appending the given
/// character to the end of the string; vstd gives it no specification.
#[verifier::external_body]
pub fn push_char(text: &mut String, character: char)
    ensures
        final(text)@ == old(text)@.push(character),
{
    text.push(character);
}

} // verus!

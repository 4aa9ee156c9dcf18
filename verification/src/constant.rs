//! Structural values of const expressions: the literal defaults of trait
//! associated consts and the const arguments of reflected types.

use vstd::prelude::*;

use crate::ir::TokenTreeIr;
use crate::substitution::lemma_tokens_view_index;
use crate::substitution::token_text;
use crate::substitution::token_view;
use crate::substitution::tokens_text;
use crate::substitution::tokens_view;
use crate::substitution::TokenView;
use crate::text::chars_of;
use crate::text::join2;
use crate::text::str_eq;

verus! {

// ---------------------------------------------------------------------------
// Decimal integers
// ---------------------------------------------------------------------------

/// Whether a character is an ASCII decimal digit.
pub open spec fn is_decimal_digit(character: char) -> bool {
    '0' <= character <= '9'
}

/// Whether every character is a decimal digit.
pub open spec fn all_decimal_digits(text: Seq<char>) -> bool {
    forall|i: int| 0 <= i < text.len() ==> is_decimal_digit(#[trigger] text[i])
}

/// The value of a digit character.
pub open spec fn digit_value(character: char) -> int {
    character as int - '0' as int
}

/// The value of a string of decimal digits, most significant first.
pub open spec fn decimal_value(digits: Seq<char>) -> int
    decreases digits.len(),
{
    if digits.len() == 0 {
        0
    } else {
        decimal_value(digits.drop_last()) * 10 + digit_value(digits.last())
    }
}

/// The digits after an optional leading `+`, or `-` where it is allowed.
pub open spec fn unsigned_body(text: Seq<char>, minus_allowed: bool) -> Seq<char> {
    if text.len() > 0 && (text[0] == '+' || (minus_allowed && text[0] == '-')) {
        text.drop_first()
    } else {
        text
    }
}

/// What `u128::from_str` returns: an optional `+` and at least one decimal
/// digit, whose value fits in the type.
pub open spec fn unsigned_decimal(text: Seq<char>) -> Option<u128> {
    let body = unsigned_body(text, false);
    if body.len() > 0 && all_decimal_digits(body) && decimal_value(body) <= u128::MAX {
        Some(decimal_value(body) as u128)
    } else {
        None
    }
}

/// What `i128::from_str` returns: an optional `+` or `-` and at least one
/// decimal digit, whose signed value fits in the type.
pub open spec fn signed_decimal(text: Seq<char>) -> Option<i128> {
    let body = unsigned_body(text, true);
    let negative = text.len() > 0 && text[0] == '-';
    let value = if negative {
        -decimal_value(body)
    } else {
        decimal_value(body)
    };
    if body.len() > 0 && all_decimal_digits(body) && i128::MIN <= value <= i128::MAX {
        Some(value as i128)
    } else {
        None
    }
}

/// The value of decimal digits never falls below the value of a prefix.
proof fn lemma_decimal_value_grows(digits: Seq<char>, count: int)
    requires
        all_decimal_digits(digits),
        0 <= count <= digits.len(),
    ensures
        decimal_value(digits.take(count)) <= decimal_value(digits),
        0 <= decimal_value(digits),
    decreases digits.len(),
{
    if digits.len() > 0 {
        let shorter = digits.drop_last();
        assert(all_decimal_digits(shorter)) by {
            assert forall|i: int| 0 <= i < shorter.len() implies is_decimal_digit(#[trigger] shorter[i]) by {
                assert(shorter[i] == digits[i]);
            }
        }
        assert(is_decimal_digit(digits[digits.len() - 1]));
        if count == digits.len() {
            assert(digits.take(count) =~= digits);
            lemma_decimal_value_grows(shorter, 0);
        } else {
            assert(shorter.take(count) =~= digits.take(count));
            lemma_decimal_value_grows(shorter, count);
        }
    } else {
        assert(digits.take(count) =~= digits);
    }
}

/// Reads the magnitude of a string of decimal digits that starts at `start`.
/// Returns `None` when a character is not a digit, when there is no digit, or
/// when the value does not fit in a `u128`.
fn decimal_magnitude(characters: &Vec<char>, start: usize) -> (magnitude: Option<u128>)
    requires
        start <= characters.len(),
    ensures
        ({
            let body = characters@.skip(start as int);
            match magnitude {
                Some(value) => body.len() > 0 && all_decimal_digits(body) && value == decimal_value(body),
                None => !(body.len() > 0 && all_decimal_digits(body) && decimal_value(body) <= u128::MAX),
            }
        }),
{
    let ghost body = characters@.skip(start as int);
    if start == characters.len() {
        return None;
    }
    let mut value: u128 = 0;
    let mut index: usize = start;
    while index < characters.len()
        invariant
            start <= index <= characters.len(),
            body == characters@.skip(start as int),
            all_decimal_digits(body.take(index - start)),
            value == decimal_value(body.take(index - start)),
        decreases characters.len() - index,
    {
        let character = characters[index];
        let ghost prefix = body.take(index - start);
        let ghost next = body.take(index - start + 1);
        assert(next.drop_last() =~= prefix);
        assert(next.last() == character);
        if !('0' <= character && character <= '9') {
            proof {
                assert(!is_decimal_digit(body[index - start]));
            }
            return None;
        }
        let digit: u128 = (character as u32 - '0' as u32) as u128;
        assert(digit == digit_value(character));
        match value.checked_mul(10) {
            Some(scaled) => match scaled.checked_add(digit) {
                Some(total) => {
                    value = total;
                },
                None => {
                    proof {
                        assert(all_decimal_digits(next)) by {
                            assert forall|i: int| 0 <= i < next.len() implies is_decimal_digit(#[trigger] next[i]) by {
                                if i < prefix.len() {
                                    assert(next[i] == prefix[i]);
                                }
                            }
                        }
                        if all_decimal_digits(body) {
                            lemma_decimal_value_grows(body, index - start + 1);
                        }
                    }
                    return None;
                },
            },
            None => {
                proof {
                    assert(all_decimal_digits(next)) by {
                        assert forall|i: int| 0 <= i < next.len() implies is_decimal_digit(#[trigger] next[i]) by {
                            if i < prefix.len() {
                                assert(next[i] == prefix[i]);
                            }
                        }
                    }
                    if all_decimal_digits(body) {
                        lemma_decimal_value_grows(body, index - start + 1);
                    }
                }
                return None;
            },
        }
        proof {
            assert(all_decimal_digits(next)) by {
                assert forall|i: int| 0 <= i < next.len() implies is_decimal_digit(#[trigger] next[i]) by {
                    if i < prefix.len() {
                        assert(next[i] == prefix[i]);
                    }
                }
            }
        }
        index += 1;
    }
    assert(body.take(index - start) =~= body);
    Some(value)
}

/// Parses an unsigned decimal integer as `u128::from_str` does.
pub fn parse_unsigned_decimal(text: &str) -> (value: Option<u128>)
    ensures
        value == unsigned_decimal(text@),
{
    let characters = chars_of(text);
    let start: usize = if characters.len() > 0 && characters[0] == '+' {
        1
    } else {
        0
    };
    assert(characters@.skip(start as int) =~= unsigned_body(text@, false));
    decimal_magnitude(&characters, start)
}

/// Parses a signed decimal integer as `i128::from_str` does.
pub fn parse_signed_decimal(text: &str) -> (value: Option<i128>)
    ensures
        value == signed_decimal(text@),
{
    let characters = chars_of(text);
    let negative = characters.len() > 0 && characters[0] == '-';
    let start: usize = if characters.len() > 0 && (characters[0] == '+' || characters[0] == '-') {
        1
    } else {
        0
    };
    assert(characters@.skip(start as int) =~= unsigned_body(text@, true));
    match decimal_magnitude(&characters, start) {
        Some(magnitude) => {
            if negative {
                if magnitude <= 0x8000_0000_0000_0000_0000_0000_0000_0000u128 {
                    if magnitude == 0x8000_0000_0000_0000_0000_0000_0000_0000u128 {
                        Some(i128::MIN)
                    } else {
                        let positive = magnitude as i128;
                        Some(-positive)
                    }
                } else {
                    None
                }
            } else if magnitude <= 0x7fff_ffff_ffff_ffff_ffff_ffff_ffff_ffffu128 {
                Some(magnitude as i128)
            } else {
                None
            }
        },
        None => None,
    }
}

// ---------------------------------------------------------------------------
// Literal tokens
// ---------------------------------------------------------------------------

/// What a literal token is, as far as const values are read from it.
pub enum LiteralIr {
    /// A character literal, with its escape resolved.
    Character(char),
    /// An integer literal: its value as base-10 digits and its type suffix.
    Integer { digits: String, suffix: String },
    /// Any other literal.
    Other,
}

/// The value of a [`LiteralIr`].
pub enum LiteralView {
    Character(char),
    Integer(Seq<char>, Seq<char>),
    Other,
}

impl View for LiteralIr {
    type V = LiteralView;

    open spec fn view(&self) -> LiteralView {
        match self {
            LiteralIr::Character(character) => LiteralView::Character(*character),
            LiteralIr::Integer { digits, suffix } => LiteralView::Integer(digits@, suffix@),
            LiteralIr::Other => LiteralView::Other,
        }
    }
}

/// What `syn` reads from the spelling of one literal token: the value of a
/// character literal, the base-10 digits and the suffix of an integer
/// literal, `Other` for any other spelling. `syn` computes it from the
/// spelling alone (`LitChar::value`, `LitInt::base10_digits`,
/// `LitInt::suffix`).
pub uninterp spec fn literal_reading_of(text: Seq<char>) -> LiteralView;

/// Whether `syn` accepts the spelling of an identifier token as a
/// non-keyword identifier: its `Ident` parser checks the spelling against
/// the keyword list.
pub uninterp spec fn plain_identifier_of(text: Seq<char>) -> bool;

/// Reads one literal token.
///
/// Trusted: parses `text` with `syn::parse_str::<syn::Lit>`; a character
/// literal gives `LitChar::value`, an integer literal gives
/// `LitInt::base10_digits` and `LitInt::suffix`, anything else (another
/// literal kind or a parse error) gives `Other`. Where the text lexes as one
/// literal, `syn` computes the reading from its spelling alone; whether it
/// lexes at all is left to the lexer of the running process (the compiler's
/// inside a macro expansion, `proc_macro2`'s own elsewhere), so a reading
/// other than `Other` is the named one.
#[verifier::external_body]
pub(crate) fn lex_literal(text: &str) -> (literal: LiteralIr)
    ensures
        literal@ is Other || literal@ == literal_reading_of(text@),
{
    match syn::parse_str::<syn::Lit>(text) {
        Ok(syn::Lit::Char(character)) => LiteralIr::Character(character.value()),
        Ok(syn::Lit::Int(integer)) => LiteralIr::Integer {
            digits: integer.base10_digits().to_string(),
            suffix: integer.suffix().to_string(),
        },
        Ok(_) => LiteralIr::Other,
        Err(_) => LiteralIr::Other,
    }
}

/// Tells whether an identifier token names a binding rather than a keyword.
///
/// Trusted: returns whether `syn::parse_str::<syn::Ident>` accepts `text`.
/// An accepted text is one that `Ident`'s keyword check accepts; `true` and
/// `false` are keywords and never accepted. Whether a text lexes as one
/// identifier at all is left to the lexer of the running process.
#[verifier::external_body]
pub(crate) fn parses_as_identifier(text: &str) -> (plain: bool)
    ensures
        text@ == "true"@ || text@ == "false"@ ==> !plain,
        plain ==> plain_identifier_of(text@),
{
    syn::parse_str::<syn::Ident>(text).is_ok()
}

// ---------------------------------------------------------------------------
// Const values
// ---------------------------------------------------------------------------

/// The structural value of a const expression.
#[derive(Debug)]
pub enum ConstValueIr {
    /// A const generic parameter of the enclosing declaration.
    Parameter(String),
    Boolean(bool),
    Character(char),
    SignedInteger(i128),
    UnsignedInteger(u128),
}

/// The value of a [`ConstValueIr`].
pub enum ConstValueView {
    Parameter(Seq<char>),
    Boolean(bool),
    Character(char),
    SignedInteger(i128),
    UnsignedInteger(u128),
}

impl View for ConstValueIr {
    type V = ConstValueView;

    open spec fn view(&self) -> ConstValueView {
        match self {
            ConstValueIr::Parameter(name) => ConstValueView::Parameter(name@),
            ConstValueIr::Boolean(value) => ConstValueView::Boolean(*value),
            ConstValueIr::Character(value) => ConstValueView::Character(*value),
            ConstValueIr::SignedInteger(value) => ConstValueView::SignedInteger(*value),
            ConstValueIr::UnsignedInteger(value) => ConstValueView::UnsignedInteger(*value),
        }
    }
}

/// The value of an optional const value.
pub open spec fn optional_value_view(value: Option<ConstValueIr>) -> Option<ConstValueView> {
    match value {
        Some(value) => Some(value@),
        None => None,
    }
}

/// The value of a const value or its diagnostic.
pub open spec fn result_view(result: Result<ConstValueIr, String>) -> Result<ConstValueView, Seq<char>> {
    match result {
        Ok(value) => Ok(value@),
        Err(message) => Err(message@),
    }
}

/// Whether an integer suffix names a signed type.
pub open spec fn signed_suffix(suffix: Seq<char>) -> bool {
    ||| suffix == "i8"@
    ||| suffix == "i16"@
    ||| suffix == "i32"@
    ||| suffix == "i64"@
    ||| suffix == "i128"@
    ||| suffix == "isize"@
}

/// The value of an integer literal default: signed when it is negated or has
/// a signed suffix, unsigned otherwise; `None` when it does not fit.
pub open spec fn integer_const(digits: Seq<char>, suffix: Seq<char>, negative: bool) -> Option<ConstValueView> {
    if negative || signed_suffix(suffix) {
        match signed_decimal(digits) {
            Some(magnitude) => if !negative {
                Some(ConstValueView::SignedInteger(magnitude))
            } else if magnitude == i128::MIN {
                None
            } else {
                Some(ConstValueView::SignedInteger((-magnitude) as i128))
            },
            None => None,
        }
    } else {
        match unsigned_decimal(digits) {
            Some(value) => Some(ConstValueView::UnsignedInteger(value)),
            None => None,
        }
    }
}

/// The value of a literal default, negated when `negative`: characters and
/// integers have one, other literals and negated characters do not.
pub open spec fn literal_const_default(literal: LiteralView, negative: bool) -> Option<ConstValueView> {
    match literal {
        LiteralView::Character(character) => if negative {
            None
        } else {
            Some(ConstValueView::Character(character))
        },
        LiteralView::Integer(digits, suffix) => integer_const(digits, suffix, negative),
        LiteralView::Other => None,
    }
}

fn is_signed_suffix(suffix: &str) -> (signed: bool)
    ensures
        signed == signed_suffix(suffix@),
{
    str_eq(suffix, "i8") || str_eq(suffix, "i16") || str_eq(suffix, "i32") || str_eq(suffix, "i64")
        || str_eq(suffix, "i128") || str_eq(suffix, "isize")
}

/// Reads an integer literal default from its base-10 digits and suffix.
pub fn integer_const_default(digits: &str, suffix: &str, negative: bool) -> (value: Option<ConstValueIr>)
    ensures
        optional_value_view(value) == integer_const(digits@, suffix@, negative),
{
    if negative || is_signed_suffix(suffix) {
        match parse_signed_decimal(digits) {
            Some(magnitude) => {
                if !negative {
                    Some(ConstValueIr::SignedInteger(magnitude))
                } else {
                    if magnitude == i128::MIN {
                        None
                    } else {
                        Some(ConstValueIr::SignedInteger(-magnitude))
                    }
                }
            },
            None => None,
        }
    } else {
        match parse_unsigned_decimal(digits) {
            Some(value) => Some(ConstValueIr::UnsignedInteger(value)),
            None => None,
        }
    }
}

/// Reads the default of a literal token that was already lexed, negated when
/// `negative`.
pub fn literal_default_value(literal: &LiteralIr, negative: bool) -> (value: Option<ConstValueIr>)
    ensures
        optional_value_view(value) == literal_const_default(literal@, negative),
{
    match literal {
        LiteralIr::Character(character) => if negative {
            None
        } else {
            Some(ConstValueIr::Character(*character))
        },
        LiteralIr::Integer { digits, suffix } => integer_const_default(digits.as_str(), suffix.as_str(), negative),
        LiteralIr::Other => None,
    }
}

// ---------------------------------------------------------------------------
// Const defaults
// ---------------------------------------------------------------------------

/// The diagnostic for a const default without a structural value.
pub open spec fn const_default_message(source: Seq<char>) -> Seq<char> {
    "unsupported non-literal const default in #[reflect] trait: "@ + source
}

/// The structural value of the default of a trait associated const, or the
/// diagnostic that refuses it, where `literal` is how its literal token
/// reads. Only `true`, `false`, character and integer literals, and negated
/// integer literals have a value.
pub open spec fn const_default_given(tokens: Seq<TokenView>, literal: LiteralView) -> Result<
    ConstValueView,
    Seq<char>,
> {
    let refused = Err(const_default_message(token_text(tokens)));
    if tokens.len() == 1 {
        match tokens[0] {
            TokenView::Ident(name, _) => if name == "true"@ || name == "false"@ {
                Ok(ConstValueView::Boolean(name == "true"@))
            } else {
                refused
            },
            TokenView::Literal(text, _) => match literal_const_default(literal, false) {
                Some(value) => Ok(value),
                None => refused,
            },
            _ => refused,
        }
    } else if tokens.len() == 2 && (tokens[0] matches TokenView::Punct(minus, _, _) && minus == '-') {
        match tokens[1] {
            TokenView::Literal(text, _) => match literal {
                LiteralView::Integer(_, _) => match literal_const_default(literal, true) {
                    Some(value) => Ok(value),
                    None => Err(const_default_message(token_text(tokens.drop_first()))),
                },
                _ => refused,
            },
            _ => refused,
        }
    } else {
        refused
    }
}

/// The spelling of the literal token of a const expression: the only
/// token, or the token after a leading `-`.
pub open spec fn literal_text_of(tokens: Seq<TokenView>) -> Option<Seq<char>> {
    if tokens.len() == 1 {
        match tokens[0] {
            TokenView::Literal(text, _) => Some(text),
            _ => None,
        }
    } else if tokens.len() == 2 && (tokens[0] matches TokenView::Punct(minus, _, _) && minus == '-') {
        match tokens[1] {
            TokenView::Literal(text, _) => Some(text),
            _ => None,
        }
    } else {
        None
    }
}

/// What `syn` reads from the literal token of a const expression.
pub open spec fn literal_at(tokens: Seq<TokenView>) -> LiteralView {
    match literal_text_of(tokens) {
        Some(text) => literal_reading_of(text),
        None => LiteralView::Other,
    }
}

/// Whether `result` is the default value of `tokens`: the one its literal
/// token's reading gives, or, where the literal does not lex, the refusal.
pub open spec fn const_default_admits(result: Result<ConstValueView, Seq<char>>, tokens: Seq<TokenView>) -> bool {
    ||| result == const_default_given(tokens, literal_at(tokens))
    ||| result == const_default_given(tokens, LiteralView::Other)
}

/// Reads the literal token of a const expression: the only token, or the
/// token after a leading `-`; `Other` where there is none.
fn literal_reading(tokens: &Vec<TokenTreeIr>) -> (literal: LiteralIr)
    ensures
        literal@ is Other || literal@ == literal_at(tokens_view(tokens@)),
{
    proof {
        lemma_tokens_view_index(tokens@);
    }
    if tokens.len() == 1 {
        if let TokenTreeIr::Literal { text, .. } = &tokens[0] {
            return lex_literal(text.as_str());
        }
    } else if tokens.len() == 2 {
        if let TokenTreeIr::Punct { ch, .. } = &tokens[0] {
            if *ch == '-' {
                if let TokenTreeIr::Literal { text, .. } = &tokens[1] {
                    return lex_literal(text.as_str());
                }
            }
        }
    }
    LiteralIr::Other
}

/// Returns the structural value of a trait associated const default, or the
/// diagnostic that refuses a default without one. The literal token is read
/// by `syn`; the result is the one [`const_default_from`] gives for that
/// reading.
pub fn const_default_value(tokens: &Vec<TokenTreeIr>) -> (value: Result<ConstValueIr, String>)
    ensures
        const_default_admits(result_view(value), tokens_view(tokens@)),
{
    let literal = literal_reading(tokens);
    let value = const_default_from(tokens, &literal);
    assert(result_view(value) == const_default_given(tokens_view(tokens@), literal@));
    value
}

/// Returns the structural value of a trait associated const default whose
/// literal token reads as `literal`, or the diagnostic that refuses it.
pub fn const_default_from(tokens: &Vec<TokenTreeIr>, literal: &LiteralIr) -> (value: Result<ConstValueIr, String>)
    ensures
        result_view(value) == const_default_given(tokens_view(tokens@), literal@),
{
    proof {
        lemma_tokens_view_index(tokens@);
        reveal_strlit("true");
        reveal_strlit("false");
        reveal_strlit("unsupported non-literal const default in #[reflect] trait: ");
    }
    let prefix = "unsupported non-literal const default in #[reflect] trait: ";
    if tokens.len() == 1 {
        match &tokens[0] {
            TokenTreeIr::Ident { name, .. } => {
                if str_eq(name.as_str(), "true") {
                    return Ok(ConstValueIr::Boolean(true));
                }
                if str_eq(name.as_str(), "false") {
                    return Ok(ConstValueIr::Boolean(false));
                }
            },
            TokenTreeIr::Literal { .. } => {
                if let Some(value) = literal_default_value(literal, false) {
                    return Ok(value);
                }
            },
            _ => {},
        }
    } else if tokens.len() == 2 {
        if let TokenTreeIr::Punct { ch, .. } = &tokens[0] {
            if *ch == '-' {
                if let TokenTreeIr::Literal { text, .. } = &tokens[1] {
                    if let LiteralIr::Integer { .. } = literal {
                        return match literal_default_value(literal, true) {
                            Some(value) => Ok(value),
                            None => {
                                proof {
                                    let rest = tokens_view(tokens@).drop_first();
                                    assert(rest[0] == token_view(tokens@[1]));
                                    assert(rest[0] matches TokenView::Literal(value, _) && value == text@);
                                    assert(rest.drop_first() =~= Seq::<TokenView>::empty());
                                    assert(token_text(rest.drop_first()) == Seq::<char>::empty());
                                    assert(token_text(rest) =~= text@);
                                }
                                Err(join2(prefix, text.as_str()))
                            },
                        };
                    }
                }
            }
        }
    }
    let source = tokens_text(tokens);
    Err(join2(prefix, source.as_str()))
}

// ---------------------------------------------------------------------------
// Const arguments
// ---------------------------------------------------------------------------

/// The diagnostic for a const argument without a structural value.
pub open spec fn const_argument_message(source: Seq<char>) -> Seq<char> {
    "unsupported const expression in #[reflect] trait: "@ + source
}

/// The value of a literal const argument, negated when `negative`: an
/// unsigned integer whatever its suffix, or a negated signed one.
pub open spec fn literal_const_argument(literal: LiteralView, negative: bool) -> Option<ConstValueView> {
    match literal {
        LiteralView::Character(character) => if negative {
            None
        } else {
            Some(ConstValueView::Character(character))
        },
        LiteralView::Integer(digits, _) => if negative {
            match signed_decimal(digits) {
                Some(magnitude) => if magnitude == i128::MIN {
                    None
                } else {
                    Some(ConstValueView::SignedInteger((-magnitude) as i128))
                },
                None => None,
            }
        } else {
            match unsigned_decimal(digits) {
                Some(value) => Some(ConstValueView::UnsignedInteger(value)),
                None => None,
            }
        },
        LiteralView::Other => None,
    }
}

/// The structural value of a const argument of a reflected type (an array
/// length or a const generic argument), or the diagnostic that refuses it:
/// a const parameter, `true`, `false`, a character or integer literal, or a
/// negated integer literal.
///
/// `literal` is how the literal token reads, and `plain` whether the
/// identifier parses as a non-keyword identifier; `true` and `false` are
/// never read as one.
pub open spec fn const_argument_given(tokens: Seq<TokenView>, literal: LiteralView, plain: bool) -> Result<
    ConstValueView,
    Seq<char>,
> {
    let refused = Err(const_argument_message(token_text(tokens)));
    if tokens.len() == 1 {
        match tokens[0] {
            TokenView::Ident(name, _) => if plain && !(name == "true"@ || name == "false"@) {
                Ok(ConstValueView::Parameter(name))
            } else if name == "true"@ || name == "false"@ {
                Ok(ConstValueView::Boolean(name == "true"@))
            } else {
                refused
            },
            TokenView::Literal(text, _) => match literal_const_argument(literal, false) {
                Some(value) => Ok(value),
                None => refused,
            },
            _ => refused,
        }
    } else if tokens.len() == 2 && (tokens[0] matches TokenView::Punct(minus, _, _) && minus == '-') {
        match tokens[1] {
            TokenView::Literal(text, _) => match literal_const_argument(literal, true) {
                Some(value) => Ok(value),
                None => refused,
            },
            _ => refused,
        }
    } else {
        refused
    }
}

/// Whether `syn` reads a const argument that is one identifier as a
/// non-keyword identifier.
pub open spec fn plain_at(tokens: Seq<TokenView>) -> bool {
    tokens.len() == 1 && (tokens[0] matches TokenView::Ident(name, _) && plain_identifier_of(name))
}

/// Whether `result` is the value of the const argument `tokens`: the one
/// `syn`'s readings of its token give, or, where the token does not lex,
/// the value without a reading.
pub open spec fn const_argument_admits(result: Result<ConstValueView, Seq<char>>, tokens: Seq<TokenView>) -> bool {
    ||| result == const_argument_given(tokens, literal_at(tokens), plain_at(tokens))
    ||| result == const_argument_given(tokens, LiteralView::Other, false)
}

/// Reads the value of a literal const argument that was already lexed,
/// negated when `negative`.
pub fn literal_argument_value(literal: &LiteralIr, negative: bool) -> (value: Option<ConstValueIr>)
    ensures
        optional_value_view(value) == literal_const_argument(literal@, negative),
{
    match literal {
        LiteralIr::Character(character) => if negative {
            None
        } else {
            Some(ConstValueIr::Character(*character))
        },
        LiteralIr::Integer { digits, .. } => if negative {
            match parse_signed_decimal(digits.as_str()) {
                Some(magnitude) => if magnitude == i128::MIN {
                    None
                } else {
                    Some(ConstValueIr::SignedInteger(-magnitude))
                },
                None => None,
            }
        } else {
            match parse_unsigned_decimal(digits.as_str()) {
                Some(value) => Some(ConstValueIr::UnsignedInteger(value)),
                None => None,
            }
        },
        LiteralIr::Other => None,
    }
}

/// Returns the structural value of a const argument of a reflected type, or
/// the diagnostic that refuses an expression without one. Its token is read
/// by `syn`; the result is the one [`const_argument_from`] gives for that
/// reading.
pub fn const_argument_value(tokens: &Vec<TokenTreeIr>) -> (value: Result<ConstValueIr, String>)
    ensures
        const_argument_admits(result_view(value), tokens_view(tokens@)),
{
    let literal = literal_reading(tokens);
    let mut plain = false;
    if tokens.len() == 1 {
        if let TokenTreeIr::Ident { name, .. } = &tokens[0] {
            plain = parses_as_identifier(name.as_str());
            proof {
                lemma_tokens_view_index(tokens@);
                reveal_strlit("true");
                reveal_strlit("false");
            }
        }
    }
    let value = const_argument_from(tokens, &literal, plain);
    proof {
        let tv = tokens_view(tokens@);
        lemma_tokens_view_index(tokens@);
        assert(result_view(value) == const_argument_given(tv, literal@, plain));
        if tv.len() == 1 && tv[0] is Ident {
            assert(literal_text_of(tv) is None);
            assert(literal@ is Other);
        } else {
            assert(!plain);
            assert(!plain_at(tv));
        }
    }
    value
}

/// Returns the structural value of a const argument whose literal token
/// reads as `literal` and whose identifier is `plain` or not, or the
/// diagnostic that refuses it.
pub fn const_argument_from(tokens: &Vec<TokenTreeIr>, literal: &LiteralIr, plain: bool) -> (value: Result<
    ConstValueIr,
    String,
>)
    ensures
        result_view(value) == const_argument_given(tokens_view(tokens@), literal@, plain),
{
    proof {
        lemma_tokens_view_index(tokens@);
        reveal_strlit("true");
        reveal_strlit("false");
    }
    if tokens.len() == 1 {
        match &tokens[0] {
            TokenTreeIr::Ident { name, .. } => {
                if plain && !str_eq(name.as_str(), "true") && !str_eq(name.as_str(), "false") {
                    return Ok(ConstValueIr::Parameter(name.clone()));
                }
                if str_eq(name.as_str(), "true") {
                    return Ok(ConstValueIr::Boolean(true));
                }
                if str_eq(name.as_str(), "false") {
                    return Ok(ConstValueIr::Boolean(false));
                }
            },
            TokenTreeIr::Literal { .. } => {
                if let Some(value) = literal_argument_value(literal, false) {
                    return Ok(value);
                }
            },
            _ => {},
        }
    } else if tokens.len() == 2 {
        if let TokenTreeIr::Punct { ch, .. } = &tokens[0] {
            if *ch == '-' {
                if let TokenTreeIr::Literal { .. } = &tokens[1] {
                    if let Some(value) = literal_argument_value(literal, true) {
                        return Ok(value);
                    }
                }
            }
        }
    }
    let source = tokens_text(tokens);
    proof {
        reveal_strlit("unsupported const expression in #[reflect] trait: ");
    }
    Err(join2("unsupported const expression in #[reflect] trait: ", source.as_str()))
}

} // verus!

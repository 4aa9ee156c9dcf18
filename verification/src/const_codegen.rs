//! Token emission of the structural value of a const default.

use vstd::prelude::*;
use vstd::string::StringExecFns;

use crate::codegen::ident_view;
use crate::codegen::path_tokens;
use crate::codegen::path_view;
use crate::codegen::punct_view;
use crate::constant::const_default_admits;
use crate::constant::const_default_value;
use crate::constant::result_view;
use crate::constant::ConstValueIr;
use crate::constant::ConstValueView;
use crate::construction::empty_tokens;
use crate::construction::group_view;
use crate::construction::literal_view;
use crate::construction::push_group;
use crate::construction::push_ident;
use crate::construction::push_literal;
use crate::construction::push_punct;
use crate::ir::DelimiterIr;
use crate::ir::TokenTreeIr;
use crate::substitution::tokens_view;
use crate::substitution::TokenView;
use crate::text::chars_of;
use crate::text::decimal;
use crate::text::digit_str;
use crate::text::push_char;

verus! {

// ---------------------------------------------------------------------------
// Literal spellings
// ---------------------------------------------------------------------------

/// The spelling of one character inside a literal delimited by `quote`.
pub open spec fn escaped_char(c: char, quote: char) -> Seq<char> {
    if c == '\\' {
        seq!['\\', '\\']
    } else if c == quote {
        seq!['\\', quote]
    } else if c == '\n' {
        seq!['\\', 'n']
    } else if c == '\r' {
        seq!['\\', 'r']
    } else if c == '\t' {
        seq!['\\', 't']
    } else if c == '\0' {
        seq!['\\', '0']
    } else {
        seq![c]
    }
}

/// The spelling of characters inside a literal delimited by `quote`.
pub open spec fn escaped(text: Seq<char>, quote: char) -> Seq<char>
    decreases text.len(),
{
    if text.len() == 0 {
        Seq::empty()
    } else {
        escaped(text.drop_last(), quote) + escaped_char(text.last(), quote)
    }
}

/// A character literal that denotes `c`.
pub open spec fn char_literal(c: char) -> Seq<char> {
    seq!['\''] + escaped_char(c, '\'') + seq!['\'']
}

/// A string literal that denotes `text`.
pub open spec fn string_literal(text: Seq<char>) -> Seq<char> {
    seq!['"'] + escaped(text, '"') + seq!['"']
}

fn push_escaped_char(out: &mut String, c: char, quote: char)
    ensures
        final(out)@ == old(out)@ + escaped_char(c, quote),
{
    let ghost start = out@;
    if c == '\\' {
        push_char(out, '\\');
        push_char(out, '\\');
    } else if c == quote {
        push_char(out, '\\');
        push_char(out, quote);
    } else if c == '\n' {
        push_char(out, '\\');
        push_char(out, 'n');
    } else if c == '\r' {
        push_char(out, '\\');
        push_char(out, 'r');
    } else if c == '\t' {
        push_char(out, '\\');
        push_char(out, 't');
    } else if c == '\0' {
        push_char(out, '\\');
        push_char(out, '0');
    } else {
        push_char(out, c);
    }
    assert(out@ =~= start + escaped_char(c, quote));
}

/// Returns a character literal that denotes `c`.
pub fn char_literal_of(c: char) -> (literal: String)
    ensures
        literal@ == char_literal(c),
{
    let mut out = String::new();
    assert(out@ =~= Seq::<char>::empty());
    push_char(&mut out, '\'');
    push_escaped_char(&mut out, c, '\'');
    push_char(&mut out, '\'');
    assert(out@ =~= char_literal(c));
    out
}

/// Returns a string literal that denotes `text`.
pub fn string_literal_of(text: &str) -> (literal: String)
    ensures
        literal@ == string_literal(text@),
{
    let characters = chars_of(text);
    let mut out = String::new();
    assert(out@ =~= Seq::<char>::empty());
    push_char(&mut out, '"');
    let mut index: usize = 0;
    assert(characters@.take(0) =~= Seq::<char>::empty());
    assert(out@ =~= seq!['"'] + escaped(characters@.take(0), '"'));
    while index < characters.len()
        invariant
            index <= characters@.len(),
            characters@ == text@,
            out@ == seq!['"'] + escaped(characters@.take(index as int), '"'),
        decreases characters.len() - index,
    {
        let ghost before = out@;
        push_escaped_char(&mut out, characters[index], '"');
        proof {
            let next = characters@.take(index + 1);
            assert(next.drop_last() =~= characters@.take(index as int));
            assert(next.last() == characters@[index as int]);
            assert(out@ =~= seq!['"'] + escaped(next, '"'));
        }
        index += 1;
    }
    assert(characters@.take(index as int) =~= characters@);
    push_char(&mut out, '"');
    assert(out@ =~= string_literal(text@));
    out
}

// ---------------------------------------------------------------------------
// Const values
// ---------------------------------------------------------------------------

/// `Some(facade::expression::ConstExpression::kind(value))`.
pub open spec fn some_expression_view(facade: Seq<TokenView>, kind: Seq<char>, value: Seq<TokenView>) -> Seq<
    TokenView,
> {
    seq![
        ident_view("Some"@),
        group_view(
            DelimiterIr::Parenthesis,
            path_view(facade, seq!["expression"@, "ConstExpression"@, kind]) + seq![
                group_view(DelimiterIr::Parenthesis, value),
            ],
        ),
    ]
}

/// The expression a const default value is emitted as: its structural
/// value, a parameter by name, or a compile error carrying the refusal.
pub open spec fn const_value_expression_view(
    facade: Seq<TokenView>,
    value: Result<ConstValueView, Seq<char>>,
) -> Seq<TokenView> {
    match value {
        Ok(ConstValueView::Boolean(flag)) => some_expression_view(
            facade,
            "Boolean"@,
            seq![ident_view(if flag { "true"@ } else { "false"@ })],
        ),
        Ok(ConstValueView::Character(c)) => some_expression_view(
            facade,
            "Character"@,
            seq![literal_view(char_literal(c))],
        ),
        Ok(ConstValueView::SignedInteger(v)) => some_expression_view(
            facade,
            "SignedInteger"@,
            if v < 0 {
                seq![punct_view('-', false), literal_view(decimal((-v) as nat) + "i128"@)]
            } else {
                seq![literal_view(decimal(v as nat) + "i128"@)]
            },
        ),
        Ok(ConstValueView::UnsignedInteger(v)) => some_expression_view(
            facade,
            "UnsignedInteger"@,
            seq![literal_view(decimal(v as nat) + "u128"@)],
        ),
        Ok(ConstValueView::Parameter(name)) => some_expression_view(facade, "Parameter"@, seq![ident_view(name)]),
        Err(message) => seq![
            ident_view("compile_error"@),
            punct_view('!', false),
            group_view(DelimiterIr::Parenthesis, seq![literal_view(string_literal(message))]),
        ],
    }
}

fn u128_decimal(value: u128) -> (text: String)
    ensures
        text@ == decimal(value as nat),
    decreases value,
{
    if value < 10 {
        String::from_str(digit_str(value as usize))
    } else {
        let mut text = u128_decimal(value / 10);
        text.append(digit_str((value % 10) as usize));
        text
    }
}

fn some_expression(facade: &Vec<TokenTreeIr>, kind: &str, inner: Vec<TokenTreeIr>) -> (tokens: Vec<TokenTreeIr>)
    ensures
        tokens_view(tokens@) == some_expression_view(tokens_view(facade@), kind@, tokens_view(inner@)),
{
    let ghost inner_view = tokens_view(inner@);
    let names: [&str; 3] = ["expression", "ConstExpression", kind];
    assert(names@.map_values(|name: &str| name@) =~= seq!["expression"@, "ConstExpression"@, kind@]);
    let mut path = path_tokens(facade, names.as_slice());
    push_group(&mut path, DelimiterIr::Parenthesis, inner);
    let ghost path_view_now = tokens_view(path@);
    assert(path_view_now =~= path_view(tokens_view(facade@), seq!["expression"@, "ConstExpression"@, kind@]) + seq![
        group_view(DelimiterIr::Parenthesis, inner_view),
    ]);
    let mut tokens = empty_tokens();
    push_ident(&mut tokens, "Some");
    push_group(&mut tokens, DelimiterIr::Parenthesis, path);
    assert(tokens_view(tokens@) =~= some_expression_view(tokens_view(facade@), kind@, inner_view));
    tokens
}

fn suffixed(value: u128, suffix: &str) -> (text: String)
    ensures
        text@ == decimal(value as nat) + suffix@,
{
    let mut text = u128_decimal(value);
    text.append(suffix);
    text
}

/// Emits the expression of a const default value.
pub fn const_value_expression(value: &Result<ConstValueIr, String>, facade: &Vec<TokenTreeIr>) -> (tokens: Vec<
    TokenTreeIr,
>)
    ensures
        tokens_view(tokens@) == const_value_expression_view(tokens_view(facade@), result_view(*value)),
{
    let ghost facade_view = tokens_view(facade@);
    proof {
        reveal_strlit("i128");
        reveal_strlit("u128");
    }
    let mut inner = empty_tokens();
    match value {
        Ok(ConstValueIr::Boolean(flag)) => {
            push_ident(&mut inner, if *flag { "true" } else { "false" });
            assert(tokens_view(inner@) =~= seq![ident_view(if *flag { "true"@ } else { "false"@ })]);
            some_expression(facade, "Boolean", inner)
        },
        Ok(ConstValueIr::Character(c)) => {
            push_literal(&mut inner, char_literal_of(*c));
            assert(tokens_view(inner@) =~= seq![literal_view(char_literal(*c))]);
            some_expression(facade, "Character", inner)
        },
        Ok(ConstValueIr::SignedInteger(v)) => {
            if *v < 0 {
                push_punct(&mut inner, '-', false);
                let magnitude: u128 = if *v == i128::MIN {
                    170141183460469231731687303715884105728u128
                } else {
                    (-*v) as u128
                };
                assert(magnitude as int == -(*v as int));
                push_literal(&mut inner, suffixed(magnitude, "i128"));
                assert(tokens_view(inner@) =~= seq![
                    punct_view('-', false),
                    literal_view(decimal((-*v) as nat) + "i128"@),
                ]);
            } else {
                push_literal(&mut inner, suffixed(*v as u128, "i128"));
                assert(tokens_view(inner@) =~= seq![literal_view(decimal(*v as nat) + "i128"@)]);
            }
            some_expression(facade, "SignedInteger", inner)
        },
        Ok(ConstValueIr::UnsignedInteger(v)) => {
            push_literal(&mut inner, suffixed(*v, "u128"));
            assert(tokens_view(inner@) =~= seq![literal_view(decimal(*v as nat) + "u128"@)]);
            some_expression(facade, "UnsignedInteger", inner)
        },
        Ok(ConstValueIr::Parameter(name)) => {
            push_ident(&mut inner, name.as_str());
            assert(tokens_view(inner@) =~= seq![ident_view(name@)]);
            some_expression(facade, "Parameter", inner)
        },
        Err(message) => {
            let mut tokens = empty_tokens();
            push_ident(&mut tokens, "compile_error");
            push_punct(&mut tokens, '!', false);
            push_literal(&mut inner, string_literal_of(message.as_str()));
            let ghost argument_view = tokens_view(inner@);
            push_group(&mut tokens, DelimiterIr::Parenthesis, inner);
            assert(tokens_view(tokens@) =~= const_value_expression_view(facade_view, result_view(*value)));
            tokens
        },
    }
}

/// Emits a trait associated const default as an expression: its structural
/// value, or a compile error where it has none. The literal is read by
/// `syn`, as [`const_default_value`] says.
pub fn const_expression(tokens: &Vec<TokenTreeIr>, facade: &Vec<TokenTreeIr>) -> (expression: Vec<TokenTreeIr>)
    ensures
        exists|value: Result<ConstValueView, Seq<char>>|
            const_default_admits(value, tokens_view(tokens@)) && tokens_view(expression@)
                == const_value_expression_view(tokens_view(facade@), value),
{
    let value = const_default_value(tokens);
    let expression = const_value_expression(&value, facade);
    assert(const_default_admits(result_view(value), tokens_view(tokens@)));
    expression
}

// ---------------------------------------------------------------------------
// Lifetimes
// ---------------------------------------------------------------------------

/// A lifetime as a runtime expression: `'static` by its variant, any other
/// by its name without the quote.
pub open spec fn lifetime_expression_view(facade: Seq<TokenView>, lifetime: Seq<char>) -> Seq<TokenView> {
    if lifetime == "'static"@ {
        path_view(facade, seq!["expression"@, "LifetimeExpression"@, "Static"@])
    } else {
        path_view(facade, seq!["__private"@, "codegen_v1"@, "expression"@, "named_lifetime"@]) + seq![
            group_view(
                DelimiterIr::Parenthesis,
                seq![literal_view(string_literal(crate::generics::trim_quotes(lifetime)))],
            ),
        ]
    }
}

fn trim_quotes_of(text: &str) -> (trimmed: String)
    ensures
        trimmed@ == crate::generics::trim_quotes(text@),
{
    let characters = chars_of(text);
    let mut start: usize = 0;
    assert(characters@.skip(0) =~= characters@);
    while start < characters.len() && characters[start] == '\''
        invariant
            start <= characters@.len(),
            characters@ == text@,
            crate::generics::trim_quotes(characters@.skip(start as int)) == crate::generics::trim_quotes(text@),
        decreases characters.len() - start,
    {
        assert(characters@.skip(start as int)[0] == '\'');
        assert(characters@.skip(start as int).drop_first() =~= characters@.skip(start + 1));
        start += 1;
    }
    let mut out = String::new();
    let mut index: usize = start;
    assert(out@ =~= characters@.subrange(start as int, index as int));
    while index < characters.len()
        invariant
            start <= index <= characters@.len(),
            out@ == characters@.subrange(start as int, index as int),
        decreases characters.len() - index,
    {
        push_char(&mut out, characters[index]);
        assert(characters@.subrange(start as int, index + 1) =~= characters@.subrange(start as int, index as int).push(
            characters@[index as int],
        ));
        index += 1;
    }
    assert(out@ =~= characters@.skip(start as int));
    out
}

/// Emits a lifetime as a runtime expression.
pub fn lifetime_expression(lifetime: &str, facade: &Vec<TokenTreeIr>) -> (tokens: Vec<TokenTreeIr>)
    ensures
        tokens_view(tokens@) == lifetime_expression_view(tokens_view(facade@), lifetime@),
{
    proof {
        reveal_strlit("'static");
    }
    if crate::text::str_eq(lifetime, "'static") {
        let names: [&str; 3] = ["expression", "LifetimeExpression", "Static"];
        assert(names@.map_values(|name: &str| name@) =~= seq!["expression"@, "LifetimeExpression"@, "Static"@]);
        return path_tokens(facade, names.as_slice());
    }
    let names: [&str; 4] = ["__private", "codegen_v1", "expression", "named_lifetime"];
    assert(names@.map_values(|name: &str| name@) =~= seq![
        "__private"@,
        "codegen_v1"@,
        "expression"@,
        "named_lifetime"@,
    ]);
    let mut tokens = path_tokens(facade, names.as_slice());
    let mut argument = empty_tokens();
    let name = trim_quotes_of(lifetime);
    push_literal(&mut argument, string_literal_of(name.as_str()));
    push_group(&mut tokens, DelimiterIr::Parenthesis, argument);
    tokens
}

} // verus!

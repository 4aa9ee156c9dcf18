//! The tail of an `external_trait(path, id = "...")` helper: after the
//! trait path, a comma, the key `id`, `=` and one string literal, and
//! nothing else.

use vstd::prelude::*;
use vstd::string::StringExecFns;

use crate::constant::parses_as_identifier;
use crate::constant::plain_identifier_of;
use crate::diagnostics::Diagnostic;
use crate::diagnostics::DiagnosticView;
use crate::ir::TokenTreeIr;
use crate::ir::CALL_SITE_SPAN;
use crate::substitution::lemma_tokens_view_index;
use crate::substitution::tokens_view;
use crate::substitution::TokenView;
use crate::text::join3;
use crate::text::str_eq;

verus! {

/// The span of the token at `index`, or the call site past the end.
pub open spec fn span_at(tokens: Seq<TokenView>, index: int) -> usize {
    if 0 <= index < tokens.len() {
        match tokens[index] {
            TokenView::Ident(_, span) => span,
            TokenView::Punct(_, _, span) => span,
            TokenView::Literal(_, span) => span,
            TokenView::Group(_, _, span) => span,
        }
    } else {
        CALL_SITE_SPAN
    }
}

/// A message about a missing item, prefixed as `syn` prefixes it where
/// the input has ended.
pub open spec fn missing(tokens: Seq<TokenView>, index: int, message: Seq<char>) -> Seq<char> {
    if index < tokens.len() {
        message
    } else {
        "unexpected end of input, "@ + message
    }
}

/// Whether the token at `index` is the punctuation `ch`.
pub open spec fn punct_at(tokens: Seq<TokenView>, index: int, ch: char) -> bool {
    0 <= index < tokens.len() && (tokens[index] matches TokenView::Punct(found, _, _) && found == ch)
}

/// The ID and its span that the tail after an external trait's path gives,
/// or the diagnostic that refuses it, where `key_plain` says whether the
/// key token parses as a non-keyword identifier and `value` is what a
/// string literal token reads as.
pub open spec fn external_trait_tail_given(
    tokens: Seq<TokenView>,
    key_plain: bool,
    value: Option<Seq<char>>,
) -> Result<(Seq<char>, usize), DiagnosticView> {
    if !punct_at(tokens, 0, ',') {
        Err((span_at(tokens, 0), "expected `,`"@))
    } else if !(1 < tokens.len() && tokens[1] is Ident) {
        Err((span_at(tokens, 1), missing(tokens, 1, "expected identifier"@)))
    } else if !(tokens[1] matches TokenView::Ident(name, _) && name == "id"@) {
        match tokens[1] {
            TokenView::Ident(name, span) => if key_plain {
                Err((span, "expected `id`"@))
            } else {
                Err((span, "expected identifier, found keyword `"@ + name + "`"@))
            },
            _ => Err((span_at(tokens, 1), "expected identifier"@)),
        }
    } else if !punct_at(tokens, 2, '=') {
        Err((span_at(tokens, 2), "expected `=`"@))
    } else if !(3 < tokens.len() && tokens[3] is Literal) {
        Err((span_at(tokens, 3), missing(tokens, 3, "expected string literal"@)))
    } else {
        match value {
            None => Err((span_at(tokens, 3), "expected string literal"@)),
            Some(id) => if tokens.len() > 4 {
                Err((span_at(tokens, 4), "unexpected tokens after external trait ID"@))
            } else {
                Ok((id, span_at(tokens, 3)))
            },
        }
    }
}

/// The value of an optional string.
pub open spec fn optional_text(value: Option<String>) -> Option<Seq<char>> {
    match value {
        Some(text) => Some(text@),
        None => None,
    }
}

/// The value of a tail result.
pub open spec fn tail_view(tail: Result<(String, usize), Diagnostic>) -> Result<(Seq<char>, usize), DiagnosticView> {
    match tail {
        Ok((id, span)) => Ok((id@, span)),
        Err(diagnostic) => Err((diagnostic.span, diagnostic.message@)),
    }
}

/// What `syn` reads from the spelling of a string literal token: its value
/// with escapes resolved (`LitStr::value`), or `None` for a spelling that is
/// no string literal. `syn` computes it from the spelling alone.
pub uninterp spec fn string_literal_content(text: Seq<char>) -> Option<Seq<char>>;

/// Whether `syn` reads the key of the tail as a non-keyword identifier.
pub open spec fn key_plain_at(tokens: Seq<TokenView>) -> bool {
    1 < tokens.len() && (tokens[1] matches TokenView::Ident(name, _) && plain_identifier_of(name))
}

/// What `syn` reads from the string literal of the tail.
pub open spec fn content_at(tokens: Seq<TokenView>) -> Option<Seq<char>> {
    if 3 < tokens.len() {
        match tokens[3] {
            TokenView::Literal(text, _) => string_literal_content(text),
            _ => None,
        }
    } else {
        None
    }
}

/// Whether `result` is what the tail gives for `syn`'s readings of its key
/// and literal, or, for a token that does not lex, for no reading of it.
pub open spec fn external_trait_tail_admits(
    result: Result<(Seq<char>, usize), DiagnosticView>,
    tokens: Seq<TokenView>,
) -> bool {
    ||| result == external_trait_tail_given(tokens, key_plain_at(tokens), content_at(tokens))
    ||| result == external_trait_tail_given(tokens, false, content_at(tokens))
    ||| result == external_trait_tail_given(tokens, key_plain_at(tokens), None)
    ||| result == external_trait_tail_given(tokens, false, None)
}

/// Reads the value of a string literal token.
///
/// Trusted: returns `syn::parse_str::<syn::LitStr>(text)` and its
/// `LitStr::value`, or `None` where `text` is no string literal. Where the
/// text lexes as one literal, `syn` computes the value from its spelling
/// alone; whether it lexes at all is left to the lexer of the running
/// process, so a value that comes back is the named one.
#[verifier::external_body]
fn string_literal_value(text: &str) -> (value: Option<String>)
    ensures
        value matches Some(read) ==> string_literal_content(text@) == Some(read@),
{
    syn::parse_str::<syn::LitStr>(text).ok().map(|literal| literal.value())
}

fn span_of(tokens: &Vec<TokenTreeIr>, index: usize) -> (span: usize)
    ensures
        span == span_at(tokens_view(tokens@), index as int),
{
    proof {
        lemma_tokens_view_index(tokens@);
    }
    if index < tokens.len() {
        match &tokens[index] {
            TokenTreeIr::Ident { span, .. } => *span,
            TokenTreeIr::Punct { span, .. } => *span,
            TokenTreeIr::Literal { span, .. } => *span,
            TokenTreeIr::Group { span, .. } => *span,
        }
    } else {
        CALL_SITE_SPAN
    }
}

fn is_punct_at(tokens: &Vec<TokenTreeIr>, index: usize, ch: char) -> (found: bool)
    ensures
        found == punct_at(tokens_view(tokens@), index as int, ch),
{
    proof {
        lemma_tokens_view_index(tokens@);
    }
    index < tokens.len() && match &tokens[index] {
        TokenTreeIr::Punct { ch: found, .. } => *found == ch,
        _ => false,
    }
}

fn error_at(span: usize, message: String) -> (tail: Result<(String, usize), Diagnostic>)
    ensures
        tail_view(tail) == Err::<(Seq<char>, usize), DiagnosticView>((span, message@)),
{
    Err(Diagnostic { span, message })
}

fn missing_message(tokens: &Vec<TokenTreeIr>, index: usize, message: &str) -> (text: String)
    ensures
        text@ == missing(tokens_view(tokens@), index as int, message@),
{
    proof {
        lemma_tokens_view_index(tokens@);
        reveal_strlit("unexpected end of input, ");
        reveal_strlit("");
    }
    if index < tokens.len() {
        String::from_str(message)
    } else {
        join3("unexpected end of input, ", message, "")
    }
}

/// Returns the ID and its span that the tail after an external trait's path
/// gives, or the diagnostic that refuses it, for the given readings of its
/// key and string literal.
pub fn external_trait_tail_from(tokens: &Vec<TokenTreeIr>, key_plain: bool, value: Option<String>) -> (tail: Result<
    (String, usize),
    Diagnostic,
>)
    ensures
        tail_view(tail) == external_trait_tail_given(tokens_view(tokens@), key_plain, optional_text(value)),
{
    let ghost view = tokens_view(tokens@);
    proof {
        lemma_tokens_view_index(tokens@);
        reveal_strlit("id");
    }
    if !is_punct_at(tokens, 0, ',') {
        return error_at(span_of(tokens, 0), String::from_str("expected `,`"));
    }
    let key_is_ident = tokens.len() > 1 && match &tokens[1] {
        TokenTreeIr::Ident { .. } => true,
        _ => false,
    };
    if !key_is_ident {
        return error_at(span_of(tokens, 1), missing_message(tokens, 1, "expected identifier"));
    }
    assert(view[1] == crate::substitution::token_view(tokens@[1]));
    match &tokens[1] {
        TokenTreeIr::Ident { name, span } => {
            if !str_eq(name.as_str(), "id") {
                if key_plain {
                    return error_at(*span, String::from_str("expected `id`"));
                } else {
                    return error_at(*span, join3("expected identifier, found keyword `", name.as_str(), "`"));
                }
            }
        },
        _ => {},
    }
    if !is_punct_at(tokens, 2, '=') {
        return error_at(span_of(tokens, 2), String::from_str("expected `=`"));
    }
    let literal_is_next = tokens.len() > 3 && match &tokens[3] {
        TokenTreeIr::Literal { .. } => true,
        _ => false,
    };
    if !literal_is_next {
        return error_at(span_of(tokens, 3), missing_message(tokens, 3, "expected string literal"));
    }
    match value {
        None => error_at(span_of(tokens, 3), String::from_str("expected string literal")),
        Some(id) => if tokens.len() > 4 {
            error_at(span_of(tokens, 4), String::from_str("unexpected tokens after external trait ID"))
        } else {
            Ok((id, span_of(tokens, 3)))
        },
    }
}

/// Returns the ID and its span that the tail after an external trait's path
/// gives, or the diagnostic that refuses it. The key and the literal are
/// read by `syn`; the result is the one [`external_trait_tail_from`] gives
/// for those readings.
pub fn external_trait_tail(tokens: &Vec<TokenTreeIr>) -> (tail: Result<(String, usize), Diagnostic>)
    ensures
        external_trait_tail_admits(tail_view(tail), tokens_view(tokens@)),
{
    let mut key_plain = false;
    if tokens.len() > 1 {
        if let TokenTreeIr::Ident { name, .. } = &tokens[1] {
            key_plain = parses_as_identifier(name.as_str());
        }
    }
    let mut value: Option<String> = None;
    if tokens.len() > 3 {
        if let TokenTreeIr::Literal { text, .. } = &tokens[3] {
            value = string_literal_value(text.as_str());
        }
    }
    let ghost value_view = optional_text(value);
    let tail = external_trait_tail_from(tokens, key_plain, value);
    proof {
        let tv = tokens_view(tokens@);
        lemma_tokens_view_index(tokens@);
        assert(tail_view(tail) == external_trait_tail_given(tv, key_plain, value_view));
        assert(key_plain ==> key_plain_at(tv));
        assert(value_view is Some ==> value_view == content_at(tv));
    }
    tail
}

} // verus!

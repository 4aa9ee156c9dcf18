//! The runtime-root lifetime policy: a specialized impl is registered at its
//! `'static` instance, so every impl lifetime it names is rewritten to
//! `'static` in its tokens and in its structured types and paths.

use vstd::prelude::*;
use vstd::string::StringExecFns;

use crate::generics::argument_list_uses_lifetime;
use crate::generics::argument_uses_lifetime;
use crate::generics::arguments_use_lifetime;
use crate::generics::names_lifetime;
use crate::generics::segments_use_lifetime;
use crate::generics::types_use_lifetime;
use crate::generics::uses_lifetime;
use crate::generics::trim_quotes;
use crate::generics::trimmed_equals;
use crate::ir::AssociatedConstIr;
use crate::ir::AssociatedTypeIr;
use crate::ir::DelimiterIr;
use crate::ir::ImplDeclarationIr;
use crate::ir::MethodIr;
use crate::ir::ParameterIr;
use crate::ir::ReceiverIr;
use crate::ir::ReturnTypeIr;
use crate::ir::PathArgumentIr;
use crate::ir::PathArgumentsIr;
use crate::ir::PathIr;
use crate::ir::PathSegmentIr;
use crate::ir::QualifiedSelfIr;
use crate::ir::TokenTreeIr;
use crate::ir::TypeIr;
use crate::ir::TypeKindIr;
use crate::ir::CALL_SITE_SPAN;
use crate::text::push_char;
use crate::text::str_eq;

verus! {

// ---------------------------------------------------------------------------
// Token values
// ---------------------------------------------------------------------------

/// The mathematical value of one token tree.
pub enum TokenView {
    Ident(Seq<char>, usize),
    Punct(char, bool, usize),
    Literal(Seq<char>, usize),
    Group(DelimiterIr, Seq<TokenView>, usize),
}

/// The value of one token tree.
pub open spec fn token_view(token: TokenTreeIr) -> TokenView
    decreases token,
{
    match token {
        TokenTreeIr::Ident { name, span } => TokenView::Ident(name@, span),
        TokenTreeIr::Punct { ch, joint, span } => TokenView::Punct(ch, joint, span),
        TokenTreeIr::Literal { text, span } => TokenView::Literal(text@, span),
        TokenTreeIr::Group { delimiter, tokens, span } => TokenView::Group(delimiter, tokens_view(tokens@), span),
    }
}

/// The values of a token sequence.
pub open spec fn tokens_view(tokens: Seq<TokenTreeIr>) -> Seq<TokenView>
    decreases tokens,
{
    if tokens.len() == 0 {
        Seq::empty()
    } else {
        seq![token_view(tokens[0])] + tokens_view(tokens.drop_first())
    }
}

/// The value of a sequence is the sequence of values.
pub proof fn lemma_tokens_view_index(tokens: Seq<TokenTreeIr>)
    ensures
        tokens_view(tokens).len() == tokens.len(),
        forall|i: int| 0 <= i < tokens.len() ==> #[trigger] tokens_view(tokens)[i] == token_view(tokens[i]),
    decreases tokens.len(),
{
    if tokens.len() > 0 {
        lemma_tokens_view_index(tokens.drop_first());
        assert forall|i: int| 0 <= i < tokens.len() implies #[trigger] tokens_view(tokens)[i] == token_view(
            tokens[i],
        ) by {
            if i > 0 {
                assert(tokens.drop_first()[i - 1] == tokens[i]);
            }
        }
    }
}

/// Values of a pushed sequence.
pub proof fn lemma_tokens_view_push(tokens: Seq<TokenTreeIr>, token: TokenTreeIr)
    ensures
        tokens_view(tokens.push(token)) == tokens_view(tokens).push(token_view(token)),
{
    lemma_tokens_view_index(tokens);
    lemma_tokens_view_index(tokens.push(token));
    assert(tokens_view(tokens.push(token)) =~= tokens_view(tokens).push(token_view(token)));
}

// ---------------------------------------------------------------------------
// Lifetime tokens
// ---------------------------------------------------------------------------

/// The names of the lifetimes to replace.
pub open spec fn names_view(names: Seq<&str>) -> Seq<Seq<char>> {
    names.map_values(|name: &str| name@)
}

/// Whether the tokens start with a lifetime `'name` whose name is replaced.
pub open spec fn replaced_lifetime_at(tokens: Seq<TokenView>, names: Seq<Seq<char>>) -> bool {
    &&& tokens.len() >= 2
    &&& tokens[0] matches TokenView::Punct(ch, _, _) && ch == '\''
    &&& tokens[1] matches TokenView::Ident(name, _) && names.contains(name)
}

/// The tokens of `'static`, as a macro writes them at its call site.
pub open spec fn static_lifetime_tokens() -> Seq<TokenView> {
    seq![TokenView::Punct('\'', true, CALL_SITE_SPAN), TokenView::Ident("static"@, CALL_SITE_SPAN)]
}

/// The tokens with every replaced lifetime rewritten to `'static`, inside
/// groups too; delimiters and spans are kept.
pub open spec fn substituted_views(tokens: Seq<TokenView>, names: Seq<Seq<char>>) -> Seq<TokenView>
    decreases tokens,
{
    if tokens.len() == 0 {
        Seq::empty()
    } else if replaced_lifetime_at(tokens, names) {
        static_lifetime_tokens() + substituted_views(tokens.skip(2), names)
    } else {
        seq![
            match tokens[0] {
                TokenView::Group(delimiter, inner, span) => TokenView::Group(
                    delimiter,
                    substituted_views(inner, names),
                    span,
                ),
                other => other,
            },
        ] + substituted_views(tokens.drop_first(), names)
    }
}

fn name_listed(name: &str, names: &[&str]) -> (listed: bool)
    ensures
        listed == names_view(names@).contains(name@),
{
    let mut index: usize = 0;
    while index < names.len()
        invariant
            index <= names@.len(),
            forall|j: int| 0 <= j < index ==> names@[j]@ != name@,
        decreases names.len() - index,
    {
        if str_eq(names[index], name) {
            assert(names_view(names@)[index as int] == name@);
            return true;
        }
        index += 1;
    }
    assert(!names_view(names@).contains(name@)) by {
        if names_view(names@).contains(name@) {
            let j = choose|j: int| 0 <= j < names_view(names@).len() && names_view(names@)[j] == name@;
            assert(names@[j]@ == name@);
        }
    }
    false
}

pub(crate) fn copy_token(token: &TokenTreeIr) -> (copy: TokenTreeIr)
    requires
        !(token is Group),
    ensures
        token_view(copy) == token_view(*token),
{
    match token {
        TokenTreeIr::Ident { name, span } => TokenTreeIr::Ident { name: name.clone(), span: *span },
        TokenTreeIr::Punct { ch, joint, span } => TokenTreeIr::Punct { ch: *ch, joint: *joint, span: *span },
        TokenTreeIr::Literal { text, span } => TokenTreeIr::Literal { text: text.clone(), span: *span },
        TokenTreeIr::Group { .. } => {
            proof {
                assert(false);
            }
            TokenTreeIr::Punct { ch: ' ', joint: false, span: CALL_SITE_SPAN }
        },
    }
}

/// Rewrites every replaced lifetime `'name` to `'static` while preserving
/// group delimiters and spans.
pub fn substitute_lifetime_tokens(tokens: &Vec<TokenTreeIr>, names: &[&str]) -> (rewritten: Vec<TokenTreeIr>)
    ensures
        tokens_view(rewritten@) == substituted_views(tokens_view(tokens@), names_view(names@)),
    decreases tokens,
{
    let ghost whole = tokens_view(tokens@);
    let ghost listed = names_view(names@);
    let mut rewritten: Vec<TokenTreeIr> = Vec::new();
    let mut index: usize = 0;
    proof {
        lemma_tokens_view_index(tokens@);
        assert(tokens_view(rewritten@) =~= Seq::<TokenView>::empty());
        assert(whole.skip(0) =~= whole);
        assert(Seq::<TokenView>::empty() + substituted_views(whole, listed) =~= substituted_views(whole, listed));
    }
    while index < tokens.len()
        invariant
            index <= tokens@.len(),
            whole == tokens_view(tokens@),
            listed == names_view(names@),
            whole.len() == tokens@.len(),
            forall|i: int| 0 <= i < tokens@.len() ==> #[trigger] whole[i] == token_view(tokens@[i]),
            tokens_view(rewritten@) + substituted_views(whole.skip(index as int), listed) == substituted_views(
                whole,
                listed,
            ),
        decreases tokens.len() - index,
    {
        let ghost rest = whole.skip(index as int);
        let ghost prior = rewritten@;
        let is_lifetime = if index + 1 < tokens.len() {
            match (&tokens[index], &tokens[index + 1]) {
                (TokenTreeIr::Punct { ch, .. }, TokenTreeIr::Ident { name, .. }) => *ch == '\'' && name_listed(
                    name.as_str(),
                    names,
                ),
                _ => false,
            }
        } else {
            false
        };
        assert(rest[0] == whole[index as int]);
        assert(index + 1 < tokens@.len() ==> rest[1] == whole[index + 1]);
        if is_lifetime {
            assert(replaced_lifetime_at(rest, listed));
            rewritten.push(TokenTreeIr::Punct { ch: '\'', joint: true, span: CALL_SITE_SPAN });
            rewritten.push(TokenTreeIr::Ident { name: String::from_str("static"), span: CALL_SITE_SPAN });
            proof {
                lemma_tokens_view_push(prior, TokenTreeIr::Punct { ch: '\'', joint: true, span: CALL_SITE_SPAN });
                lemma_tokens_view_push(prior.push(TokenTreeIr::Punct { ch: '\'', joint: true, span: CALL_SITE_SPAN }), rewritten@.last());
                assert(tokens_view(rewritten@) =~= tokens_view(prior) + static_lifetime_tokens());
                assert(rest.skip(2) =~= whole.skip(index + 2));
            }
            index += 2;
        } else {
            assert(!replaced_lifetime_at(rest, listed));
            let token = match &tokens[index] {
                TokenTreeIr::Group { delimiter, tokens: inner, span } => TokenTreeIr::Group {
                    delimiter: *delimiter,
                    tokens: substitute_lifetime_tokens(inner, names),
                    span: *span,
                },
                other => copy_token(other),
            };
            let ghost expected = match rest[0] {
                TokenView::Group(delimiter, inner, span) => TokenView::Group(
                    delimiter,
                    substituted_views(inner, listed),
                    span,
                ),
                other => other,
            };
            assert(token_view(token) == expected);
            rewritten.push(token);
            proof {
                lemma_tokens_view_push(prior, token);
                assert(rest.drop_first() =~= whole.skip(index + 1));
                assert(tokens_view(rewritten@) + substituted_views(whole.skip(index + 1), listed) =~= tokens_view(
                    prior,
                ) + substituted_views(rest, listed));
            }
            index += 1;
        }
    }
    assert(whole.skip(index as int) =~= Seq::<TokenView>::empty());
    assert(tokens_view(rewritten@) + Seq::<TokenView>::empty() =~= tokens_view(rewritten@));
    rewritten
}

// ---------------------------------------------------------------------------
// Source text
// ---------------------------------------------------------------------------

/// The opening text of a delimiter.
pub open spec fn open_text(delimiter: DelimiterIr) -> Seq<char> {
    match delimiter {
        DelimiterIr::Parenthesis => "("@,
        DelimiterIr::Brace => "{"@,
        DelimiterIr::Bracket => "["@,
        DelimiterIr::Invisible => Seq::empty(),
    }
}

/// The closing text of a delimiter.
pub open spec fn close_text(delimiter: DelimiterIr) -> Seq<char> {
    match delimiter {
        DelimiterIr::Parenthesis => ")"@,
        DelimiterIr::Brace => "}"@,
        DelimiterIr::Bracket => "]"@,
        DelimiterIr::Invisible => Seq::empty(),
    }
}

/// A source text of a token sequence that lexes back to the same tokens:
/// token texts separated by one space, except after a joint punctuation.
pub open spec fn token_text(tokens: Seq<TokenView>) -> Seq<char>
    decreases tokens,
{
    if tokens.len() == 0 {
        Seq::empty()
    } else {
        let head = match tokens[0] {
            TokenView::Ident(name, _) => name,
            TokenView::Punct(ch, _, _) => seq![ch],
            TokenView::Literal(text, _) => text,
            TokenView::Group(delimiter, inner, _) => open_text(delimiter) + token_text(inner) + close_text(
                delimiter,
            ),
        };
        let separator = if tokens.len() > 1 && !(tokens[0] matches TokenView::Punct(_, joint, _) && joint) {
            seq![' ']
        } else {
            Seq::empty()
        };
        head + separator + token_text(tokens.drop_first())
    }
}

fn delimiter_texts(delimiter: DelimiterIr) -> (texts: (&'static str, &'static str))
    ensures
        texts.0@ == open_text(delimiter),
        texts.1@ == close_text(delimiter),
{
    proof {
        reveal_strlit("");
    }
    match delimiter {
        DelimiterIr::Parenthesis => ("(", ")"),
        DelimiterIr::Brace => ("{", "}"),
        DelimiterIr::Bracket => ("[", "]"),
        DelimiterIr::Invisible => ("", ""),
    }
}

/// Returns a source text of a token sequence that lexes back to the same
/// tokens.
pub fn tokens_text(tokens: &Vec<TokenTreeIr>) -> (text: String)
    ensures
        text@ == token_text(tokens_view(tokens@)),
    decreases tokens,
{
    let ghost whole = tokens_view(tokens@);
    let mut text = String::new();
    let mut index: usize = 0;
    proof {
        lemma_tokens_view_index(tokens@);
        assert(whole.skip(0) =~= whole);
    }
    while index < tokens.len()
        invariant
            index <= tokens@.len(),
            whole == tokens_view(tokens@),
            whole.len() == tokens@.len(),
            forall|i: int| 0 <= i < tokens@.len() ==> #[trigger] whole[i] == token_view(tokens@[i]),
            text@ + token_text(whole.skip(index as int)) == token_text(whole),
        decreases tokens.len() - index,
    {
        let ghost rest = whole.skip(index as int);
        let ghost prior = text@;
        assert(rest[0] == whole[index as int]);
        let joint = match &tokens[index] {
            TokenTreeIr::Ident { name, .. } => {
                text.append(name.as_str());
                false
            },
            TokenTreeIr::Punct { ch, joint, .. } => {
                push_char(&mut text, *ch);
                *joint
            },
            TokenTreeIr::Literal { text: literal, .. } => {
                text.append(literal.as_str());
                false
            },
            TokenTreeIr::Group { delimiter, tokens: inner, .. } => {
                let (open, close) = delimiter_texts(*delimiter);
                let inner_text = tokens_text(inner);
                text.append(open);
                text.append(inner_text.as_str());
                text.append(close);
                false
            },
        };
        if index + 1 < tokens.len() && !joint {
            push_char(&mut text, ' ');
        }
        proof {
            assert(rest.drop_first() =~= whole.skip(index + 1));
            assert(text@ + token_text(whole.skip(index + 1)) =~= prior + token_text(rest));
        }
        index += 1;
    }
    assert(whole.skip(index as int) =~= Seq::<TokenView>::empty());
    assert(text@ + Seq::<char>::empty() =~= text@);
    text
}

/// Lexes `text` with `proc_macro2` and renders the resulting tokens.
///
/// Trusted: parses `text` as a `proc_macro2::TokenStream` and calls its
/// `Display` rendering. Nothing is claimed of the result: the rendering
/// differs between the compiler's implementation inside a macro expansion
/// and the fallback one elsewhere, and `None` reports a lexing failure.
#[verifier::external_body]
fn render_lexed(text: &str) -> (rendered: Option<String>) {
    match text.parse::<proc_macro2::TokenStream>() {
        Ok(tokens) => Some(tokens.to_string()),
        Err(_) => None,
    }
}

/// Returns the normalized rendering of rewritten tokens, keeping `previous`
/// when they cannot be rendered.
fn rendered_source(tokens: &Vec<TokenTreeIr>, previous: String) -> (source: String) {
    let text = tokens_text(tokens);
    source_after_rendering(render_lexed(text.as_str()), previous)
}

/// The source text kept after an attempt to render rewritten tokens: the
/// rendering where there is one, else the previous text.
pub fn source_after_rendering(rendered: Option<String>, previous: String) -> (source: String)
    ensures
        source == match rendered {
            Some(text) => text,
            None => previous,
        },
{
    match rendered {
        Some(text) => text,
        None => previous,
    }
}

// ---------------------------------------------------------------------------
// Types and paths
// ---------------------------------------------------------------------------

/// Whether a lifetime spelling names one of the replaced lifetimes.
pub open spec fn lifetime_replaced(lifetime: Seq<char>, names: Seq<Seq<char>>) -> bool {
    names.contains(trim_quotes(lifetime))
}

/// Whether `new` is the optional reference lifetime `old` after the
/// rewrite: a replaced lifetime becomes `'static`, any other stays.
pub open spec fn optional_lifetime_substituted(old: Option<String>, new: Option<String>, names: Seq<Seq<char>>) -> bool {
    match old {
        Some(lifetime) => if lifetime_replaced(lifetime@, names) {
            new matches Some(value) && value@ == "'static"@
        } else {
            new == old
        },
        None => new is None,
    }
}

/// Whether `new` is the token sequence `old` after the rewrite.
pub open spec fn tokens_substituted(old: Seq<TokenTreeIr>, new: Seq<TokenTreeIr>, names: Seq<Seq<char>>) -> bool {
    tokens_view(new) == substituted_views(tokens_view(old), names)
}

/// Whether `new` is the type `old` after the rewrite: its tokens are
/// rewritten, its span is kept, and its structure is rewritten as
/// [`kind_substituted`] says; its source text is rendered anew.
pub open spec fn type_substituted(old: TypeIr, new: TypeIr, names: Seq<Seq<char>>) -> bool
    decreases old,
{
    &&& tokens_substituted(old.tokens@, new.tokens@, names)
    &&& new.span == old.span
    &&& match old.kind {
        TypeKindIr::Path(path) => match new.kind {
            TypeKindIr::Path(rewritten) => path_substituted(path, rewritten, names),
            _ => false,
        },
        TypeKindIr::Reference { lifetime, mutable, element } => match new.kind {
            TypeKindIr::Reference { lifetime: new_lifetime, mutable: new_mutable, element: new_element } => {
                &&& new_mutable == mutable
                &&& optional_lifetime_substituted(lifetime, new_lifetime, names)
                &&& type_substituted(*element, *new_element, names)
            },
            _ => false,
        },
        TypeKindIr::Slice(element) => match new.kind {
            TypeKindIr::Slice(new_element) => type_substituted(*element, *new_element, names),
            _ => false,
        },
        TypeKindIr::Pointer { mutable, element } => match new.kind {
            TypeKindIr::Pointer { mutable: new_mutable, element: new_element } => new_mutable == mutable
                && type_substituted(*element, *new_element, names),
            _ => false,
        },
        TypeKindIr::Tuple(elements) => match new.kind {
            TypeKindIr::Tuple(new_elements) => {
                &&& new_elements@.len() == elements@.len()
                &&& forall|i: int|
                    0 <= i < elements@.len() ==> type_substituted(
                        #[trigger] elements@[i],
                        new_elements@[i],
                        names,
                    )
            },
            _ => false,
        },
        TypeKindIr::Array { element, length } => match new.kind {
            TypeKindIr::Array { element: new_element, length: new_length } => type_substituted(
                *element,
                *new_element,
                names,
            ) && tokens_substituted(length@, new_length@, names),
            _ => false,
        },
        TypeKindIr::BareFunction { lifetimes, inputs, output, is_unsafe, abi, is_variadic } => match new.kind {
            TypeKindIr::BareFunction {
                lifetimes: new_lifetimes,
                inputs: new_inputs,
                output: new_output,
                is_unsafe: new_unsafe,
                abi: new_abi,
                is_variadic: new_variadic,
            } => {
                &&& new_lifetimes == lifetimes
                &&& new_unsafe == is_unsafe
                &&& new_abi == abi
                &&& new_variadic == is_variadic
                &&& new_inputs@.len() == inputs@.len()
                &&& forall|i: int|
                    0 <= i < inputs@.len() ==> type_substituted(#[trigger] inputs@[i], new_inputs@[i], names)
                &&& match output {
                    Some(output) => new_output matches Some(new_output) && type_substituted(
                        *output,
                        *new_output,
                        names,
                    ),
                    None => new_output is None,
                }
            },
            _ => false,
        },
        _ => new.kind == old.kind,
    }
}

/// Whether `new` is the path `old` after the rewrite: its tokens, its
/// qualified self type and its segment arguments are rewritten; everything
/// else is kept, and its source text is rendered anew.
pub open spec fn path_substituted(old: PathIr, new: PathIr, names: Seq<Seq<char>>) -> bool
    decreases old,
{
    &&& tokens_substituted(old.tokens@, new.tokens@, names)
    &&& new.span == old.span
    &&& new.leading_colon == old.leading_colon
    &&& match old.qualified_self {
        Some(qualified) => new.qualified_self matches Some(new_qualified) && {
            &&& new_qualified.position == qualified.position
            &&& new_qualified.has_as == qualified.has_as
            &&& type_substituted(qualified.ty, new_qualified.ty, names)
        },
        None => new.qualified_self is None,
    }
    &&& new.segments@.len() == old.segments@.len()
    &&& forall|i: int|
        0 <= i < old.segments@.len() ==> {
            &&& (#[trigger] new.segments@[i]).name == old.segments@[i].name
            &&& arguments_substituted(old.segments@[i].arguments, new.segments@[i].arguments, names)
        }
}

/// Whether `new` is the argument list `old` after the rewrite.
pub open spec fn arguments_substituted(old: PathArgumentsIr, new: PathArgumentsIr, names: Seq<Seq<char>>) -> bool
    decreases old,
{
    match old {
        PathArgumentsIr::Empty => new is Empty,
        PathArgumentsIr::AngleBracketed(items) => match new {
            PathArgumentsIr::AngleBracketed(new_items) => {
                &&& new_items@.len() == items@.len()
                &&& forall|i: int|
                    0 <= i < items@.len() ==> argument_substituted(#[trigger] items@[i], new_items@[i], names)
            },
            _ => false,
        },
        PathArgumentsIr::Parenthesized { inputs, output } => match new {
            PathArgumentsIr::Parenthesized { inputs: new_inputs, output: new_output } => {
                &&& new_inputs@.len() == inputs@.len()
                &&& forall|i: int|
                    0 <= i < inputs@.len() ==> type_substituted(#[trigger] inputs@[i], new_inputs@[i], names)
                &&& match output {
                    Some(output) => new_output matches Some(new_output) && type_substituted(
                        *output,
                        *new_output,
                        names,
                    ),
                    None => new_output is None,
                }
            },
            _ => false,
        },
    }
}

/// Whether `new` is the angle-bracketed argument `old` after the rewrite: a
/// replaced lifetime becomes `'static`, types and const tokens are
/// rewritten, and constraints are kept.
pub open spec fn argument_substituted(old: PathArgumentIr, new: PathArgumentIr, names: Seq<Seq<char>>) -> bool
    decreases old,
{
    match old {
        PathArgumentIr::Lifetime(lifetime) => if lifetime_replaced(lifetime@, names) {
            new matches PathArgumentIr::Lifetime(value) && value@ == "'static"@
        } else {
            new == old
        },
        PathArgumentIr::Type(ty) => new matches PathArgumentIr::Type(new_ty) && type_substituted(ty, new_ty, names),
        PathArgumentIr::AssociatedType { name, ty } => new matches PathArgumentIr::AssociatedType {
            name: new_name,
            ty: new_ty,
        } && new_name == name && type_substituted(ty, new_ty, names),
        PathArgumentIr::Const(tokens) => new matches PathArgumentIr::Const(new_tokens) && tokens_substituted(
            tokens@,
            new_tokens@,
            names,
        ),
        PathArgumentIr::AssociatedConst { name, value } => new matches PathArgumentIr::AssociatedConst {
            name: new_name,
            value: new_value,
        } && new_name == name && tokens_substituted(value@, new_value@, names),
        PathArgumentIr::Other(tokens) => new matches PathArgumentIr::Other(new_tokens) && tokens_substituted(
            tokens@,
            new_tokens@,
            names,
        ),
        PathArgumentIr::Constraint { .. } => new == old,
    }
}

fn lifetime_is_replaced(lifetime: &str, names: &[&str]) -> (replaced: bool)
    ensures
        replaced == lifetime_replaced(lifetime@, names_view(names@)),
{
    let mut index: usize = 0;
    while index < names.len()
        invariant
            index <= names@.len(),
            forall|j: int| 0 <= j < index ==> !names_lifetime(lifetime@, #[trigger] names@[j]@),
        decreases names.len() - index,
    {
        if trimmed_equals(lifetime, names[index]) {
            assert(names_view(names@)[index as int] == trim_quotes(lifetime@));
            return true;
        }
        index += 1;
    }
    assert(!names_view(names@).contains(trim_quotes(lifetime@))) by {
        if names_view(names@).contains(trim_quotes(lifetime@)) {
            let j = choose|j: int|
                0 <= j < names_view(names@).len() && names_view(names@)[j] == trim_quotes(lifetime@);
            assert(!names_lifetime(lifetime@, names@[j]@));
        }
    }
    false
}

fn static_lifetime() -> (lifetime: String)
    ensures
        lifetime@ == "'static"@,
{
    String::from_str("'static")
}

fn substituted_optional_lifetime(lifetime: Option<String>, names: &[&str]) -> (new: Option<String>)
    ensures
        optional_lifetime_substituted(lifetime, new, names_view(names@)),
{
    match lifetime {
        Some(value) => if lifetime_is_replaced(value.as_str(), names) {
            Some(static_lifetime())
        } else {
            Some(value)
        },
        None => None,
    }
}

fn substituted_types(types: Vec<TypeIr>, names: &[&str]) -> (new: Vec<TypeIr>)
    ensures
        new@.len() == types@.len(),
        forall|i: int| 0 <= i < types@.len() ==> type_substituted(#[trigger] types@[i], new@[i], names_view(names@)),
    decreases types,
{
    let ghost initial = types@;
    assert(initial.len() == types.len());
    let mut rest = types;
    let mut new: Vec<TypeIr> = Vec::new();
    while rest.len() > 0
        invariant
            new@.len() + rest@.len() == initial.len(),
            initial.len() <= usize::MAX,
            rest@ == initial.skip(new@.len() as int),
            initial == types@,
            forall|i: int| 0 <= i < new@.len() ==> type_substituted(#[trigger] initial[i], new@[i], names_view(names@)),
        decreases rest.len(),
    {
        let ghost done: int = new@.len() as int;
        let ty = rest.remove(0);
        assert(ty == initial[done]);
        assert(decreases_to!(types => ty));
        assert(rest@ =~= initial.skip(done + 1));
        let rewritten = substituted_type(ty, names);
        new.push(rewritten);
    }
    new
}

/// Returns the type with every listed impl lifetime rewritten to `'static`.
pub fn substituted_type(ty: TypeIr, names: &[&str]) -> (new: TypeIr)
    ensures
        type_substituted(ty, new, names_view(names@)),
    decreases ty,
{
    let TypeIr { source, tokens, kind, span } = ty;
    let new_tokens = substitute_lifetime_tokens(&tokens, names);
    let new_source = rendered_source(&new_tokens, source);
    let new_kind = match kind {
        TypeKindIr::Path(path) => TypeKindIr::Path(substituted_path(path, names)),
        TypeKindIr::Reference { lifetime, mutable, element } => TypeKindIr::Reference {
            lifetime: substituted_optional_lifetime(lifetime, names),
            mutable,
            element: Box::new(substituted_type(*element, names)),
        },
        TypeKindIr::Slice(element) => TypeKindIr::Slice(Box::new(substituted_type(*element, names))),
        TypeKindIr::Pointer { mutable, element } => TypeKindIr::Pointer {
            mutable,
            element: Box::new(substituted_type(*element, names)),
        },
        TypeKindIr::Tuple(elements) => TypeKindIr::Tuple(substituted_types(elements, names)),
        TypeKindIr::Array { element, length } => TypeKindIr::Array {
            element: Box::new(substituted_type(*element, names)),
            length: substitute_lifetime_tokens(&length, names),
        },
        TypeKindIr::BareFunction { lifetimes, inputs, output, is_unsafe, abi, is_variadic } => {
            TypeKindIr::BareFunction {
                lifetimes,
                inputs: substituted_types(inputs, names),
                output: match output {
                    Some(output) => Some(Box::new(substituted_type(*output, names))),
                    None => None,
                },
                is_unsafe,
                abi,
                is_variadic,
            }
        },
        other => other,
    };
    TypeIr { source: new_source, tokens: new_tokens, kind: new_kind, span }
}

fn substituted_segments(segments: Vec<PathSegmentIr>, names: &[&str]) -> (new: Vec<PathSegmentIr>)
    ensures
        new@.len() == segments@.len(),
        forall|i: int|
            0 <= i < segments@.len() ==> {
                &&& (#[trigger] new@[i]).name == segments@[i].name
                &&& arguments_substituted(segments@[i].arguments, new@[i].arguments, names_view(names@))
            },
    decreases segments,
{
    let ghost initial = segments@;
    assert(initial.len() == segments.len());
    let mut rest = segments;
    let mut new: Vec<PathSegmentIr> = Vec::new();
    while rest.len() > 0
        invariant
            new@.len() + rest@.len() == initial.len(),
            initial.len() <= usize::MAX,
            rest@ == initial.skip(new@.len() as int),
            initial == segments@,
            forall|i: int|
                0 <= i < new@.len() ==> {
                    &&& (#[trigger] new@[i]).name == initial[i].name
                    &&& arguments_substituted(initial[i].arguments, new@[i].arguments, names_view(names@))
                },
        decreases rest.len(),
    {
        let ghost done: int = new@.len() as int;
        let segment = rest.remove(0);
        assert(segment == initial[done]);
        assert(decreases_to!(segments => segment));
        assert(decreases_to!(segment => segment.arguments));
        assert(rest@ =~= initial.skip(done + 1));
        let PathSegmentIr { name, arguments } = segment;
        let rewritten = PathSegmentIr { name, arguments: substituted_arguments(arguments, names) };
        new.push(rewritten);
    }
    new
}

/// Returns the path with every listed impl lifetime rewritten to `'static`.
pub fn substituted_path(path: PathIr, names: &[&str]) -> (new: PathIr)
    ensures
        path_substituted(path, new, names_view(names@)),
    decreases path,
{
    let PathIr { source, segments, leading_colon, qualified_self, tokens, span } = path;
    let new_tokens = substitute_lifetime_tokens(&tokens, names);
    let new_source = rendered_source(&new_tokens, source);
    let new_qualified = match qualified_self {
        Some(qualified) => {
            let QualifiedSelfIr { ty, position, has_as } = *qualified;
            Some(Box::new(QualifiedSelfIr { ty: substituted_type(ty, names), position, has_as }))
        },
        None => None,
    };
    PathIr {
        source: new_source,
        segments: substituted_segments(segments, names),
        leading_colon,
        qualified_self: new_qualified,
        tokens: new_tokens,
        span,
    }
}

fn substituted_arguments(arguments: PathArgumentsIr, names: &[&str]) -> (new: PathArgumentsIr)
    ensures
        arguments_substituted(arguments, new, names_view(names@)),
    decreases arguments,
{
    match arguments {
        PathArgumentsIr::Empty => PathArgumentsIr::Empty,
        PathArgumentsIr::AngleBracketed(items) => {
            let ghost initial = items@;
            assert(initial.len() == items.len());
            let mut rest = items;
            let mut new: Vec<PathArgumentIr> = Vec::new();
            while rest.len() > 0
                invariant
                    new@.len() + rest@.len() == initial.len(),
                    initial.len() <= usize::MAX,
                    rest@ == initial.skip(new@.len() as int),
                    arguments matches PathArgumentsIr::AngleBracketed(list) && initial == list@,
                    forall|i: int|
                        0 <= i < new@.len() ==> argument_substituted(
                            #[trigger] initial[i],
                            new@[i],
                            names_view(names@),
                        ),
                decreases rest.len(),
            {
                let ghost done: int = new@.len() as int;
                let item = rest.remove(0);
                assert(item == initial[done]);
                assert(decreases_to!(arguments => item));
                assert(rest@ =~= initial.skip(done + 1));
                let rewritten = substituted_argument(item, names);
                new.push(rewritten);
            }
            PathArgumentsIr::AngleBracketed(new)
        },
        PathArgumentsIr::Parenthesized { inputs, output } => PathArgumentsIr::Parenthesized {
            inputs: substituted_types(inputs, names),
            output: match output {
                Some(output) => Some(Box::new(substituted_type(*output, names))),
                None => None,
            },
        },
    }
}

fn substituted_argument(item: PathArgumentIr, names: &[&str]) -> (new: PathArgumentIr)
    ensures
        argument_substituted(item, new, names_view(names@)),
    decreases item,
{
    match item {
        PathArgumentIr::Lifetime(lifetime) => if lifetime_is_replaced(lifetime.as_str(), names) {
            PathArgumentIr::Lifetime(static_lifetime())
        } else {
            PathArgumentIr::Lifetime(lifetime)
        },
        PathArgumentIr::Type(ty) => PathArgumentIr::Type(substituted_type(ty, names)),
        PathArgumentIr::AssociatedType { name, ty } => PathArgumentIr::AssociatedType {
            name,
            ty: substituted_type(ty, names),
        },
        PathArgumentIr::Const(tokens) => PathArgumentIr::Const(substitute_lifetime_tokens(&tokens, names)),
        PathArgumentIr::AssociatedConst { name, value } => PathArgumentIr::AssociatedConst {
            name,
            value: substitute_lifetime_tokens(&value, names),
        },
        PathArgumentIr::Other(tokens) => PathArgumentIr::Other(substitute_lifetime_tokens(&tokens, names)),
        other => other,
    }
}

/// The empty type that stands in a slot while its value is rewritten: no
/// source text, no tokens, the never type, at the call site.
pub open spec fn is_placeholder_type(ty: TypeIr) -> bool {
    &&& ty.source@.len() == 0
    &&& ty.tokens@.len() == 0
    &&& ty.kind is Never
    &&& ty.span == CALL_SITE_SPAN
}

fn placeholder_type() -> (ty: TypeIr)
    ensures
        is_placeholder_type(ty),
{
    TypeIr { source: String::new(), tokens: Vec::new(), kind: TypeKindIr::Never, span: CALL_SITE_SPAN }
}

/// Substitutes impl lifetimes with `'static` in one type.
pub fn substitute_type_lifetimes(ty: &mut TypeIr, lifetime_names: &[&str])
    ensures
        type_substituted(*old(ty), *final(ty), names_view(lifetime_names@)),
{
    let mut taken = placeholder_type();
    core::mem::swap(&mut taken, ty);
    *ty = substituted_type(taken, lifetime_names);
}

/// Substitutes impl lifetimes with `'static` in one path and its structured
/// arguments.
pub fn substitute_path_lifetimes(path: &mut PathIr, lifetime_names: &[&str])
    ensures
        path_substituted(*old(path), *final(path), names_view(lifetime_names@)),
{
    let mut taken = PathIr {
        source: String::new(),
        segments: Vec::new(),
        leading_colon: false,
        qualified_self: None,
        tokens: Vec::new(),
        span: CALL_SITE_SPAN,
    };
    core::mem::swap(&mut taken, path);
    *path = substituted_path(taken, lifetime_names);
}

// ---------------------------------------------------------------------------
// Impl declarations
// ---------------------------------------------------------------------------

/// Whether `new` is the method `old` after the rewrite: its receiver type
/// and declaration, its parameter types and its return type are rewritten.
pub open spec fn method_substituted(old: MethodIr, new: MethodIr, names: Seq<Seq<char>>) -> bool {
    &&& new.name == old.name
    &&& new.visibility == old.visibility
    &&& new.generics == old.generics
    &&& new.qualifiers == old.qualifiers
    &&& new.has_default == old.has_default
    &&& new.attributes == old.attributes
    &&& new.specializations == old.specializations
    &&& new.span == old.span
    &&& match old.receiver {
        Some(receiver) => new.receiver matches Some(new_receiver) && {
            &&& new_receiver.kind == receiver.kind
            &&& new_receiver.span == receiver.span
            &&& type_substituted(receiver.ty, new_receiver.ty, names)
            &&& tokens_substituted(receiver.declaration@, new_receiver.declaration@, names)
        },
        None => new.receiver is None,
    }
    &&& new.parameters@.len() == old.parameters@.len()
    &&& forall|i: int|
        0 <= i < old.parameters@.len() ==> {
            let parameter = #[trigger] old.parameters@[i];
            let rewritten = new.parameters@[i];
            &&& rewritten.name == parameter.name
            &&& rewritten.pattern == parameter.pattern
            &&& rewritten.index == parameter.index
            &&& rewritten.declaration == parameter.declaration
            &&& rewritten.span == parameter.span
            &&& type_substituted(parameter.ty, rewritten.ty, names)
        }
    &&& match old.return_type {
        ReturnTypeIr::Type(ty) => new.return_type matches ReturnTypeIr::Type(new_ty) && type_substituted(
            ty,
            new_ty,
            names,
        ),
        ReturnTypeIr::Unit => new.return_type is Unit,
    }
}

/// Whether `new` is the impl declaration `old` after the rewrite: its target
/// type, trait path, method signatures, associated type bindings and
/// associated constant types are rewritten; everything else is kept.
pub open spec fn impl_substituted(old: ImplDeclarationIr, new: ImplDeclarationIr, names: Seq<Seq<char>>) -> bool {
    &&& new.generics == old.generics
    &&& new.attributes == old.attributes
    &&& new.specializations == old.specializations
    &&& new.retained_tokens == old.retained_tokens
    &&& new.span == old.span
    &&& type_substituted(old.target_type, new.target_type, names)
    &&& match old.trait_path {
        Some(path) => new.trait_path matches Some(new_path) && path_substituted(path, new_path, names),
        None => new.trait_path is None,
    }
    &&& new.methods@.len() == old.methods@.len()
    &&& forall|i: int|
        0 <= i < old.methods@.len() ==> method_substituted(#[trigger] old.methods@[i], new.methods@[i], names)
    &&& new.associated_types@.len() == old.associated_types@.len()
    &&& forall|i: int|
        0 <= i < old.associated_types@.len() ==> {
            let item = #[trigger] old.associated_types@[i];
            let rewritten = new.associated_types@[i];
            &&& rewritten.name == item.name
            &&& rewritten.generics == item.generics
            &&& rewritten.bounds == item.bounds
            &&& rewritten.declaration == item.declaration
            &&& rewritten.attributes == item.attributes
            &&& rewritten.span == item.span
            &&& match item.value {
                Some(value) => rewritten.value matches Some(new_value) && type_substituted(value, new_value, names),
                None => rewritten.value is None,
            }
        }
    &&& new.associated_consts@.len() == old.associated_consts@.len()
    &&& forall|i: int|
        0 <= i < old.associated_consts@.len() ==> {
            let item = #[trigger] old.associated_consts@[i];
            let rewritten = new.associated_consts@[i];
            &&& rewritten.name == item.name
            &&& rewritten.value == item.value
            &&& rewritten.declaration == item.declaration
            &&& rewritten.attributes == item.attributes
            &&& rewritten.span == item.span
            &&& type_substituted(item.ty, rewritten.ty, names)
        }
}

fn substituted_method(method: MethodIr, names: &[&str]) -> (new: MethodIr)
    ensures
        method_substituted(method, new, names_view(names@)),
{
    let MethodIr {
        name,
        visibility,
        generics,
        receiver,
        parameters,
        return_type,
        qualifiers,
        has_default,
        attributes,
        specializations,
        span,
    } = method;
    let new_receiver = match receiver {
        Some(receiver) => {
            let ReceiverIr { kind, ty, declaration, span } = receiver;
            Some(
                ReceiverIr {
                    kind,
                    ty: substituted_type(ty, names),
                    declaration: substitute_lifetime_tokens(&declaration, names),
                    span,
                },
            )
        },
        None => None,
    };
    let ghost initial = parameters@;
    assert(initial.len() == parameters.len());
    let mut rest = parameters;
    let mut new_parameters: Vec<ParameterIr> = Vec::new();
    while rest.len() > 0
        invariant
            new_parameters@.len() + rest@.len() == initial.len(),
            initial.len() <= usize::MAX,
            rest@ == initial.skip(new_parameters@.len() as int),
            forall|i: int|
                0 <= i < new_parameters@.len() ==> {
                    let parameter = #[trigger] initial[i];
                    let rewritten = new_parameters@[i];
                    &&& rewritten.name == parameter.name
                    &&& rewritten.pattern == parameter.pattern
                    &&& rewritten.index == parameter.index
                    &&& rewritten.declaration == parameter.declaration
                    &&& rewritten.span == parameter.span
                    &&& type_substituted(parameter.ty, rewritten.ty, names_view(names@))
                },
        decreases rest.len(),
    {
        let ghost done: int = new_parameters@.len() as int;
        let parameter = rest.remove(0);
        assert(parameter == initial[done]);
        assert(rest@ =~= initial.skip(done + 1));
        let ParameterIr { name, pattern, ty, index, declaration, span } = parameter;
        new_parameters.push(ParameterIr { name, pattern, ty: substituted_type(ty, names), index, declaration, span });
    }
    let new_return = match return_type {
        ReturnTypeIr::Type(ty) => ReturnTypeIr::Type(substituted_type(ty, names)),
        ReturnTypeIr::Unit => ReturnTypeIr::Unit,
    };
    MethodIr {
        name,
        visibility,
        generics,
        receiver: new_receiver,
        parameters: new_parameters,
        return_type: new_return,
        qualifiers,
        has_default,
        attributes,
        specializations,
        span,
    }
}

fn placeholder_impl() -> (declaration: ImplDeclarationIr)
    ensures
        is_placeholder_type(declaration.target_type),
        declaration.trait_path is None,
        declaration.span == CALL_SITE_SPAN,
        declaration.generics.params@.len() == 0,
        declaration.generics.where_predicates@.len() == 0,
        declaration.generics.declaration@.len() == 0,
        declaration.generics.impl_declaration@.len() == 0,
        declaration.generics.arguments@.len() == 0,
        declaration.generics.where_clause@.len() == 0,
        declaration.attributes@.len() == 0,
        declaration.specializations@.len() == 0,
        declaration.methods@.len() == 0,
        declaration.associated_types@.len() == 0,
        declaration.associated_consts@.len() == 0,
        declaration.retained_tokens@.len() == 0,
{
    ImplDeclarationIr {
        generics: crate::ir::GenericsIr {
            params: Vec::new(),
            where_predicates: Vec::new(),
            declaration: Vec::new(),
            impl_declaration: Vec::new(),
            arguments: Vec::new(),
            where_clause: Vec::new(),
        },
        target_type: placeholder_type(),
        trait_path: None,
        attributes: Vec::new(),
        specializations: Vec::new(),
        methods: Vec::new(),
        associated_types: Vec::new(),
        associated_consts: Vec::new(),
        retained_tokens: Vec::new(),
        span: CALL_SITE_SPAN,
    }
}

/// Applies the runtime-root lifetime policy to one specialized impl: every
/// listed impl lifetime becomes `'static` in its target type, trait path,
/// method signatures and associated items.
pub fn substitute_impl_lifetimes(declaration: &mut ImplDeclarationIr, lifetime_names: &[&str])
    ensures
        impl_substituted(*old(declaration), *final(declaration), names_view(lifetime_names@)),
{
    let mut taken = placeholder_impl();
    core::mem::swap(&mut taken, declaration);
    let ImplDeclarationIr {
        generics,
        target_type,
        trait_path,
        attributes,
        specializations,
        methods,
        associated_types,
        associated_consts,
        retained_tokens,
        span,
    } = taken;
    let ghost listed = names_view(lifetime_names@);
    let new_target = substituted_type(target_type, lifetime_names);
    let new_trait = match trait_path {
        Some(path) => Some(substituted_path(path, lifetime_names)),
        None => None,
    };
    let ghost initial_methods = methods@;
    assert(initial_methods.len() == methods.len());
    let mut rest = methods;
    let mut new_methods: Vec<MethodIr> = Vec::new();
    while rest.len() > 0
        invariant
            new_methods@.len() + rest@.len() == initial_methods.len(),
            initial_methods.len() <= usize::MAX,
            rest@ == initial_methods.skip(new_methods@.len() as int),
            listed == names_view(lifetime_names@),
            forall|i: int|
                0 <= i < new_methods@.len() ==> method_substituted(
                    #[trigger] initial_methods[i],
                    new_methods@[i],
                    listed,
                ),
        decreases rest.len(),
    {
        let ghost done: int = new_methods@.len() as int;
        let method = rest.remove(0);
        assert(method == initial_methods[done]);
        assert(rest@ =~= initial_methods.skip(done + 1));
        new_methods.push(substituted_method(method, lifetime_names));
    }
    let ghost initial_types = associated_types@;
    assert(initial_types.len() == associated_types.len());
    let mut rest_types = associated_types;
    let mut new_types: Vec<AssociatedTypeIr> = Vec::new();
    while rest_types.len() > 0
        invariant
            new_types@.len() + rest_types@.len() == initial_types.len(),
            initial_types.len() <= usize::MAX,
            rest_types@ == initial_types.skip(new_types@.len() as int),
            listed == names_view(lifetime_names@),
            forall|i: int|
                0 <= i < new_types@.len() ==> {
                    let item = #[trigger] initial_types[i];
                    let rewritten = new_types@[i];
                    &&& rewritten.name == item.name
                    &&& rewritten.generics == item.generics
                    &&& rewritten.bounds == item.bounds
                    &&& rewritten.declaration == item.declaration
                    &&& rewritten.attributes == item.attributes
                    &&& rewritten.span == item.span
                    &&& match item.value {
                        Some(value) => rewritten.value matches Some(new_value) && type_substituted(
                            value,
                            new_value,
                            listed,
                        ),
                        None => rewritten.value is None,
                    }
                },
        decreases rest_types.len(),
    {
        let ghost done: int = new_types@.len() as int;
        let item = rest_types.remove(0);
        assert(item == initial_types[done]);
        assert(rest_types@ =~= initial_types.skip(done + 1));
        let AssociatedTypeIr { name, generics, bounds, value, declaration, attributes, span } = item;
        let new_value = match value {
            Some(value) => Some(substituted_type(value, lifetime_names)),
            None => None,
        };
        new_types.push(AssociatedTypeIr { name, generics, bounds, value: new_value, declaration, attributes, span });
    }
    let ghost initial_consts = associated_consts@;
    assert(initial_consts.len() == associated_consts.len());
    let mut rest_consts = associated_consts;
    let mut new_consts: Vec<AssociatedConstIr> = Vec::new();
    while rest_consts.len() > 0
        invariant
            new_consts@.len() + rest_consts@.len() == initial_consts.len(),
            initial_consts.len() <= usize::MAX,
            rest_consts@ == initial_consts.skip(new_consts@.len() as int),
            listed == names_view(lifetime_names@),
            forall|i: int|
                0 <= i < new_consts@.len() ==> {
                    let item = #[trigger] initial_consts[i];
                    let rewritten = new_consts@[i];
                    &&& rewritten.name == item.name
                    &&& rewritten.value == item.value
                    &&& rewritten.declaration == item.declaration
                    &&& rewritten.attributes == item.attributes
                    &&& rewritten.span == item.span
                    &&& type_substituted(item.ty, rewritten.ty, listed)
                },
        decreases rest_consts.len(),
    {
        let ghost done: int = new_consts@.len() as int;
        let item = rest_consts.remove(0);
        assert(item == initial_consts[done]);
        assert(rest_consts@ =~= initial_consts.skip(done + 1));
        let AssociatedConstIr { name, ty, value, declaration, attributes, span } = item;
        new_consts.push(
            AssociatedConstIr { name, ty: substituted_type(ty, lifetime_names), value, declaration, attributes, span },
        );
    }
    *declaration = ImplDeclarationIr {
        generics,
        target_type: new_target,
        trait_path: new_trait,
        attributes,
        specializations,
        methods: new_methods,
        associated_types: new_types,
        associated_consts: new_consts,
        retained_tokens,
        span,
    };
}

// ---------------------------------------------------------------------------
// Every replaced lifetime is gone
// ---------------------------------------------------------------------------

/// `'static` is not spelled like any other lifetime name.
proof fn lemma_static_is_not(lifetime: Seq<char>)
    requires
        lifetime != "static"@,
    ensures
        !names_lifetime("'static"@, lifetime),
{
    reveal_strlit("'static");
    reveal_strlit("static");
    assert("'static"@.drop_first() =~= "static"@);
    assert(trim_quotes("static"@) == "static"@);
    assert(trim_quotes("'static"@) == trim_quotes("'static"@.drop_first()));
}

/// A lifetime that survives the rewrite is not a replaced one.
proof fn lemma_kept_lifetime(candidate: Seq<char>, names: Seq<Seq<char>>, lifetime: Seq<char>)
    requires
        !lifetime_replaced(candidate, names),
        names.contains(lifetime),
    ensures
        !names_lifetime(candidate, lifetime),
{
}

proof fn lemma_type_free(old: TypeIr, new: TypeIr, names: Seq<Seq<char>>, lifetime: Seq<char>)
    requires
        type_substituted(old, new, names),
        names.contains(lifetime),
        lifetime != "static"@,
    ensures
        !uses_lifetime(new, lifetime),
    decreases old,
{
    lemma_static_is_not(lifetime);
    match old.kind {
        TypeKindIr::Path(path) => {
            if let TypeKindIr::Path(rewritten) = new.kind {
                lemma_path_free(path, rewritten, names, lifetime);
            }
        },
        TypeKindIr::Reference { lifetime: reference, element, .. } => {
            if let TypeKindIr::Reference { element: new_element, .. } = new.kind {
                if let Some(value) = reference {
                    if !lifetime_replaced(value@, names) {
                        lemma_kept_lifetime(value@, names, lifetime);
                    }
                }
                lemma_type_free(*element, *new_element, names, lifetime);
            }
        },
        TypeKindIr::Slice(element) => {
            if let TypeKindIr::Slice(new_element) = new.kind {
                lemma_type_free(*element, *new_element, names, lifetime);
            }
        },
        TypeKindIr::Pointer { element, .. } => {
            if let TypeKindIr::Pointer { element: new_element, .. } = new.kind {
                lemma_type_free(*element, *new_element, names, lifetime);
            }
        },
        TypeKindIr::Array { element, .. } => {
            if let TypeKindIr::Array { element: new_element, .. } = new.kind {
                lemma_type_free(*element, *new_element, names, lifetime);
            }
        },
        TypeKindIr::Tuple(elements) => {
            if let TypeKindIr::Tuple(new_elements) = new.kind {
                lemma_types_free(elements@, new_elements@, names, lifetime);
            }
        },
        TypeKindIr::BareFunction { inputs, output, .. } => {
            if let TypeKindIr::BareFunction { inputs: new_inputs, output: new_output, .. } = new.kind {
                lemma_types_free(inputs@, new_inputs@, names, lifetime);
                if let Some(output) = output {
                    if let Some(new_output) = new_output {
                        lemma_type_free(*output, *new_output, names, lifetime);
                    }
                }
            }
        },
        _ => {},
    }
}

proof fn lemma_types_free(old: Seq<TypeIr>, new: Seq<TypeIr>, names: Seq<Seq<char>>, lifetime: Seq<char>)
    requires
        new.len() == old.len(),
        forall|i: int| 0 <= i < old.len() ==> type_substituted(#[trigger] old[i], new[i], names),
        names.contains(lifetime),
        lifetime != "static"@,
    ensures
        !types_use_lifetime(new, lifetime),
    decreases old,
{
    if old.len() > 0 {
        assert(type_substituted(old[0], new[0], names));
        lemma_type_free(old[0], new[0], names, lifetime);
        assert forall|i: int| 0 <= i < old.drop_first().len() implies type_substituted(
            #[trigger] old.drop_first()[i],
            new.drop_first()[i],
            names,
        ) by {
            assert(type_substituted(old[i + 1], new[i + 1], names));
        }
        lemma_types_free(old.drop_first(), new.drop_first(), names, lifetime);
    }
}

proof fn lemma_path_free(old: PathIr, new: PathIr, names: Seq<Seq<char>>, lifetime: Seq<char>)
    requires
        path_substituted(old, new, names),
        names.contains(lifetime),
        lifetime != "static"@,
    ensures
        (match new.qualified_self {
            Some(qualified) => !uses_lifetime(qualified.ty, lifetime),
            None => true,
        }),
        !segments_use_lifetime(new.segments@, lifetime),
    decreases old,
{
    if let Some(qualified) = old.qualified_self {
        if let Some(new_qualified) = new.qualified_self {
            lemma_type_free(qualified.ty, new_qualified.ty, names, lifetime);
        }
    }
    lemma_segments_free(old.segments@, new.segments@, names, lifetime);
}

proof fn lemma_segments_free(
    old: Seq<PathSegmentIr>,
    new: Seq<PathSegmentIr>,
    names: Seq<Seq<char>>,
    lifetime: Seq<char>,
)
    requires
        new.len() == old.len(),
        forall|i: int|
            0 <= i < old.len() ==> arguments_substituted(
                (#[trigger] old[i]).arguments,
                new[i].arguments,
                names,
            ),
        names.contains(lifetime),
        lifetime != "static"@,
    ensures
        !segments_use_lifetime(new, lifetime),
    decreases old,
{
    if old.len() > 0 {
        assert(arguments_substituted(old[0].arguments, new[0].arguments, names));
        lemma_arguments_free(old[0].arguments, new[0].arguments, names, lifetime);
        assert forall|i: int| 0 <= i < old.drop_first().len() implies arguments_substituted(
            (#[trigger] old.drop_first()[i]).arguments,
            new.drop_first()[i].arguments,
            names,
        ) by {
            assert(arguments_substituted(old[i + 1].arguments, new[i + 1].arguments, names));
        }
        lemma_segments_free(old.drop_first(), new.drop_first(), names, lifetime);
    }
}

proof fn lemma_arguments_free(
    old: PathArgumentsIr,
    new: PathArgumentsIr,
    names: Seq<Seq<char>>,
    lifetime: Seq<char>,
)
    requires
        arguments_substituted(old, new, names),
        names.contains(lifetime),
        lifetime != "static"@,
    ensures
        !arguments_use_lifetime(new, lifetime),
    decreases old,
{
    match old {
        PathArgumentsIr::Empty => {},
        PathArgumentsIr::AngleBracketed(items) => {
            if let PathArgumentsIr::AngleBracketed(new_items) = new {
                lemma_argument_list_free(items@, new_items@, names, lifetime);
            }
        },
        PathArgumentsIr::Parenthesized { inputs, output } => {
            if let PathArgumentsIr::Parenthesized { inputs: new_inputs, output: new_output } = new {
                lemma_types_free(inputs@, new_inputs@, names, lifetime);
                if let Some(output) = output {
                    if let Some(new_output) = new_output {
                        lemma_type_free(*output, *new_output, names, lifetime);
                    }
                }
            }
        },
    }
}

proof fn lemma_argument_list_free(
    old: Seq<PathArgumentIr>,
    new: Seq<PathArgumentIr>,
    names: Seq<Seq<char>>,
    lifetime: Seq<char>,
)
    requires
        new.len() == old.len(),
        forall|i: int| 0 <= i < old.len() ==> argument_substituted(#[trigger] old[i], new[i], names),
        names.contains(lifetime),
        lifetime != "static"@,
    ensures
        !argument_list_uses_lifetime(new, lifetime),
    decreases old,
{
    if old.len() > 0 {
        assert(argument_substituted(old[0], new[0], names));
        lemma_argument_free(old[0], new[0], names, lifetime);
        assert forall|i: int| 0 <= i < old.drop_first().len() implies argument_substituted(
            #[trigger] old.drop_first()[i],
            new.drop_first()[i],
            names,
        ) by {
            assert(argument_substituted(old[i + 1], new[i + 1], names));
        }
        lemma_argument_list_free(old.drop_first(), new.drop_first(), names, lifetime);
    }
}

proof fn lemma_argument_free(old: PathArgumentIr, new: PathArgumentIr, names: Seq<Seq<char>>, lifetime: Seq<char>)
    requires
        argument_substituted(old, new, names),
        names.contains(lifetime),
        lifetime != "static"@,
    ensures
        !argument_uses_lifetime(new, lifetime),
    decreases old,
{
    lemma_static_is_not(lifetime);
    match old {
        PathArgumentIr::Lifetime(value) => {
            if !lifetime_replaced(value@, names) {
                lemma_kept_lifetime(value@, names, lifetime);
            }
        },
        PathArgumentIr::Type(ty) => {
            if let PathArgumentIr::Type(new_ty) = new {
                lemma_type_free(ty, new_ty, names, lifetime);
            }
        },
        PathArgumentIr::AssociatedType { ty, .. } => {
            if let PathArgumentIr::AssociatedType { ty: new_ty, .. } = new {
                lemma_type_free(ty, new_ty, names, lifetime);
            }
        },
        _ => {},
    }
}

/// After the rewrite no type refers to a replaced lifetime: every lifetime
/// the policy names, other than `static` itself, has become `'static`.
pub proof fn law_substitution_leaves_no_replaced_lifetime(
    old: TypeIr,
    new: TypeIr,
    names: Seq<Seq<char>>,
    lifetime: Seq<char>,
)
    requires
        type_substituted(old, new, names),
        names.contains(lifetime),
        lifetime != "static"@,
    ensures
        !uses_lifetime(new, lifetime),
{
    lemma_type_free(old, new, names, lifetime);
}

} // verus!

//! Token emission of the generated construction and owned-update adapters
//! of a reflected struct.

use vstd::prelude::*;
use vstd::string::StringExecFns;

use crate::codegen::append_tokens;
use crate::codegen::colons_view;
use crate::codegen::construction_entry;
use crate::codegen::construction_entry_view;
use crate::codegen::copy_tokens;
use crate::codegen::ident_token;
use crate::codegen::ident_view;
use crate::codegen::path_tokens;
use crate::codegen::path_view;
use crate::codegen::provider_name;
use crate::codegen::punct_token;
use crate::codegen::punct_view;
use crate::codegen::push_segment;
use crate::codegen::push_token;
use crate::codegen::update_entry;
use crate::codegen::update_entry_view;
use crate::helper::HelperName;
use crate::ir::DelimiterIr;
use crate::ir::FieldIr;
use crate::ir::HelperValueIr;
use crate::ir::TokenTreeIr;
use crate::ir::TypeDeclarationIr;
use crate::ir::TypeDeclarationKindIr;
use crate::ir::CALL_SITE_SPAN;
use crate::member_plan::construction_field_of;
use crate::member_plan::default_provider;
use crate::member_plan::default_values_well_formed;
use crate::member_plan::DefaultProviderIr;
use crate::substitution::lemma_tokens_view_index;
use crate::substitution::token_view;
use crate::substitution::tokens_view;
use crate::substitution::TokenView;
use crate::text::decimal;
use crate::text::decimal_string;
use crate::text::join2;
use crate::validate::first_named;
use crate::validate::has_named;

verus! {

// ---------------------------------------------------------------------------
// Pieces
// ---------------------------------------------------------------------------

/// A group at the call site.
pub open spec fn group_view(delimiter: DelimiterIr, inner: Seq<TokenView>) -> TokenView {
    TokenView::Group(delimiter, inner, CALL_SITE_SPAN)
}

/// A literal at the call site.
pub open spec fn literal_view(text: Seq<char>) -> TokenView {
    TokenView::Literal(text, CALL_SITE_SPAN)
}

/// `facade::value::DynamicOwned<facade::value::Local>`.
pub open spec fn local_owned_view(facade: Seq<TokenView>) -> Seq<TokenView> {
    path_view(facade, seq!["value"@, "DynamicOwned"@]) + seq![punct_view('<', false)] + path_view(
        facade,
        seq!["value"@, "Local"@],
    ) + seq![punct_view('>', false)]
}

/// `<facade::value::DynamicOwned<facade::value::Local>>`.
pub open spec fn angled_owned_view(facade: Seq<TokenView>) -> Seq<TokenView> {
    seq![punct_view('<', false)] + local_owned_view(facade) + seq![punct_view('>', false)]
}

/// `unreachable!("message")`.
pub open spec fn unreachable_view(message: Seq<char>) -> Seq<TokenView> {
    seq![
        ident_view("unreachable"@),
        punct_view('!', false),
        group_view(DelimiterIr::Parenthesis, seq![literal_view(message)]),
    ]
}

/// `.unwrap_or_else(|_| unreachable!("message"))`.
pub open spec fn unwrap_unreachable_view(message: Seq<char>) -> Seq<TokenView> {
    seq![
        punct_view('.', false),
        ident_view("unwrap_or_else"@),
        group_view(
            DelimiterIr::Parenthesis,
            seq![punct_view('|', false), ident_view("_"@), punct_view('|', false)] + unreachable_view(message),
        ),
    ]
}

/// `<facade::value::DynamicOwned<facade::value::Local>>::downcast::<ty>`.
pub open spec fn downcast_view(facade: Seq<TokenView>, ty: Seq<TokenView>) -> Seq<TokenView> {
    angled_owned_view(facade) + colons_view() + seq![ident_view("downcast"@)] + colons_view() + seq![
        punct_view('<', false),
    ] + ty + seq![punct_view('>', false)]
}

/// The value of one field taken from the validated construction values.
pub open spec fn construction_value_view(facade: Seq<TokenView>, ty: Seq<TokenView>) -> Seq<TokenView> {
    downcast_view(facade, ty) + seq![
        group_view(
            DelimiterIr::Parenthesis,
            seq![
                ident_view("values"@),
                punct_view('.', false),
                ident_view("next"@),
                group_view(DelimiterIr::Parenthesis, Seq::empty()),
                punct_view('.', false),
                ident_view("unwrap_or_else"@),
                group_view(
                    DelimiterIr::Parenthesis,
                    seq![punct_view('|', true), punct_view('|', false)] + unreachable_view(
                        "\"validated construction value count\""@,
                    ),
                ),
                punct_view(',', false),
            ],
        ),
    ] + unwrap_unreachable_view("\"validated construction field type\""@)
}

/// The expression a field's default provider evaluates: the type's
/// `Default`, or a call of the named function.
pub open spec fn default_expression_view(ty: Seq<TokenView>, function: Option<Seq<TokenView>>) -> Seq<TokenView> {
    match function {
        None => seq![punct_view('<', false)] + ty + seq![ident_view("as"@)] + colons_view() + seq![
            ident_view("core"@),
        ] + colons_view() + seq![ident_view("default"@)] + colons_view() + seq![
            ident_view("Default"@),
            punct_view('>', false),
        ] + colons_view() + seq![ident_view("default"@), group_view(DelimiterIr::Parenthesis, Seq::empty())],
        Some(path) => path + seq![group_view(DelimiterIr::Parenthesis, Seq::empty())],
    }
}

/// `fn provider() -> Owned { let value: ty = expression; <Owned>::new(value) }`.
pub open spec fn provider_function_view(
    facade: Seq<TokenView>,
    index: usize,
    ty: Seq<TokenView>,
    expression: Seq<TokenView>,
) -> Seq<TokenView> {
    seq![
        ident_view("fn"@),
        ident_view(provider_name(index)),
        group_view(DelimiterIr::Parenthesis, Seq::empty()),
        punct_view('-', true),
        punct_view('>', false),
    ] + local_owned_view(facade) + seq![
        group_view(
            DelimiterIr::Brace,
            seq![ident_view("let"@), ident_view("value"@), punct_view(':', false)] + ty + seq![punct_view('=', false)]
                + expression + seq![punct_view(';', false)] + angled_owned_view(facade) + colons_view() + seq![
                ident_view("new"@),
                group_view(DelimiterIr::Parenthesis, seq![ident_view("value"@)]),
            ],
        ),
    ]
}

/// The provider function path a `default` helper names, if any.
pub open spec fn default_function(field: FieldIr) -> Option<Seq<TokenView>> {
    match first_named(field.attributes@, HelperName::Default) {
        Some(k) => match field.attributes@[k].value {
            HelperValueIr::DefaultPath(Some(path)) => Some(tokens_view(path.tokens@)),
            _ => None,
        },
        None => None,
    }
}

/// The default provider function of one field, or nothing without a
/// `default` helper.
pub open spec fn field_provider_view(facade: Seq<TokenView>, field: FieldIr) -> Seq<TokenView> {
    if has_named(field.attributes@, HelperName::Default) {
        provider_function_view(
            facade,
            field.index,
            tokens_view(field.ty.tokens@),
            default_expression_view(tokens_view(field.ty.tokens@), default_function(field)),
        )
    } else {
        Seq::empty()
    }
}

// ---------------------------------------------------------------------------
// Builders
// ---------------------------------------------------------------------------

pub(crate) fn push_ident(tokens: &mut Vec<TokenTreeIr>, name: &str)
    ensures
        tokens_view(final(tokens)@) == tokens_view(old(tokens)@).push(ident_view(name@)),
{
    push_token(tokens, ident_token(name));
}

pub(crate) fn push_punct(tokens: &mut Vec<TokenTreeIr>, ch: char, joint: bool)
    ensures
        tokens_view(final(tokens)@) == tokens_view(old(tokens)@).push(punct_view(ch, joint)),
{
    push_token(tokens, punct_token(ch, joint));
}

pub(crate) fn push_group(tokens: &mut Vec<TokenTreeIr>, delimiter: DelimiterIr, inner: Vec<TokenTreeIr>)
    ensures
        tokens_view(final(tokens)@) == tokens_view(old(tokens)@).push(group_view(delimiter, tokens_view(inner@))),
{
    let group = TokenTreeIr::Group { delimiter, tokens: inner, span: CALL_SITE_SPAN };
    push_token(tokens, group);
}

pub(crate) fn push_literal(tokens: &mut Vec<TokenTreeIr>, text: String)
    ensures
        tokens_view(final(tokens)@) == tokens_view(old(tokens)@).push(literal_view(text@)),
{
    push_token(tokens, TokenTreeIr::Literal { text, span: CALL_SITE_SPAN });
}

pub(crate) fn empty_tokens() -> (tokens: Vec<TokenTreeIr>)
    ensures
        tokens_view(tokens@) == Seq::<TokenView>::empty(),
{
    let tokens: Vec<TokenTreeIr> = Vec::new();
    proof {
        lemma_tokens_view_index(tokens@);
    }
    tokens
}

pub(crate) fn push_colons(tokens: &mut Vec<TokenTreeIr>)
    ensures
        tokens_view(final(tokens)@) == tokens_view(old(tokens)@) + colons_view(),
{
    let ghost start = tokens_view(tokens@);
    push_punct(tokens, ':', true);
    push_punct(tokens, ':', false);
    assert(tokens_view(tokens@) =~= start + colons_view());
}

fn push_path(tokens: &mut Vec<TokenTreeIr>, facade: &Vec<TokenTreeIr>, first: &str, second: &str)
    ensures
        tokens_view(final(tokens)@) == tokens_view(old(tokens)@) + path_view(
            tokens_view(facade@),
            seq![first@, second@],
        ),
{
    let names: [&str; 2] = [first, second];
    assert(names@.map_values(|name: &str| name@) =~= seq![first@, second@]);
    let path = path_tokens(facade, names.as_slice());
    append_tokens(tokens, &path);
}

fn push_local_owned(tokens: &mut Vec<TokenTreeIr>, facade: &Vec<TokenTreeIr>)
    ensures
        tokens_view(final(tokens)@) == tokens_view(old(tokens)@) + local_owned_view(tokens_view(facade@)),
{
    let ghost start = tokens_view(tokens@);
    push_path(tokens, facade, "value", "DynamicOwned");
    push_punct(tokens, '<', false);
    push_path(tokens, facade, "value", "Local");
    push_punct(tokens, '>', false);
    assert(tokens_view(tokens@) =~= start + local_owned_view(tokens_view(facade@)));
}

fn push_angled_owned(tokens: &mut Vec<TokenTreeIr>, facade: &Vec<TokenTreeIr>)
    ensures
        tokens_view(final(tokens)@) == tokens_view(old(tokens)@) + angled_owned_view(tokens_view(facade@)),
{
    let ghost start = tokens_view(tokens@);
    push_punct(tokens, '<', false);
    push_local_owned(tokens, facade);
    push_punct(tokens, '>', false);
    assert(tokens_view(tokens@) =~= start + angled_owned_view(tokens_view(facade@)));
}

pub(crate) fn push_unreachable(tokens: &mut Vec<TokenTreeIr>, message: &str)
    ensures
        tokens_view(final(tokens)@) == tokens_view(old(tokens)@) + unreachable_view(message@),
{
    let ghost start = tokens_view(tokens@);
    push_ident(tokens, "unreachable");
    push_punct(tokens, '!', false);
    let mut inner = empty_tokens();
    push_literal(&mut inner, String::from_str(message));
    push_group(tokens, DelimiterIr::Parenthesis, inner);
    assert(tokens_view(tokens@) =~= start + unreachable_view(message@));
}

pub(crate) fn push_unwrap_unreachable(tokens: &mut Vec<TokenTreeIr>, message: &str)
    ensures
        tokens_view(final(tokens)@) == tokens_view(old(tokens)@) + unwrap_unreachable_view(message@),
{
    let ghost start = tokens_view(tokens@);
    push_punct(tokens, '.', false);
    push_ident(tokens, "unwrap_or_else");
    let mut inner = empty_tokens();
    push_punct(&mut inner, '|', false);
    push_ident(&mut inner, "_");
    push_punct(&mut inner, '|', false);
    push_unreachable(&mut inner, message);
    let ghost inner_view = tokens_view(inner@);
    assert(inner_view =~= seq![punct_view('|', false), ident_view("_"@), punct_view('|', false)] + unreachable_view(
        message@,
    ));
    push_group(tokens, DelimiterIr::Parenthesis, inner);
    assert(tokens_view(tokens@) =~= start + unwrap_unreachable_view(message@));
}

fn push_downcast(tokens: &mut Vec<TokenTreeIr>, facade: &Vec<TokenTreeIr>, ty: &Vec<TokenTreeIr>)
    ensures
        tokens_view(final(tokens)@) == tokens_view(old(tokens)@) + downcast_view(tokens_view(facade@), tokens_view(ty@)),
{
    let ghost start = tokens_view(tokens@);
    push_angled_owned(tokens, facade);
    push_colons(tokens);
    push_ident(tokens, "downcast");
    push_colons(tokens);
    push_punct(tokens, '<', false);
    append_tokens(tokens, ty);
    push_punct(tokens, '>', false);
    assert(tokens_view(tokens@) =~= start + downcast_view(tokens_view(facade@), tokens_view(ty@)));
}

fn push_construction_value(tokens: &mut Vec<TokenTreeIr>, facade: &Vec<TokenTreeIr>, ty: &Vec<TokenTreeIr>)
    ensures
        tokens_view(final(tokens)@) == tokens_view(old(tokens)@) + construction_value_view(
            tokens_view(facade@),
            tokens_view(ty@),
        ),
{
    let ghost start = tokens_view(tokens@);
    push_downcast(tokens, facade, ty);
    let ghost cast = tokens_view(tokens@);
    let mut closure = empty_tokens();
    push_punct(&mut closure, '|', true);
    push_punct(&mut closure, '|', false);
    push_unreachable(&mut closure, "\"validated construction value count\"");
    let ghost closure_view = tokens_view(closure@);
    assert(closure_view =~= seq![punct_view('|', true), punct_view('|', false)] + unreachable_view(
        "\"validated construction value count\""@,
    ));
    let mut arguments = empty_tokens();
    push_ident(&mut arguments, "values");
    push_punct(&mut arguments, '.', false);
    push_ident(&mut arguments, "next");
    let nothing = empty_tokens();
    assert(tokens_view(nothing@) =~= Seq::<TokenView>::empty());
    push_group(&mut arguments, DelimiterIr::Parenthesis, nothing);
    push_punct(&mut arguments, '.', false);
    push_ident(&mut arguments, "unwrap_or_else");
    push_group(&mut arguments, DelimiterIr::Parenthesis, closure);
    push_punct(&mut arguments, ',', false);
    let ghost arguments_view = tokens_view(arguments@);
    assert(arguments_view =~= seq![
        ident_view("values"@),
        punct_view('.', false),
        ident_view("next"@),
        group_view(DelimiterIr::Parenthesis, Seq::empty()),
        punct_view('.', false),
        ident_view("unwrap_or_else"@),
        group_view(DelimiterIr::Parenthesis, closure_view),
        punct_view(',', false),
    ]);
    push_group(tokens, DelimiterIr::Parenthesis, arguments);
    let ghost called = tokens_view(tokens@);
    assert(called =~= start + downcast_view(tokens_view(facade@), tokens_view(ty@)) + seq![
        group_view(DelimiterIr::Parenthesis, arguments_view),
    ]);
    push_unwrap_unreachable(tokens, "\"validated construction field type\"");
    assert(tokens_view(tokens@) =~= start + construction_value_view(tokens_view(facade@), tokens_view(ty@)));
}

fn push_default_expression(tokens: &mut Vec<TokenTreeIr>, ty: &Vec<TokenTreeIr>, function: Option<&Vec<TokenTreeIr>>)
    ensures
        tokens_view(final(tokens)@) == tokens_view(old(tokens)@) + default_expression_view(
            tokens_view(ty@),
            match function {
                Some(path) => Some(tokens_view(path@)),
                None => None,
            },
        ),
{
    let ghost start = tokens_view(tokens@);
    match function {
        None => {
            push_punct(tokens, '<', false);
            append_tokens(tokens, ty);
            push_ident(tokens, "as");
            push_colons(tokens);
            push_ident(tokens, "core");
            push_colons(tokens);
            push_ident(tokens, "default");
            push_colons(tokens);
            push_ident(tokens, "Default");
            push_punct(tokens, '>', false);
            push_colons(tokens);
            push_ident(tokens, "default");
            push_group(tokens, DelimiterIr::Parenthesis, empty_tokens());
            assert(tokens_view(tokens@) =~= start + default_expression_view(tokens_view(ty@), None));
        },
        Some(path) => {
            append_tokens(tokens, path);
            push_group(tokens, DelimiterIr::Parenthesis, empty_tokens());
            assert(tokens_view(tokens@) =~= start + default_expression_view(
                tokens_view(ty@),
                Some(tokens_view(path@)),
            ));
        },
    }
}

/// Emits the default provider function of one field, or nothing for a
/// field without a `default` helper.
pub fn field_provider(field: &FieldIr, facade: &Vec<TokenTreeIr>) -> (tokens: Vec<TokenTreeIr>)
    requires
        default_values_well_formed(field.attributes@),
    ensures
        tokens_view(tokens@) == field_provider_view(tokens_view(facade@), *field),
{
    let provider = default_provider(field);
    let function: Option<&Vec<TokenTreeIr>> = match provider {
        None => {
            return empty_tokens();
        },
        Some(DefaultProviderIr::TypeDefault) => None,
        Some(DefaultProviderIr::Function(path)) => Some(&path.tokens),
    };
    let ghost function_view = match function {
        Some(path) => Some(tokens_view(path@)),
        None => None::<Seq<TokenView>>,
    };
    assert(function_view == default_function(*field));
    let mut body = empty_tokens();
    push_ident(&mut body, "let");
    push_ident(&mut body, "value");
    push_punct(&mut body, ':', false);
    append_tokens(&mut body, &field.ty.tokens);
    push_punct(&mut body, '=', false);
    push_default_expression(&mut body, &field.ty.tokens, function);
    push_punct(&mut body, ';', false);
    push_angled_owned(&mut body, facade);
    push_colons(&mut body);
    push_ident(&mut body, "new");
    let mut value = empty_tokens();
    push_ident(&mut value, "value");
    push_group(&mut body, DelimiterIr::Parenthesis, value);
    let ghost body_view = tokens_view(body@);
    let ghost facade_view = tokens_view(facade@);
    let ghost ty_view = tokens_view(field.ty.tokens@);
    assert(body_view =~= seq![ident_view("let"@), ident_view("value"@), punct_view(':', false)] + ty_view + seq![
        punct_view('=', false),
    ] + default_expression_view(ty_view, function_view) + seq![punct_view(';', false)] + angled_owned_view(
        facade_view,
    ) + colons_view() + seq![
        ident_view("new"@),
        group_view(DelimiterIr::Parenthesis, seq![ident_view("value"@)]),
    ]);
    let mut tokens = empty_tokens();
    push_ident(&mut tokens, "fn");
    let name = join2("__qubit_reflect_default_field_", decimal_string(field.index).as_str());
    push_ident(&mut tokens, name.as_str());
    push_group(&mut tokens, DelimiterIr::Parenthesis, empty_tokens());
    push_punct(&mut tokens, '-', true);
    push_punct(&mut tokens, '>', false);
    push_local_owned(&mut tokens, facade);
    push_group(&mut tokens, DelimiterIr::Brace, body);
    assert(tokens_view(tokens@) =~= field_provider_view(facade_view, *field));
    tokens
}

// ---------------------------------------------------------------------------
// Lists
// ---------------------------------------------------------------------------

/// Items separated by commas.
pub open spec fn comma_separated(items: Seq<Seq<TokenView>>) -> Seq<TokenView>
    decreases items.len(),
{
    if items.len() == 0 {
        Seq::empty()
    } else if items.len() == 1 {
        items[0]
    } else {
        comma_separated(items.drop_last()) + seq![punct_view(',', false)] + items.last()
    }
}

/// Items one after another.
pub open spec fn concatenated(items: Seq<Seq<TokenView>>) -> Seq<TokenView>
    decreases items.len(),
{
    if items.len() == 0 {
        Seq::empty()
    } else {
        concatenated(items.drop_last()) + items.last()
    }
}

/// `:: names[0] :: names[1] ...`, a path from the extern prelude.
pub open spec fn std_path_view(names: Seq<Seq<char>>) -> Seq<TokenView> {
    path_view(Seq::empty(), names)
}

proof fn lemma_path_view_prefix(prefix: Seq<TokenView>, names: Seq<Seq<char>>)
    ensures
        path_view(prefix, names) == prefix + path_view(Seq::empty(), names),
    decreases names.len(),
{
    if names.len() > 0 {
        let head = colons_view() + seq![ident_view(names[0])];
        lemma_path_view_prefix(prefix + colons_view() + seq![ident_view(names[0])], names.drop_first());
        lemma_path_view_prefix(Seq::<TokenView>::empty() + colons_view() + seq![ident_view(names[0])], names.drop_first());
        assert(prefix + colons_view() + seq![ident_view(names[0])] =~= prefix + head);
        assert(Seq::<TokenView>::empty() + colons_view() + seq![ident_view(names[0])] =~= head);
        assert(prefix + head + path_view(Seq::empty(), names.drop_first()) =~= prefix + (head + path_view(
            Seq::empty(),
            names.drop_first(),
        )));
    } else {
        assert(prefix + Seq::<TokenView>::empty() =~= prefix);
    }
}

pub(crate) fn push_std_path(tokens: &mut Vec<TokenTreeIr>, names: &[&str])
    ensures
        tokens_view(final(tokens)@) == tokens_view(old(tokens)@) + std_path_view(
            names@.map_values(|name: &str| name@),
        ),
{
    let ghost start = tokens_view(tokens@);
    crate::codegen::push_segments(tokens, names);
    proof {
        lemma_path_view_prefix(start, names@.map_values(|name: &str| name@));
    }
}

// ---------------------------------------------------------------------------
// Field items
// ---------------------------------------------------------------------------

/// The name of a named field.
pub open spec fn field_name(field: FieldIr) -> Seq<char> {
    match field.name {
        Some(name) => name@,
        None => Seq::empty(),
    }
}

/// `name: value` for a named field.
pub open spec fn named_value_item(facade: Seq<TokenView>, field: FieldIr) -> Seq<TokenView> {
    seq![ident_view(field_name(field)), punct_view(':', false)] + construction_value_view(
        facade,
        tokens_view(field.ty.tokens@),
    )
}

/// The value of a tuple field.
pub open spec fn tuple_value_item(facade: Seq<TokenView>, field: FieldIr) -> Seq<TokenView> {
    construction_value_view(facade, tokens_view(field.ty.tokens@))
}

/// The place an update writes: the field's name, or its position.
pub open spec fn update_target_view(field: FieldIr) -> Seq<TokenView> {
    match field.name {
        Some(name) => seq![ident_view(name@)],
        None => seq![literal_view(decimal(field.index as nat))],
    }
}

/// `index => { value.target = <Owned>::downcast::<ty>(replacement)...; }`.
pub open spec fn assignment_arm_view(facade: Seq<TokenView>, field: FieldIr) -> Seq<TokenView> {
    seq![
        literal_view(decimal(field.index as nat) + "usize"@),
        punct_view('=', true),
        punct_view('>', false),
        group_view(
            DelimiterIr::Brace,
            seq![ident_view("value"@), punct_view('.', false)] + update_target_view(field) + seq![
                punct_view('=', false),
            ] + downcast_view(facade, tokens_view(field.ty.tokens@)) + seq![
                group_view(DelimiterIr::Parenthesis, seq![ident_view("replacement"@)]),
            ] + unwrap_unreachable_view("\"validated update field type\""@) + seq![punct_view(';', false)],
        ),
    ]
}

/// Whether a struct's fields are all named or all unnamed, as Rust has them.
pub open spec fn fields_uniformly_named(fields: Seq<FieldIr>) -> bool {
    forall|i: int| 0 <= i < fields.len() ==> (#[trigger] fields[i]).name is Some == fields[0].name is Some
}

/// The struct value built from the construction values: `Self { .. }`,
/// `Self(..)` or `Self`.
pub open spec fn struct_literal_view(facade: Seq<TokenView>, fields: Seq<FieldIr>) -> Seq<TokenView> {
    if fields.len() == 0 {
        seq![ident_view("Self"@)]
    } else if fields[0].name is Some {
        seq![
            ident_view("Self"@),
            group_view(
                DelimiterIr::Brace,
                comma_separated(fields.map_values(|field: FieldIr| named_value_item(facade, field))),
            ),
        ]
    } else {
        seq![
            ident_view("Self"@),
            group_view(
                DelimiterIr::Parenthesis,
                comma_separated(fields.map_values(|field: FieldIr| tuple_value_item(facade, field))),
            ),
        ]
    }
}

fn push_named_value(tokens: &mut Vec<TokenTreeIr>, field: &FieldIr, facade: &Vec<TokenTreeIr>)
    requires
        field.name is Some,
    ensures
        tokens_view(final(tokens)@) == tokens_view(old(tokens)@) + named_value_item(tokens_view(facade@), *field),
{
    let ghost start = tokens_view(tokens@);
    match &field.name {
        Some(name) => push_ident(tokens, name.as_str()),
        None => {},
    }
    push_punct(tokens, ':', false);
    push_construction_value(tokens, facade, &field.ty.tokens);
    assert(tokens_view(tokens@) =~= start + named_value_item(tokens_view(facade@), *field));
}

fn push_assignment_arm(tokens: &mut Vec<TokenTreeIr>, field: &FieldIr, facade: &Vec<TokenTreeIr>)
    ensures
        tokens_view(final(tokens)@) == tokens_view(old(tokens)@) + assignment_arm_view(tokens_view(facade@), *field),
{
    let ghost start = tokens_view(tokens@);
    proof {
        reveal_strlit("usize");
    }
    push_literal(tokens, join2(decimal_string(field.index).as_str(), "usize"));
    push_punct(tokens, '=', true);
    push_punct(tokens, '>', false);
    let mut body = empty_tokens();
    push_ident(&mut body, "value");
    push_punct(&mut body, '.', false);
    match &field.name {
        Some(name) => push_ident(&mut body, name.as_str()),
        None => push_literal(&mut body, decimal_string(field.index)),
    }
    push_punct(&mut body, '=', false);
    push_downcast(&mut body, facade, &field.ty.tokens);
    let mut replacement = empty_tokens();
    push_ident(&mut replacement, "replacement");
    push_group(&mut body, DelimiterIr::Parenthesis, replacement);
    push_unwrap_unreachable(&mut body, "\"validated update field type\"");
    push_punct(&mut body, ';', false);
    let ghost body_view = tokens_view(body@);
    assert(body_view =~= seq![ident_view("value"@), punct_view('.', false)] + update_target_view(*field) + seq![
        punct_view('=', false),
    ] + downcast_view(tokens_view(facade@), tokens_view(field.ty.tokens@)) + seq![
        group_view(DelimiterIr::Parenthesis, seq![ident_view("replacement"@)]),
    ] + unwrap_unreachable_view("\"validated update field type\""@) + seq![punct_view(';', false)]);
    push_group(tokens, DelimiterIr::Brace, body);
    assert(tokens_view(tokens@) =~= start + assignment_arm_view(tokens_view(facade@), *field));
}

/// Emits the struct value built from the construction values.
pub fn struct_literal(fields: &Vec<FieldIr>, facade: &Vec<TokenTreeIr>) -> (tokens: Vec<TokenTreeIr>)
    requires
        fields_uniformly_named(fields@),
    ensures
        tokens_view(tokens@) == struct_literal_view(tokens_view(facade@), fields@),
{
    let ghost facade_view = tokens_view(facade@);
    let mut tokens = empty_tokens();
    push_ident(&mut tokens, "Self");
    if fields.len() == 0 {
        return tokens;
    }
    let named = fields[0].name.is_some();
    let ghost items = if named {
        fields@.map_values(|field: FieldIr| named_value_item(facade_view, field))
    } else {
        fields@.map_values(|field: FieldIr| tuple_value_item(facade_view, field))
    };
    let mut values = empty_tokens();
    let mut index: usize = 0;
    assert(items.take(0) =~= Seq::<Seq<TokenView>>::empty());
    while index < fields.len()
        invariant
            index <= fields@.len(),
            fields_uniformly_named(fields@),
            fields@.len() > 0,
            named == fields@[0].name is Some,
            facade_view == tokens_view(facade@),
            items == if named {
                fields@.map_values(|field: FieldIr| named_value_item(facade_view, field))
            } else {
                fields@.map_values(|field: FieldIr| tuple_value_item(facade_view, field))
            },
            tokens_view(values@) == comma_separated(items.take(index as int)),
        decreases fields.len() - index,
    {
        let ghost before = tokens_view(values@);
        if index > 0 {
            push_punct(&mut values, ',', false);
        }
        assert(fields@[index as int].name is Some == named);
        if named {
            push_named_value(&mut values, &fields[index], facade);
        } else {
            push_construction_value(&mut values, facade, &fields[index].ty.tokens);
        }
        proof {
            let next = items.take(index + 1);
            assert(next.drop_last() =~= items.take(index as int));
            assert(next.last() == items[index as int]);
            if index == 0 {
                assert(tokens_view(values@) =~= next[0]);
            } else {
                assert(tokens_view(values@) =~= before + seq![punct_view(',', false)] + next.last());
            }
        }
        index += 1;
    }
    assert(items.take(index as int) =~= items);
    let delimiter = if named {
        DelimiterIr::Brace
    } else {
        DelimiterIr::Parenthesis
    };
    push_group(&mut tokens, delimiter, values);
    tokens
}

/// Emits the match arms that write each overriding value into its field.
pub fn assignment_arms(fields: &Vec<FieldIr>, facade: &Vec<TokenTreeIr>) -> (tokens: Vec<TokenTreeIr>)
    ensures
        tokens_view(tokens@) == concatenated(
            fields@.map_values(|field: FieldIr| assignment_arm_view(tokens_view(facade@), field)),
        ),
{
    let ghost facade_view = tokens_view(facade@);
    let ghost items = fields@.map_values(|field: FieldIr| assignment_arm_view(facade_view, field));
    let mut tokens = empty_tokens();
    let mut index: usize = 0;
    assert(items.take(0) =~= Seq::<Seq<TokenView>>::empty());
    while index < fields.len()
        invariant
            index <= fields@.len(),
            facade_view == tokens_view(facade@),
            items == fields@.map_values(|field: FieldIr| assignment_arm_view(facade_view, field)),
            tokens_view(tokens@) == concatenated(items.take(index as int)),
        decreases fields.len() - index,
    {
        push_assignment_arm(&mut tokens, &fields[index], facade);
        proof {
            let next = items.take(index + 1);
            assert(next.drop_last() =~= items.take(index as int));
            assert(next.last() == items[index as int]);
        }
        index += 1;
    }
    assert(items.take(index as int) =~= items);
    tokens
}

/// Emits the construction entries of all fields, separated by commas.
pub fn construction_entries(fields: &Vec<FieldIr>, facade: &Vec<TokenTreeIr>) -> (tokens: Vec<TokenTreeIr>)
    ensures
        tokens_view(tokens@) == comma_separated(
            fields@.map_values(
                |field: FieldIr|
                    construction_entry_view(
                        tokens_view(facade@),
                        construction_field_of(field.attributes@),
                        field.index,
                    ),
            ),
        ),
{
    let ghost facade_view = tokens_view(facade@);
    let ghost items = fields@.map_values(
        |field: FieldIr| construction_entry_view(facade_view, construction_field_of(field.attributes@), field.index),
    );
    let mut tokens = empty_tokens();
    let mut index: usize = 0;
    assert(items.take(0) =~= Seq::<Seq<TokenView>>::empty());
    while index < fields.len()
        invariant
            index <= fields@.len(),
            facade_view == tokens_view(facade@),
            items == fields@.map_values(
                |field: FieldIr| construction_entry_view(facade_view, construction_field_of(field.attributes@), field.index),
            ),
            tokens_view(tokens@) == comma_separated(items.take(index as int)),
        decreases fields.len() - index,
    {
        let ghost before = tokens_view(tokens@);
        if index > 0 {
            push_punct(&mut tokens, ',', false);
        }
        let entry = construction_entry(&fields[index], facade);
        append_tokens(&mut tokens, &entry);
        proof {
            let next = items.take(index + 1);
            assert(next.drop_last() =~= items.take(index as int));
            assert(next.last() == items[index as int]);
            if index == 0 {
                assert(tokens_view(tokens@) =~= next[0]);
            } else {
                assert(tokens_view(tokens@) =~= before + seq![punct_view(',', false)] + next.last());
            }
        }
        index += 1;
    }
    assert(items.take(index as int) =~= items);
    tokens
}

/// Emits the update entries of all fields, separated by commas.
pub fn update_entries(fields: &Vec<FieldIr>, facade: &Vec<TokenTreeIr>) -> (tokens: Vec<TokenTreeIr>)
    ensures
        tokens_view(tokens@) == comma_separated(
            fields@.map_values(
                |field: FieldIr|
                    update_entry_view(
                        tokens_view(facade@),
                        !has_named(field.attributes@, HelperName::Skip),
                        field.index,
                    ),
            ),
        ),
{
    let ghost facade_view = tokens_view(facade@);
    let ghost items = fields@.map_values(
        |field: FieldIr| update_entry_view(facade_view, !has_named(field.attributes@, HelperName::Skip), field.index),
    );
    let mut tokens = empty_tokens();
    let mut index: usize = 0;
    assert(items.take(0) =~= Seq::<Seq<TokenView>>::empty());
    while index < fields.len()
        invariant
            index <= fields@.len(),
            facade_view == tokens_view(facade@),
            items == fields@.map_values(
                |field: FieldIr| update_entry_view(facade_view, !has_named(field.attributes@, HelperName::Skip), field.index),
            ),
            tokens_view(tokens@) == comma_separated(items.take(index as int)),
        decreases fields.len() - index,
    {
        let ghost before = tokens_view(tokens@);
        if index > 0 {
            push_punct(&mut tokens, ',', false);
        }
        let entry = update_entry(&fields[index], facade);
        append_tokens(&mut tokens, &entry);
        proof {
            let next = items.take(index + 1);
            assert(next.drop_last() =~= items.take(index as int));
            assert(next.last() == items[index as int]);
            if index == 0 {
                assert(tokens_view(tokens@) =~= next[0]);
            } else {
                assert(tokens_view(tokens@) =~= before + seq![punct_view(',', false)] + next.last());
            }
        }
        index += 1;
    }
    assert(items.take(index as int) =~= items);
    tokens
}

/// Emits the default provider functions of all fields that have one.
pub fn field_providers(fields: &Vec<FieldIr>, facade: &Vec<TokenTreeIr>) -> (tokens: Vec<TokenTreeIr>)
    requires
        forall|i: int| 0 <= i < fields@.len() ==> default_values_well_formed(#[trigger] fields@[i].attributes@),
    ensures
        tokens_view(tokens@) == concatenated(
            fields@.map_values(|field: FieldIr| field_provider_view(tokens_view(facade@), field)),
        ),
{
    let ghost facade_view = tokens_view(facade@);
    let ghost items = fields@.map_values(|field: FieldIr| field_provider_view(facade_view, field));
    let mut tokens = empty_tokens();
    let mut index: usize = 0;
    assert(items.take(0) =~= Seq::<Seq<TokenView>>::empty());
    while index < fields.len()
        invariant
            index <= fields@.len(),
            forall|i: int| 0 <= i < fields@.len() ==> default_values_well_formed(#[trigger] fields@[i].attributes@),
            facade_view == tokens_view(facade@),
            items == fields@.map_values(|field: FieldIr| field_provider_view(facade_view, field)),
            tokens_view(tokens@) == concatenated(items.take(index as int)),
        decreases fields.len() - index,
    {
        let provider = field_provider(&fields[index], facade);
        append_tokens(&mut tokens, &provider);
        proof {
            let next = items.take(index + 1);
            assert(next.drop_last() =~= items.take(index as int));
            assert(next.last() == items[index as int]);
        }
        index += 1;
    }
    assert(items.take(index as int) =~= items);
    tokens
}

// ---------------------------------------------------------------------------
// The adapters of one struct
// ---------------------------------------------------------------------------

/// `facade::construct::kind<facade::value::Local>`.
pub open spec fn local_generic_view(facade: Seq<TokenView>, kind: Seq<char>) -> Seq<TokenView> {
    path_view(facade, seq!["construct"@, kind]) + seq![punct_view('<', false)] + path_view(
        facade,
        seq!["value"@, "Local"@],
    ) + seq![punct_view('>', false)]
}

/// `fn name(input: facade::construct::input<Local>) -> Owned { body }`.
pub open spec fn adapter_function_view(
    facade: Seq<TokenView>,
    name: Seq<char>,
    input: Seq<char>,
    body: Seq<TokenView>,
) -> Seq<TokenView> {
    seq![
        ident_view("fn"@),
        ident_view(name),
        group_view(
            DelimiterIr::Parenthesis,
            seq![ident_view("input"@), punct_view(':', false)] + local_generic_view(facade, input),
        ),
        punct_view('-', true),
        punct_view('>', false),
    ] + local_owned_view(facade) + seq![group_view(DelimiterIr::Brace, body)]
}

/// The body of the construction adapter: the struct built from the
/// validated values.
pub open spec fn construct_body_view(facade: Seq<TokenView>, fields: Seq<FieldIr>) -> Seq<TokenView> {
    seq![
        ident_view("let"@),
        ident_view("mut"@),
        ident_view("values"@),
        punct_view('=', false),
        ident_view("input"@),
        punct_view('.', false),
        ident_view("into_values"@),
        group_view(DelimiterIr::Parenthesis, Seq::empty()),
        punct_view('.', false),
        ident_view("into_vec"@),
        group_view(DelimiterIr::Parenthesis, Seq::empty()),
        punct_view('.', false),
        ident_view("into_iter"@),
        group_view(DelimiterIr::Parenthesis, Seq::empty()),
        punct_view(';', false),
    ] + angled_owned_view(facade) + colons_view() + seq![
        ident_view("new"@),
        group_view(DelimiterIr::Parenthesis, struct_literal_view(facade, fields)),
    ]
}

/// The body of the update adapter: every override written into the base
/// value.
pub open spec fn update_body_view(facade: Seq<TokenView>, fields: Seq<FieldIr>) -> Seq<TokenView> {
    update_head_view(facade) + seq![group_view(DelimiterIr::Brace, update_loop_view(facade, fields))]
        + angled_owned_view(facade) + colons_view() + seq![
        ident_view("new"@),
        group_view(DelimiterIr::Parenthesis, seq![ident_view("value"@)]),
    ]
}

/// The update adapter up to its loop: the parts of the input, the base
/// value, and `for override_value in overrides.into_vec()`.
pub open spec fn update_head_view(facade: Seq<TokenView>) -> Seq<TokenView> {
    seq![
        ident_view("let"@),
        group_view(
            DelimiterIr::Parenthesis,
            seq![ident_view("base"@), punct_view(',', false), ident_view("overrides"@)],
        ),
        punct_view('=', false),
        ident_view("input"@),
        punct_view('.', false),
        ident_view("into_parts"@),
        group_view(DelimiterIr::Parenthesis, Seq::empty()),
        punct_view(';', false),
        ident_view("let"@),
        ident_view("mut"@),
        ident_view("value"@),
        punct_view('=', false),
    ] + downcast_view(facade, seq![ident_view("Self"@)]) + seq![
        group_view(DelimiterIr::Parenthesis, seq![ident_view("base"@)]),
    ] + unwrap_unreachable_view("\"validated update base type\""@) + seq![
        punct_view(';', false),
        ident_view("for"@),
        ident_view("override_value"@),
        ident_view("in"@),
        ident_view("overrides"@),
        punct_view('.', false),
        ident_view("into_vec"@),
        group_view(DelimiterIr::Parenthesis, Seq::empty()),
    ]
}

/// The body of the update loop: each override matched to its field.
pub open spec fn update_loop_view(facade: Seq<TokenView>, fields: Seq<FieldIr>) -> Seq<TokenView> {
    seq![
        ident_view("let"@),
        group_view(
            DelimiterIr::Parenthesis,
            seq![ident_view("index"@), punct_view(',', false), ident_view("replacement"@)],
        ),
        punct_view('=', false),
        ident_view("override_value"@),
        punct_view('.', false),
        ident_view("into_parts"@),
        group_view(DelimiterIr::Parenthesis, Seq::empty()),
        punct_view(';', false),
        ident_view("match"@),
        ident_view("index"@),
        group_view(
            DelimiterIr::Brace,
            concatenated(fields.map_values(|field: FieldIr| assignment_arm_view(facade, field))) + seq![
                ident_view("_"@),
                punct_view('=', true),
                punct_view('>', false),
            ] + unreachable_view("\"validated update field index\""@) + seq![punct_view(',', false)],
        ),
    ]
}

/// `fn name() -> &'static facade::construct::kind<Local> { .. }`: the
/// descriptor, the leaked field entries, and the leaked registry value that
/// joins them with `Self::adapter`.
pub open spec fn registry_function_view(
    facade: Seq<TokenView>,
    name: Seq<char>,
    kind: Seq<char>,
    entries: Seq<TokenView>,
    adapter: Seq<char>,
) -> Seq<TokenView> {
    seq![
        ident_view("fn"@),
        ident_view(name),
        group_view(DelimiterIr::Parenthesis, Seq::empty()),
        punct_view('-', true),
        punct_view('>', false),
        punct_view('&', false),
        punct_view('\'', true),
        ident_view("static"@),
    ] + local_generic_view(facade, kind) + seq![
        group_view(
            DelimiterIr::Brace,
            seq![
                ident_view("let"@),
                ident_view("descriptor"@),
                punct_view('=', false),
                punct_view('<', false),
                ident_view("Self"@),
                ident_view("as"@),
            ] + path_view(facade, seq!["Reflect"@]) + seq![punct_view('>', false)] + colons_view() + seq![
                ident_view("type_descriptor"@),
                group_view(DelimiterIr::Parenthesis, Seq::empty()),
                punct_view(';', false),
                ident_view("let"@),
                ident_view("fields"@),
                punct_view('=', false),
            ] + std_path_view(seq!["std"@, "boxed"@, "Box"@, "leak"@]) + seq![
                group_view(
                    DelimiterIr::Parenthesis,
                    std_path_view(seq!["std"@, "vec"@]) + seq![
                        punct_view('!', false),
                        group_view(DelimiterIr::Bracket, entries),
                        punct_view('.', false),
                        ident_view("into_boxed_slice"@),
                        group_view(DelimiterIr::Parenthesis, Seq::empty()),
                    ],
                ),
                punct_view(';', false),
            ] + std_path_view(seq!["std"@, "boxed"@, "Box"@, "leak"@]) + seq![
                group_view(
                    DelimiterIr::Parenthesis,
                    std_path_view(seq!["std"@, "boxed"@, "Box"@, "new"@]) + seq![
                        group_view(
                            DelimiterIr::Parenthesis,
                            path_view(facade, seq!["construct"@, kind, "new"@]) + seq![
                                group_view(
                                    DelimiterIr::Parenthesis,
                                    seq![
                                        ident_view("descriptor"@),
                                        punct_view(',', false),
                                        ident_view("fields"@),
                                        punct_view(',', false),
                                        ident_view("Self"@),
                                    ] + colons_view() + seq![ident_view(adapter), punct_view(',', false)],
                                ),
                            ],
                        ),
                    ],
                ),
            ],
        ),
    ]
}

/// The generated local construction and update adapters of a struct: each
/// field's default provider, the construction adapter and its constructor,
/// the update adapter and its updater. Other declarations have none.
pub open spec fn struct_adapters_view(facade: Seq<TokenView>, declaration: TypeDeclarationIr) -> Seq<TokenView> {
    let fields = declaration.fields@;
    if declaration.kind != TypeDeclarationKindIr::Struct {
        Seq::empty()
    } else {
        concatenated(fields.map_values(|field: FieldIr| field_provider_view(facade, field))) + adapter_function_view(
            facade,
            "__qubit_reflect_construct_struct"@,
            "ValidatedConstructionInput"@,
            construct_body_view(facade, fields),
        ) + registry_function_view(
            facade,
            "__qubit_reflect_struct_constructor"@,
            "StructConstructor"@,
            comma_separated(
                fields.map_values(
                    |field: FieldIr|
                        construction_entry_view(facade, construction_field_of(field.attributes@), field.index),
                ),
            ),
            "__qubit_reflect_construct_struct"@,
        ) + adapter_function_view(
            facade,
            "__qubit_reflect_update_struct"@,
            "ValidatedUpdateInput"@,
            update_body_view(facade, fields),
        ) + registry_function_view(
            facade,
            "__qubit_reflect_struct_updater"@,
            "StructUpdater"@,
            comma_separated(
                fields.map_values(
                    |field: FieldIr|
                        update_entry_view(facade, !has_named(field.attributes@, HelperName::Skip), field.index),
                ),
            ),
            "__qubit_reflect_update_struct"@,
        )
    }
}

fn push_local_generic(tokens: &mut Vec<TokenTreeIr>, facade: &Vec<TokenTreeIr>, kind: &str)
    ensures
        tokens_view(final(tokens)@) == tokens_view(old(tokens)@) + local_generic_view(tokens_view(facade@), kind@),
{
    let ghost start = tokens_view(tokens@);
    push_path(tokens, facade, "construct", kind);
    push_punct(tokens, '<', false);
    push_path(tokens, facade, "value", "Local");
    push_punct(tokens, '>', false);
    assert(tokens_view(tokens@) =~= start + local_generic_view(tokens_view(facade@), kind@));
}

pub(crate) fn push_empty_call(tokens: &mut Vec<TokenTreeIr>, name: &str)
    ensures
        tokens_view(final(tokens)@) == tokens_view(old(tokens)@) + seq![
            punct_view('.', false),
            ident_view(name@),
            group_view(DelimiterIr::Parenthesis, Seq::empty()),
        ],
{
    let ghost start = tokens_view(tokens@);
    push_punct(tokens, '.', false);
    push_ident(tokens, name);
    push_group(tokens, DelimiterIr::Parenthesis, empty_tokens());
    assert(tokens_view(tokens@) =~= start + seq![
        punct_view('.', false),
        ident_view(name@),
        group_view(DelimiterIr::Parenthesis, Seq::empty()),
    ]);
}

fn push_adapter_function(
    tokens: &mut Vec<TokenTreeIr>,
    facade: &Vec<TokenTreeIr>,
    name: &str,
    input: &str,
    body: Vec<TokenTreeIr>,
)
    ensures
        tokens_view(final(tokens)@) == tokens_view(old(tokens)@) + adapter_function_view(
            tokens_view(facade@),
            name@,
            input@,
            tokens_view(body@),
        ),
{
    let ghost start = tokens_view(tokens@);
    let ghost body_view = tokens_view(body@);
    push_ident(tokens, "fn");
    push_ident(tokens, name);
    let mut parameters = empty_tokens();
    push_ident(&mut parameters, "input");
    push_punct(&mut parameters, ':', false);
    push_local_generic(&mut parameters, facade, input);
    let ghost parameters_view = tokens_view(parameters@);
    assert(parameters_view =~= seq![ident_view("input"@), punct_view(':', false)] + local_generic_view(
        tokens_view(facade@),
        input@,
    ));
    push_group(tokens, DelimiterIr::Parenthesis, parameters);
    push_punct(tokens, '-', true);
    push_punct(tokens, '>', false);
    push_local_owned(tokens, facade);
    push_group(tokens, DelimiterIr::Brace, body);
    assert(tokens_view(tokens@) =~= start + adapter_function_view(tokens_view(facade@), name@, input@, body_view));
}

fn construct_body(fields: &Vec<FieldIr>, facade: &Vec<TokenTreeIr>) -> (tokens: Vec<TokenTreeIr>)
    requires
        fields_uniformly_named(fields@),
    ensures
        tokens_view(tokens@) == construct_body_view(tokens_view(facade@), fields@),
{
    let mut tokens = empty_tokens();
    push_ident(&mut tokens, "let");
    push_ident(&mut tokens, "mut");
    push_ident(&mut tokens, "values");
    push_punct(&mut tokens, '=', false);
    push_ident(&mut tokens, "input");
    push_empty_call(&mut tokens, "into_values");
    push_empty_call(&mut tokens, "into_vec");
    push_empty_call(&mut tokens, "into_iter");
    push_punct(&mut tokens, ';', false);
    push_angled_owned(&mut tokens, facade);
    push_colons(&mut tokens);
    push_ident(&mut tokens, "new");
    let literal = struct_literal(fields, facade);
    push_group(&mut tokens, DelimiterIr::Parenthesis, literal);
    assert(tokens_view(tokens@) =~= construct_body_view(tokens_view(facade@), fields@));
    tokens
}

fn update_head(facade: &Vec<TokenTreeIr>) -> (tokens: Vec<TokenTreeIr>)
    ensures
        tokens_view(tokens@) == update_head_view(tokens_view(facade@)),
{
    let ghost facade_view = tokens_view(facade@);
    let mut tokens = empty_tokens();
    push_ident(&mut tokens, "let");
    let mut pair = empty_tokens();
    push_ident(&mut pair, "base");
    push_punct(&mut pair, ',', false);
    push_ident(&mut pair, "overrides");
    let ghost pair_view = tokens_view(pair@);
    assert(pair_view =~= seq![ident_view("base"@), punct_view(',', false), ident_view("overrides"@)]);
    push_group(&mut tokens, DelimiterIr::Parenthesis, pair);
    push_punct(&mut tokens, '=', false);
    push_ident(&mut tokens, "input");
    push_empty_call(&mut tokens, "into_parts");
    push_punct(&mut tokens, ';', false);
    push_ident(&mut tokens, "let");
    push_ident(&mut tokens, "mut");
    push_ident(&mut tokens, "value");
    push_punct(&mut tokens, '=', false);
    let this = crate::codegen::single(ident_token("Self"));
    push_downcast(&mut tokens, facade, &this);
    let mut base = empty_tokens();
    push_ident(&mut base, "base");
    let ghost base_view = tokens_view(base@);
    assert(base_view =~= seq![ident_view("base"@)]);
    push_group(&mut tokens, DelimiterIr::Parenthesis, base);
    push_unwrap_unreachable(&mut tokens, "\"validated update base type\"");
    push_punct(&mut tokens, ';', false);
    push_ident(&mut tokens, "for");
    push_ident(&mut tokens, "override_value");
    push_ident(&mut tokens, "in");
    push_ident(&mut tokens, "overrides");
    push_empty_call(&mut tokens, "into_vec");
    proof {
        lemma_tokens_view_index(this@);
        assert(tokens_view(this@) =~= seq![ident_view("Self"@)]);
    }
    assert(tokens_view(tokens@) =~= update_head_view(facade_view));
    tokens
}

fn update_loop(fields: &Vec<FieldIr>, facade: &Vec<TokenTreeIr>) -> (tokens: Vec<TokenTreeIr>)
    ensures
        tokens_view(tokens@) == update_loop_view(tokens_view(facade@), fields@),
{
    let ghost facade_view = tokens_view(facade@);
    let mut arms = assignment_arms(fields, facade);
    push_ident(&mut arms, "_");
    push_punct(&mut arms, '=', true);
    push_punct(&mut arms, '>', false);
    push_unreachable(&mut arms, "\"validated update field index\"");
    push_punct(&mut arms, ',', false);
    let ghost arms_view = tokens_view(arms@);
    assert(arms_view =~= concatenated(fields@.map_values(|field: FieldIr| assignment_arm_view(facade_view, field)))
        + seq![ident_view("_"@), punct_view('=', true), punct_view('>', false)] + unreachable_view(
        "\"validated update field index\""@,
    ) + seq![punct_view(',', false)]);
    let mut loop_body = empty_tokens();
    push_ident(&mut loop_body, "let");
    let mut parts = empty_tokens();
    push_ident(&mut parts, "index");
    push_punct(&mut parts, ',', false);
    push_ident(&mut parts, "replacement");
    let ghost parts_view = tokens_view(parts@);
    assert(parts_view =~= seq![ident_view("index"@), punct_view(',', false), ident_view("replacement"@)]);
    push_group(&mut loop_body, DelimiterIr::Parenthesis, parts);
    push_punct(&mut loop_body, '=', false);
    push_ident(&mut loop_body, "override_value");
    push_empty_call(&mut loop_body, "into_parts");
    push_punct(&mut loop_body, ';', false);
    push_ident(&mut loop_body, "match");
    push_ident(&mut loop_body, "index");
    push_group(&mut loop_body, DelimiterIr::Brace, arms);
    assert(tokens_view(loop_body@) =~= update_loop_view(facade_view, fields@));
    loop_body
}

fn update_body(fields: &Vec<FieldIr>, facade: &Vec<TokenTreeIr>) -> (tokens: Vec<TokenTreeIr>)
    ensures
        tokens_view(tokens@) == update_body_view(tokens_view(facade@), fields@),
{
    let ghost facade_view = tokens_view(facade@);
    let mut tokens = update_head(facade);
    push_group(&mut tokens, DelimiterIr::Brace, update_loop(fields, facade));
    push_angled_owned(&mut tokens, facade);
    push_colons(&mut tokens);
    push_ident(&mut tokens, "new");
    let mut value = empty_tokens();
    push_ident(&mut value, "value");
    let ghost value_view = tokens_view(value@);
    assert(value_view =~= seq![ident_view("value"@)]);
    push_group(&mut tokens, DelimiterIr::Parenthesis, value);
    assert(tokens_view(tokens@) =~= update_body_view(facade_view, fields@));
    tokens
}

fn push_registry_function(
    tokens: &mut Vec<TokenTreeIr>,
    facade: &Vec<TokenTreeIr>,
    name: &str,
    kind: &str,
    entries: Vec<TokenTreeIr>,
    adapter: &str,
)
    ensures
        tokens_view(final(tokens)@) == tokens_view(old(tokens)@) + registry_function_view(
            tokens_view(facade@),
            name@,
            kind@,
            tokens_view(entries@),
            adapter@,
        ),
{
    let ghost start = tokens_view(tokens@);
    let ghost facade_view = tokens_view(facade@);
    let ghost entries_view = tokens_view(entries@);
    push_ident(tokens, "fn");
    push_ident(tokens, name);
    push_group(tokens, DelimiterIr::Parenthesis, empty_tokens());
    push_punct(tokens, '-', true);
    push_punct(tokens, '>', false);
    push_punct(tokens, '&', false);
    push_punct(tokens, '\'', true);
    push_ident(tokens, "static");
    push_local_generic(tokens, facade, kind);
    let ghost header = tokens_view(tokens@);

    let mut body = empty_tokens();
    push_ident(&mut body, "let");
    push_ident(&mut body, "descriptor");
    push_punct(&mut body, '=', false);
    push_punct(&mut body, '<', false);
    push_ident(&mut body, "Self");
    push_ident(&mut body, "as");
    let reflect: [&str; 1] = ["Reflect"];
    assert(reflect@.map_values(|name: &str| name@) =~= seq!["Reflect"@]);
    let reflect_path = path_tokens(facade, reflect.as_slice());
    append_tokens(&mut body, &reflect_path);
    push_punct(&mut body, '>', false);
    push_colons(&mut body);
    push_ident(&mut body, "type_descriptor");
    push_group(&mut body, DelimiterIr::Parenthesis, empty_tokens());
    push_punct(&mut body, ';', false);
    push_ident(&mut body, "let");
    push_ident(&mut body, "fields");
    push_punct(&mut body, '=', false);
    let leak: [&str; 4] = ["std", "boxed", "Box", "leak"];
    assert(leak@.map_values(|name: &str| name@) =~= seq!["std"@, "boxed"@, "Box"@, "leak"@]);
    push_std_path(&mut body, leak.as_slice());
    let mut leaked = empty_tokens();
    let vec_path: [&str; 2] = ["std", "vec"];
    assert(vec_path@.map_values(|name: &str| name@) =~= seq!["std"@, "vec"@]);
    push_std_path(&mut leaked, vec_path.as_slice());
    push_punct(&mut leaked, '!', false);
    push_group(&mut leaked, DelimiterIr::Bracket, entries);
    push_empty_call(&mut leaked, "into_boxed_slice");
    let ghost leaked_view = tokens_view(leaked@);
    push_group(&mut body, DelimiterIr::Parenthesis, leaked);
    push_punct(&mut body, ';', false);
    push_std_path(&mut body, leak.as_slice());
    let mut arguments = empty_tokens();
    push_ident(&mut arguments, "descriptor");
    push_punct(&mut arguments, ',', false);
    push_ident(&mut arguments, "fields");
    push_punct(&mut arguments, ',', false);
    push_ident(&mut arguments, "Self");
    push_colons(&mut arguments);
    push_ident(&mut arguments, adapter);
    push_punct(&mut arguments, ',', false);
    let ghost arguments_view = tokens_view(arguments@);
    let names: [&str; 3] = ["construct", kind, "new"];
    assert(names@.map_values(|name: &str| name@) =~= seq!["construct"@, kind@, "new"@]);
    let mut creation = path_tokens(facade, names.as_slice());
    push_group(&mut creation, DelimiterIr::Parenthesis, arguments);
    let ghost creation_view = tokens_view(creation@);
    let mut boxed = empty_tokens();
    let new_path: [&str; 4] = ["std", "boxed", "Box", "new"];
    assert(new_path@.map_values(|name: &str| name@) =~= seq!["std"@, "boxed"@, "Box"@, "new"@]);
    push_std_path(&mut boxed, new_path.as_slice());
    push_group(&mut boxed, DelimiterIr::Parenthesis, creation);
    let ghost boxed_view = tokens_view(boxed@);
    push_group(&mut body, DelimiterIr::Parenthesis, boxed);
    let ghost body_view = tokens_view(body@);
    proof {
        assert(header =~= start + seq![
            ident_view("fn"@),
            ident_view(name@),
            group_view(DelimiterIr::Parenthesis, Seq::empty()),
            punct_view('-', true),
            punct_view('>', false),
            punct_view('&', false),
            punct_view('\'', true),
            ident_view("static"@),
        ] + local_generic_view(facade_view, kind@));
        assert(leaked_view =~= std_path_view(seq!["std"@, "vec"@]) + seq![
            punct_view('!', false),
            group_view(DelimiterIr::Bracket, entries_view),
            punct_view('.', false),
            ident_view("into_boxed_slice"@),
            group_view(DelimiterIr::Parenthesis, Seq::empty()),
        ]);
        assert(arguments_view =~= seq![
            ident_view("descriptor"@),
            punct_view(',', false),
            ident_view("fields"@),
            punct_view(',', false),
            ident_view("Self"@),
        ] + colons_view() + seq![ident_view(adapter@), punct_view(',', false)]);
        assert(creation_view =~= path_view(facade_view, seq!["construct"@, kind@, "new"@]) + seq![
            group_view(DelimiterIr::Parenthesis, arguments_view),
        ]);
        assert(boxed_view =~= std_path_view(seq!["std"@, "boxed"@, "Box"@, "new"@]) + seq![
            group_view(DelimiterIr::Parenthesis, creation_view),
        ]);
        assert(body_view =~= seq![
            ident_view("let"@),
            ident_view("descriptor"@),
            punct_view('=', false),
            punct_view('<', false),
            ident_view("Self"@),
            ident_view("as"@),
        ] + path_view(facade_view, seq!["Reflect"@]) + seq![punct_view('>', false)] + colons_view() + seq![
            ident_view("type_descriptor"@),
            group_view(DelimiterIr::Parenthesis, Seq::empty()),
            punct_view(';', false),
            ident_view("let"@),
            ident_view("fields"@),
            punct_view('=', false),
        ] + std_path_view(seq!["std"@, "boxed"@, "Box"@, "leak"@]) + seq![
            group_view(DelimiterIr::Parenthesis, leaked_view),
            punct_view(';', false),
        ] + std_path_view(seq!["std"@, "boxed"@, "Box"@, "leak"@]) + seq![
            group_view(DelimiterIr::Parenthesis, boxed_view),
        ]);
    }
    push_group(tokens, DelimiterIr::Brace, body);
    assert(tokens_view(tokens@) =~= start + registry_function_view(facade_view, name@, kind@, entries_view, adapter@));
}

/// Emits the generated local construction and update adapters of a struct,
/// or nothing for an enum or a union.
pub fn struct_adapters(declaration: &TypeDeclarationIr, facade: &Vec<TokenTreeIr>) -> (tokens: Vec<TokenTreeIr>)
    requires
        fields_uniformly_named(declaration.fields@),
        forall|i: int|
            0 <= i < declaration.fields@.len() ==> default_values_well_formed(
                #[trigger] declaration.fields@[i].attributes@,
            ),
    ensures
        tokens_view(tokens@) == struct_adapters_view(tokens_view(facade@), *declaration),
{
    if declaration.kind != TypeDeclarationKindIr::Struct {
        return empty_tokens();
    }
    let fields = &declaration.fields;
    let mut tokens = field_providers(fields, facade);
    push_adapter_function(
        &mut tokens,
        facade,
        "__qubit_reflect_construct_struct",
        "ValidatedConstructionInput",
        construct_body(fields, facade),
    );
    push_registry_function(
        &mut tokens,
        facade,
        "__qubit_reflect_struct_constructor",
        "StructConstructor",
        construction_entries(fields, facade),
        "__qubit_reflect_construct_struct",
    );
    push_adapter_function(
        &mut tokens,
        facade,
        "__qubit_reflect_update_struct",
        "ValidatedUpdateInput",
        update_body(fields, facade),
    );
    push_registry_function(
        &mut tokens,
        facade,
        "__qubit_reflect_struct_updater",
        "StructUpdater",
        update_entries(fields, facade),
        "__qubit_reflect_update_struct",
    );
    tokens
}

/// `facade::construct::StructConstructionDescriptor::new(Self::constructor, Some(Self::updater),)`.
pub open spec fn struct_descriptor_view(facade: Seq<TokenView>) -> Seq<TokenView> {
    path_view(facade, seq!["construct"@, "StructConstructionDescriptor"@, "new"@]) + seq![
        group_view(
            DelimiterIr::Parenthesis,
            seq![ident_view("Self"@)] + colons_view() + seq![
                ident_view("__qubit_reflect_struct_constructor"@),
                punct_view(',', false),
                ident_view("Some"@),
                group_view(
                    DelimiterIr::Parenthesis,
                    seq![ident_view("Self"@)] + colons_view() + seq![ident_view("__qubit_reflect_struct_updater"@)],
                ),
                punct_view(',', false),
            ],
        ),
    ]
}

/// Emits the descriptor expression that links a struct to its generated
/// constructor and updater.
pub fn struct_descriptor(facade: &Vec<TokenTreeIr>) -> (tokens: Vec<TokenTreeIr>)
    ensures
        tokens_view(tokens@) == struct_descriptor_view(tokens_view(facade@)),
{
    let names: [&str; 3] = ["construct", "StructConstructionDescriptor", "new"];
    assert(names@.map_values(|name: &str| name@) =~= seq!["construct"@, "StructConstructionDescriptor"@, "new"@]);
    let mut tokens = path_tokens(facade, names.as_slice());
    let ghost path = tokens_view(tokens@);
    let mut updater = empty_tokens();
    push_ident(&mut updater, "Self");
    push_colons(&mut updater);
    push_ident(&mut updater, "__qubit_reflect_struct_updater");
    let ghost updater_view = tokens_view(updater@);
    assert(updater_view =~= seq![ident_view("Self"@)] + colons_view() + seq![
        ident_view("__qubit_reflect_struct_updater"@),
    ]);
    let mut arguments = empty_tokens();
    push_ident(&mut arguments, "Self");
    push_colons(&mut arguments);
    push_ident(&mut arguments, "__qubit_reflect_struct_constructor");
    push_punct(&mut arguments, ',', false);
    push_ident(&mut arguments, "Some");
    push_group(&mut arguments, DelimiterIr::Parenthesis, updater);
    push_punct(&mut arguments, ',', false);
    let ghost arguments_view = tokens_view(arguments@);
    assert(arguments_view =~= seq![ident_view("Self"@)] + colons_view() + seq![
        ident_view("__qubit_reflect_struct_constructor"@),
        punct_view(',', false),
        ident_view("Some"@),
        group_view(DelimiterIr::Parenthesis, updater_view),
        punct_view(',', false),
    ]);
    push_group(&mut tokens, DelimiterIr::Parenthesis, arguments);
    assert(tokens_view(tokens@) =~= struct_descriptor_view(tokens_view(facade@)));
    tokens
}

} // verus!

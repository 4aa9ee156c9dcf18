//! Token emission for generated descriptor code: the facade path that every
//! generated item starts from, and emitters of runtime values whose shape is
//! decided by the analysis in other modules.

use vstd::prelude::*;
use vstd::string::StringExecFns;

use crate::context::ExpansionContext;
use crate::context::FacadeIr;
use crate::invocation::AvailabilityPlan;
use crate::invocation::InvocationPlan;
use crate::invocation::UnavailableReasonPlan;
use crate::ir::DelimiterIr;
use crate::ir::FieldIr;
use crate::member_plan::construction_field;
use crate::member_plan::construction_field_of;
use crate::member_plan::field_update_allowed;
use crate::member_plan::ConstructionFieldIr;
use crate::text::decimal;
use crate::text::decimal_string;
use crate::text::join2;
use crate::validate::has_named;
use crate::helper::HelperName;
use crate::ir::GenericKindIr;
use crate::ir::GenericParamIr;
use crate::ir::HelperAttributeIr;
use crate::ir::HelperValueIr;
use crate::ir::ParameterIr;
use crate::ir::TokenTreeIr;
use crate::ir::TypeKindIr;
use crate::ir::CALL_SITE_SPAN;
use crate::substitution::lemma_tokens_view_index;
use crate::substitution::token_view;
use crate::substitution::tokens_view;
use crate::substitution::TokenView;

verus! {

// ---------------------------------------------------------------------------
// Token building
// ---------------------------------------------------------------------------

/// An identifier at the call site.
pub open spec fn ident_view(name: Seq<char>) -> TokenView {
    TokenView::Ident(name, CALL_SITE_SPAN)
}

/// A punctuation character at the call site.
pub open spec fn punct_view(ch: char, joint: bool) -> TokenView {
    TokenView::Punct(ch, joint, CALL_SITE_SPAN)
}

/// `::`.
pub open spec fn colons_view() -> Seq<TokenView> {
    seq![punct_view(':', true), punct_view(':', false)]
}

/// `prefix :: names[0] :: names[1] ...`.
pub open spec fn path_view(prefix: Seq<TokenView>, names: Seq<Seq<char>>) -> Seq<TokenView>
    decreases names.len(),
{
    if names.len() == 0 {
        prefix
    } else {
        path_view(prefix + colons_view() + seq![ident_view(names[0])], names.drop_first())
    }
}

pub(crate) fn ident_token(name: &str) -> (token: TokenTreeIr)
    ensures
        token_view(token) == ident_view(name@),
{
    TokenTreeIr::Ident { name: String::from_str(name), span: CALL_SITE_SPAN }
}

pub(crate) fn punct_token(ch: char, joint: bool) -> (token: TokenTreeIr)
    ensures
        token_view(token) == punct_view(ch, joint),
{
    TokenTreeIr::Punct { ch, joint, span: CALL_SITE_SPAN }
}

pub(crate) proof fn lemma_tokens_view_push(tokens: Seq<TokenTreeIr>, token: TokenTreeIr)
    ensures
        tokens_view(tokens.push(token)) == tokens_view(tokens).push(token_view(token)),
{
    lemma_tokens_view_index(tokens);
    lemma_tokens_view_index(tokens.push(token));
    assert(tokens_view(tokens.push(token)) =~= tokens_view(tokens).push(token_view(token)));
}

/// Appends `:: name` to `tokens`.
pub(crate) fn push_segment(tokens: &mut Vec<TokenTreeIr>, name: &str)
    ensures
        tokens_view(final(tokens)@) == tokens_view(old(tokens)@) + colons_view() + seq![ident_view(name@)],
{
    let ghost start = tokens@;
    tokens.push(punct_token(':', true));
    proof {
        lemma_tokens_view_push(start, tokens@.last());
    }
    let ghost middle = tokens@;
    tokens.push(punct_token(':', false));
    proof {
        lemma_tokens_view_push(middle, tokens@.last());
    }
    let ghost late = tokens@;
    tokens.push(ident_token(name));
    proof {
        lemma_tokens_view_push(late, tokens@.last());
        assert(tokens_view(tokens@) =~= tokens_view(start) + colons_view() + seq![ident_view(name@)]);
    }
}

/// Appends `:: names[0] :: names[1] ...` to `tokens`.
pub(crate) fn push_segments(tokens: &mut Vec<TokenTreeIr>, names: &[&str])
    ensures
        tokens_view(final(tokens)@) == path_view(tokens_view(old(tokens)@), names@.map_values(|name: &str| name@)),
{
    let ghost whole = names@.map_values(|name: &str| name@);
    let ghost start = tokens_view(tokens@);
    let mut index: usize = 0;
    assert(whole.skip(0) =~= whole);
    while index < names.len()
        invariant
            index <= names@.len(),
            whole == names@.map_values(|name: &str| name@),
            path_view(tokens_view(tokens@), whole.skip(index as int)) == path_view(start, whole),
        decreases names.len() - index,
    {
        let ghost before = tokens_view(tokens@);
        push_segment(tokens, names[index]);
        proof {
            let rest = whole.skip(index as int);
            assert(rest[0] == names@[index as int]@);
            assert(rest.drop_first() =~= whole.skip(index + 1));
        }
        index += 1;
    }
    assert(whole.skip(index as int) =~= Seq::<Seq<char>>::empty());
}

/// Returns a copy of a token sequence, groups included.
pub fn copy_tokens(tokens: &Vec<TokenTreeIr>) -> (copy: Vec<TokenTreeIr>)
    ensures
        tokens_view(copy@) == tokens_view(tokens@),
    decreases tokens,
{
    let mut copy: Vec<TokenTreeIr> = Vec::new();
    let mut index: usize = 0;
    proof {
        lemma_tokens_view_index(tokens@);
    }
    while index < tokens.len()
        invariant
            index <= tokens@.len(),
            tokens_view(tokens@).len() == tokens@.len(),
            forall|i: int| 0 <= i < tokens@.len() ==> #[trigger] tokens_view(tokens@)[i] == token_view(tokens@[i]),
            tokens_view(copy@) == tokens_view(tokens@).take(index as int),
        decreases tokens.len() - index,
    {
        let token = match &tokens[index] {
            TokenTreeIr::Ident { name, span } => TokenTreeIr::Ident { name: name.clone(), span: *span },
            TokenTreeIr::Punct { ch, joint, span } => TokenTreeIr::Punct { ch: *ch, joint: *joint, span: *span },
            TokenTreeIr::Literal { text, span } => TokenTreeIr::Literal { text: text.clone(), span: *span },
            TokenTreeIr::Group { delimiter, tokens: inner, span } => TokenTreeIr::Group {
                delimiter: *delimiter,
                tokens: copy_tokens(inner),
                span: *span,
            },
        };
        let ghost before = copy@;
        copy.push(token);
        proof {
            lemma_tokens_view_push(before, token);
            assert(tokens_view(tokens@).take(index + 1) =~= tokens_view(tokens@).take(index as int).push(
                tokens_view(tokens@)[index as int],
            ));
        }
        index += 1;
    }
    assert(tokens_view(tokens@).take(index as int) =~= tokens_view(tokens@));
    copy
}

// ---------------------------------------------------------------------------
// The facade path
// ---------------------------------------------------------------------------

/// The tokens of the runtime facade path: the path of the `crate = path`
/// helper it was taken from, `crate`, or `::name`.
pub open spec fn facade_view(facade: FacadeIr, attributes: Seq<HelperAttributeIr>) -> Seq<TokenView> {
    match facade {
        FacadeIr::Explicit(index) => if index < attributes.len() {
            match attributes[index as int].value {
                HelperValueIr::RuntimeCrate(path) => tokens_view(path.tokens@),
                _ => Seq::empty(),
            }
        } else {
            Seq::empty()
        },
        FacadeIr::CrateItself => seq![ident_view("crate"@)],
        FacadeIr::Absolute(name) => colons_view() + seq![ident_view(name@)],
    }
}

/// Returns the tokens of the runtime facade path that generated code names.
pub fn facade_tokens(facade: &FacadeIr, attributes: &Vec<HelperAttributeIr>) -> (tokens: Vec<TokenTreeIr>)
    ensures
        tokens_view(tokens@) == facade_view(*facade, attributes@),
{
    proof {
        lemma_tokens_view_index(Seq::<TokenTreeIr>::empty());
    }
    match facade {
        FacadeIr::Explicit(index) => {
            if *index < attributes.len() {
                match &attributes[*index].value {
                    HelperValueIr::RuntimeCrate(path) => copy_tokens(&path.tokens),
                    _ => Vec::new(),
                }
            } else {
                Vec::new()
            }
        },
        FacadeIr::CrateItself => {
            let mut tokens: Vec<TokenTreeIr> = Vec::new();
            let token = ident_token("crate");
            tokens.push(token);
            proof {
                lemma_tokens_view_push(Seq::empty(), token);
                assert(Seq::<TokenTreeIr>::empty().push(token) =~= tokens@);
            }
            tokens
        },
        FacadeIr::Absolute(name) => {
            let mut tokens: Vec<TokenTreeIr> = Vec::new();
            push_segment(&mut tokens, name.as_str());
            assert(Seq::<TokenView>::empty() + colons_view() =~= colons_view());
            tokens
        },
    }
}

// ---------------------------------------------------------------------------
// Unavailable reasons
// ---------------------------------------------------------------------------

/// The runtime name of an unavailable reason.
pub open spec fn reason_name(reason: UnavailableReasonPlan) -> Seq<char> {
    match reason {
        UnavailableReasonPlan::UnsupportedReceiver => "UnsupportedReceiver"@,
        UnavailableReasonPlan::UnspecializedGeneric => "UnspecializedGeneric"@,
        UnavailableReasonPlan::UnsafeMethod => "UnsafeMethod"@,
        UnavailableReasonPlan::UnsupportedAbi => "UnsupportedAbi"@,
        UnavailableReasonPlan::Variadic => "Variadic"@,
        UnavailableReasonPlan::UnsupportedBorrowedReturn => "UnsupportedBorrowedReturn"@,
        UnavailableReasonPlan::OpaqueReturn => "OpaqueReturn"@,
        UnavailableReasonPlan::UnsupportedUnsizedValue => "UnsupportedUnsizedValue"@,
        UnavailableReasonPlan::UnprovenDefaultConstraint => "UnprovenDefaultConstraint"@,
        UnavailableReasonPlan::UnprovenAssociatedType => "UnprovenAssociatedType"@,
        UnavailableReasonPlan::PinnedModeConflict => "PinnedModeConflict"@,
        UnavailableReasonPlan::DisabledByPolicy => "DisabledByPolicy"@,
    }
}

fn reason_name_of(reason: UnavailableReasonPlan) -> (name: &'static str)
    ensures
        name@ == reason_name(reason),
{
    match reason {
        UnavailableReasonPlan::UnsupportedReceiver => "UnsupportedReceiver",
        UnavailableReasonPlan::UnspecializedGeneric => "UnspecializedGeneric",
        UnavailableReasonPlan::UnsafeMethod => "UnsafeMethod",
        UnavailableReasonPlan::UnsupportedAbi => "UnsupportedAbi",
        UnavailableReasonPlan::Variadic => "Variadic",
        UnavailableReasonPlan::UnsupportedBorrowedReturn => "UnsupportedBorrowedReturn",
        UnavailableReasonPlan::OpaqueReturn => "OpaqueReturn",
        UnavailableReasonPlan::UnsupportedUnsizedValue => "UnsupportedUnsizedValue",
        UnavailableReasonPlan::UnprovenDefaultConstraint => "UnprovenDefaultConstraint",
        UnavailableReasonPlan::UnprovenAssociatedType => "UnprovenAssociatedType",
        UnavailableReasonPlan::PinnedModeConflict => "PinnedModeConflict",
        UnavailableReasonPlan::DisabledByPolicy => "DisabledByPolicy",
    }
}

/// `facade::__private::codegen_v2::descriptor::InvocationUnavailableReason::Name`.
pub open spec fn reason_path_view(facade: Seq<TokenView>, reason: UnavailableReasonPlan) -> Seq<TokenView> {
    path_view(
        facade,
        seq![
            "__private"@,
            "codegen_v2"@,
            "descriptor"@,
            "InvocationUnavailableReason"@,
            reason_name(reason),
        ],
    )
}

/// The reason paths, separated by commas.
pub open spec fn reason_list_view(facade: Seq<TokenView>, reasons: Seq<UnavailableReasonPlan>) -> Seq<TokenView>
    decreases reasons.len(),
{
    if reasons.len() == 0 {
        Seq::empty()
    } else if reasons.len() == 1 {
        reason_path_view(facade, reasons[0])
    } else {
        reason_path_view(facade, reasons[0]) + seq![punct_view(',', false)] + reason_list_view(
            facade,
            reasons.drop_first(),
        )
    }
}

/// The runtime slice of unavailable reasons for one adapter plan: `&[]` for
/// an executable plan, else `&[reason, ...]` in the plan's order.
pub open spec fn unavailable_reasons_view(facade: Seq<TokenView>, availability: AvailabilityPlan) -> Seq<
    TokenView,
> {
    let listed = match availability {
        AvailabilityPlan::Executable => Seq::empty(),
        AvailabilityPlan::DescribedOnly(reasons) => reason_list_view(facade, reasons@),
    };
    seq![punct_view('&', false), TokenView::Group(DelimiterIr::Bracket, listed, CALL_SITE_SPAN)]
}

fn push_reason_path(tokens: &mut Vec<TokenTreeIr>, facade: &Vec<TokenTreeIr>, reason: UnavailableReasonPlan)
    ensures
        tokens_view(final(tokens)@) == tokens_view(old(tokens)@) + reason_path_view(tokens_view(facade@), reason),
{
    let ghost start = tokens_view(tokens@);
    let mut path = copy_tokens(facade);
    let names: [&str; 5] = ["__private", "codegen_v2", "descriptor", "InvocationUnavailableReason", reason_name_of(
        reason,
    )];
    let ghost listed = names@.map_values(|name: &str| name@);
    assert(listed =~= seq![
        "__private"@,
        "codegen_v2"@,
        "descriptor"@,
        "InvocationUnavailableReason"@,
        reason_name(reason),
    ]);
    push_segments(&mut path, names.as_slice());
    append_tokens(tokens, &path);
}

/// Appends copies of `more` to `tokens`.
pub(crate) fn append_tokens(tokens: &mut Vec<TokenTreeIr>, more: &Vec<TokenTreeIr>)
    ensures
        tokens_view(final(tokens)@) == tokens_view(old(tokens)@) + tokens_view(more@),
{
    let ghost start = tokens_view(tokens@);
    let mut index: usize = 0;
    proof {
        lemma_tokens_view_index(more@);
        assert(tokens_view(more@).take(0) =~= Seq::<TokenView>::empty());
        assert(start + Seq::<TokenView>::empty() =~= start);
    }
    while index < more.len()
        invariant
            index <= more@.len(),
            tokens_view(more@).len() == more@.len(),
            forall|i: int| 0 <= i < more@.len() ==> #[trigger] tokens_view(more@)[i] == token_view(more@[i]),
            tokens_view(tokens@) == start + tokens_view(more@).take(index as int),
        decreases more.len() - index,
    {
        let token = copy_one(&more[index]);
        let ghost before = tokens@;
        tokens.push(token);
        proof {
            lemma_tokens_view_push(before, token);
            assert(tokens_view(more@).take(index + 1) =~= tokens_view(more@).take(index as int).push(
                tokens_view(more@)[index as int],
            ));
            assert(start + tokens_view(more@).take(index + 1) =~= (start + tokens_view(more@).take(index as int)).push(
                tokens_view(more@)[index as int],
            ));
        }
        index += 1;
    }
    assert(tokens_view(more@).take(index as int) =~= tokens_view(more@));
}

fn copy_one(token: &TokenTreeIr) -> (copy: TokenTreeIr)
    ensures
        token_view(copy) == token_view(*token),
{
    match token {
        TokenTreeIr::Ident { name, span } => TokenTreeIr::Ident { name: name.clone(), span: *span },
        TokenTreeIr::Punct { ch, joint, span } => TokenTreeIr::Punct { ch: *ch, joint: *joint, span: *span },
        TokenTreeIr::Literal { text, span } => TokenTreeIr::Literal { text: text.clone(), span: *span },
        TokenTreeIr::Group { delimiter, tokens, span } => TokenTreeIr::Group {
            delimiter: *delimiter,
            tokens: copy_tokens(tokens),
            span: *span,
        },
    }
}

/// Emits the runtime slice of unavailable reasons for one adapter plan.
pub fn emit_unavailable_reasons(
    plan: &InvocationPlan,
    context: &ExpansionContext,
    attributes: &Vec<HelperAttributeIr>,
) -> (tokens: Vec<TokenTreeIr>)
    ensures
        tokens_view(tokens@) == unavailable_reasons_view(facade_view(context.facade, attributes@), plan.availability),
{
    let facade = facade_tokens(context.facade(), attributes);
    let ghost facade_seq = tokens_view(facade@);
    let mut listed: Vec<TokenTreeIr> = Vec::new();
    proof {
        lemma_tokens_view_index(listed@);
    }
    match &plan.availability {
        AvailabilityPlan::Executable => {},
        AvailabilityPlan::DescribedOnly(reasons) => {
            let mut index: usize = 0;
            while index < reasons.len()
                invariant
                    index <= reasons@.len(),
                    facade_seq == tokens_view(facade@),
                    index == 0 ==> tokens_view(listed@) == Seq::<TokenView>::empty(),
                    index > 0 ==> tokens_view(listed@) == reason_list_view(facade_seq, reasons@.take(index as int)),
                decreases reasons.len() - index,
            {
                let ghost before = tokens_view(listed@);
                if index > 0 {
                    let comma = punct_token(',', false);
                    let ghost prior = listed@;
                    listed.push(comma);
                    proof {
                        lemma_tokens_view_push(prior, comma);
                    }
                }
                let ghost middle = tokens_view(listed@);
                push_reason_path(&mut listed, &facade, reasons[index]);
                proof {
                    lemma_reason_list_take(facade_seq, reasons@, index as int);
                    if index == 0 {
                        assert(tokens_view(listed@) =~= reason_path_view(facade_seq, reasons@[0]));
                    } else {
                        assert(tokens_view(listed@) =~= before + seq![punct_view(',', false)] + reason_path_view(
                            facade_seq,
                            reasons@[index as int],
                        ));
                    }
                }
                index += 1;
            }
            proof {
                if reasons@.len() > 0 {
                    assert(reasons@.take(reasons@.len() as int) =~= reasons@);
                }
            }
        },
    }
    let group = TokenTreeIr::Group { delimiter: DelimiterIr::Bracket, tokens: listed, span: CALL_SITE_SPAN };
    let ampersand = punct_token('&', false);
    let mut tokens: Vec<TokenTreeIr> = Vec::new();
    tokens.push(ampersand);
    tokens.push(group);
    proof {
        lemma_tokens_view_index(tokens@);
        assert(tokens_view(tokens@) =~= unavailable_reasons_view(facade_seq, plan.availability));
    }
    tokens
}

proof fn lemma_reason_list_take(facade: Seq<TokenView>, reasons: Seq<UnavailableReasonPlan>, index: int)
    requires
        0 <= index < reasons.len(),
    ensures
        index == 0 ==> reason_list_view(facade, reasons.take(1)) == reason_path_view(facade, reasons[0]),
        index > 0 ==> reason_list_view(facade, reasons.take(index + 1)) == reason_list_view(
            facade,
            reasons.take(index),
        ) + seq![punct_view(',', false)] + reason_path_view(facade, reasons[index]),
    decreases index,
{
    if index == 0 {
        assert(reasons.take(1).len() == 1);
        assert(reasons.take(1)[0] == reasons[0]);
    } else {
        let tail = reasons.drop_first();
        assert(reasons.take(index + 1)[0] == reasons[0]);
        assert(reasons.take(index + 1).drop_first() =~= tail.take(index));
        assert(reasons.take(index)[0] == reasons[0]);
        assert(reasons.take(index).drop_first() =~= tail.take(index - 1));
        lemma_reason_list_take(facade, tail, index - 1);
        assert(tail[index - 1] == reasons[index]);
        if index == 1 {
            assert(reasons.take(1).len() == 1);
            assert(tail.take(1)[0] == tail[0]);
            assert(reason_list_view(facade, tail.take(1)) == reason_path_view(facade, tail[0]));
            assert(reason_list_view(facade, reasons.take(1)) == reason_path_view(facade, reasons[0]));
        } else {
            assert(reason_list_view(facade, reasons.take(index + 1)) =~= reason_path_view(facade, reasons[0]) + seq![
                punct_view(',', false),
            ] + reason_list_view(facade, tail.take(index)));
            assert(reason_list_view(facade, reasons.take(index)) =~= reason_path_view(facade, reasons[0]) + seq![
                punct_view(',', false),
            ] + reason_list_view(facade, tail.take(index - 1)));
        }
    }
}

// ---------------------------------------------------------------------------
// Argument expectations
// ---------------------------------------------------------------------------

/// The expectation constructor a parameter's type selects, and the type it
/// is instantiated with: `borrowed_mut` or `borrowed` with the referenced
/// type for a reference, `owned` with the whole type otherwise.
pub open spec fn expectation_of(parameter: ParameterIr) -> (Seq<char>, Seq<TokenView>) {
    match parameter.ty.kind {
        TypeKindIr::Reference { mutable, element, .. } => (
            if mutable {
                "borrowed_mut"@
            } else {
                "borrowed"@
            },
            tokens_view(element.tokens@),
        ),
        _ => ("owned"@, tokens_view(parameter.ty.tokens@)),
    }
}

/// `facade::__private::codegen_v2::invoke::ArgumentExpectation::kind::<T>()`
/// for one positional parameter.
pub open spec fn argument_expectation_view(facade: Seq<TokenView>, parameter: ParameterIr) -> Seq<TokenView> {
    let (constructor, ty) = expectation_of(parameter);
    path_view(facade, seq!["__private"@, "codegen_v2"@, "invoke"@, "ArgumentExpectation"@, constructor]) + colons_view()
        + seq![punct_view('<', false)] + ty + seq![
        punct_view('>', false),
        TokenView::Group(DelimiterIr::Parenthesis, Seq::empty(), CALL_SITE_SPAN),
    ]
}

/// Emits the runtime expectation for one positional parameter.
pub fn argument_expectation(parameter: &ParameterIr, facade: &Vec<TokenTreeIr>) -> (tokens: Vec<TokenTreeIr>)
    ensures
        tokens_view(tokens@) == argument_expectation_view(tokens_view(facade@), *parameter),
{
    let (constructor, ty): (&str, &Vec<TokenTreeIr>) = match &parameter.ty.kind {
        TypeKindIr::Reference { mutable, element, .. } => (
            if *mutable {
                "borrowed_mut"
            } else {
                "borrowed"
            },
            &element.tokens,
        ),
        _ => ("owned", &parameter.ty.tokens),
    };
    assert(constructor@ == expectation_of(*parameter).0 && tokens_view(ty@) == expectation_of(*parameter).1);
    let mut tokens = copy_tokens(facade);
    let names: [&str; 5] = ["__private", "codegen_v2", "invoke", "ArgumentExpectation", constructor];
    assert(names@.map_values(|name: &str| name@) =~= seq![
        "__private"@,
        "codegen_v2"@,
        "invoke"@,
        "ArgumentExpectation"@,
        constructor@,
    ]);
    push_segments(&mut tokens, names.as_slice());
    let ghost path = tokens_view(tokens@);
    let ghost first = tokens@;
    tokens.push(punct_token(':', true));
    let ghost second = tokens@;
    tokens.push(punct_token(':', false));
    let ghost third = tokens@;
    tokens.push(punct_token('<', false));
    let ghost opened = tokens@;
    proof {
        lemma_tokens_view_push(first, second.last());
        lemma_tokens_view_push(second, third.last());
        lemma_tokens_view_push(third, opened.last());
        assert(second =~= first.push(second.last()));
        assert(third =~= second.push(third.last()));
        assert(opened =~= third.push(opened.last()));
    }
    append_tokens(&mut tokens, ty);
    let ghost typed = tokens@;
    tokens.push(punct_token('>', false));
    let empty: Vec<TokenTreeIr> = Vec::new();
    tokens.push(TokenTreeIr::Group { delimiter: DelimiterIr::Parenthesis, tokens: empty, span: CALL_SITE_SPAN });
    proof {
        lemma_tokens_view_index(opened);
        lemma_tokens_view_index(typed);
        lemma_tokens_view_index(tokens@);
        lemma_tokens_view_index(empty@);
        assert(tokens_view(opened) =~= path + colons_view() + seq![punct_view('<', false)]);
        assert(tokens_view(tokens@) =~= tokens_view(typed) + seq![
            punct_view('>', false),
            TokenView::Group(DelimiterIr::Parenthesis, Seq::empty(), CALL_SITE_SPAN),
        ]);
    }
    tokens
}

// ---------------------------------------------------------------------------
// Numeric discriminants
// ---------------------------------------------------------------------------

/// The runtime variant that holds a discriminant read as the integer type
/// `repr`.
pub open spec fn discriminant_variant(repr: Seq<char>) -> Option<Seq<char>> {
    if repr == "i8"@ {
        Some("I8"@)
    } else if repr == "i16"@ {
        Some("I16"@)
    } else if repr == "i32"@ {
        Some("I32"@)
    } else if repr == "i64"@ {
        Some("I64"@)
    } else if repr == "i128"@ {
        Some("I128"@)
    } else if repr == "isize"@ {
        Some("Isize"@)
    } else if repr == "u8"@ {
        Some("U8"@)
    } else if repr == "u16"@ {
        Some("U16"@)
    } else if repr == "u32"@ {
        Some("U32"@)
    } else if repr == "u64"@ {
        Some("U64"@)
    } else if repr == "u128"@ {
        Some("U128"@)
    } else if repr == "usize"@ {
        Some("Usize"@)
    } else {
        None
    }
}

/// `Some(facade::__private::codegen_v2::descriptor::NumericDiscriminant::V(Enum::Variant as repr))`
/// for an integer `repr`, else `None`.
pub open spec fn numeric_discriminant_view(
    facade: Seq<TokenView>,
    enum_name: Seq<char>,
    variant_name: Seq<char>,
    repr: Option<Seq<char>>,
) -> Seq<TokenView> {
    match repr {
        Some(repr) => match discriminant_variant(repr) {
            Some(variant) => seq![
                ident_view("Some"@),
                TokenView::Group(
                    DelimiterIr::Parenthesis,
                    path_view(facade, seq!["__private"@, "codegen_v2"@, "descriptor"@, "NumericDiscriminant"@, variant])
                        + seq![
                        TokenView::Group(
                            DelimiterIr::Parenthesis,
                            seq![ident_view(enum_name)] + colons_view() + seq![
                                ident_view(variant_name),
                                ident_view("as"@),
                                ident_view(repr),
                            ],
                            CALL_SITE_SPAN,
                        ),
                    ],
                    CALL_SITE_SPAN,
                ),
            ],
            None => seq![ident_view("None"@)],
        },
        None => seq![ident_view("None"@)],
    }
}

fn discriminant_variant_of(repr: &str) -> (variant: Option<&'static str>)
    ensures
        match variant {
            Some(variant) => discriminant_variant(repr@) == Some(variant@),
            None => discriminant_variant(repr@) is None,
        },
{
    proof {
        reveal_strlit("i8");
        reveal_strlit("i16");
        reveal_strlit("i32");
        reveal_strlit("i64");
        reveal_strlit("i128");
        reveal_strlit("isize");
        reveal_strlit("u8");
        reveal_strlit("u16");
        reveal_strlit("u32");
        reveal_strlit("u64");
        reveal_strlit("u128");
        reveal_strlit("usize");
    }
    if crate::text::str_eq(repr, "i8") {
        Some("I8")
    } else if crate::text::str_eq(repr, "i16") {
        Some("I16")
    } else if crate::text::str_eq(repr, "i32") {
        Some("I32")
    } else if crate::text::str_eq(repr, "i64") {
        Some("I64")
    } else if crate::text::str_eq(repr, "i128") {
        Some("I128")
    } else if crate::text::str_eq(repr, "isize") {
        Some("Isize")
    } else if crate::text::str_eq(repr, "u8") {
        Some("U8")
    } else if crate::text::str_eq(repr, "u16") {
        Some("U16")
    } else if crate::text::str_eq(repr, "u32") {
        Some("U32")
    } else if crate::text::str_eq(repr, "u64") {
        Some("U64")
    } else if crate::text::str_eq(repr, "u128") {
        Some("U128")
    } else if crate::text::str_eq(repr, "usize") {
        Some("Usize")
    } else {
        None
    }
}

pub(crate) fn single(token: TokenTreeIr) -> (tokens: Vec<TokenTreeIr>)
    ensures
        tokens_view(tokens@) == seq![token_view(token)],
{
    let mut tokens: Vec<TokenTreeIr> = Vec::new();
    tokens.push(token);
    proof {
        lemma_tokens_view_push(Seq::empty(), token);
        lemma_tokens_view_index(Seq::<TokenTreeIr>::empty());
        assert(Seq::<TokenTreeIr>::empty().push(token) =~= tokens@);
    }
    tokens
}

/// Emits the exact compiler-checked cast of a fieldless integer-repr
/// variant's discriminant, or `None` where the enum has no integer repr.
pub fn numeric_discriminant(
    enum_name: &str,
    variant_name: &str,
    repr: Option<&str>,
    facade: &Vec<TokenTreeIr>,
) -> (tokens: Vec<TokenTreeIr>)
    ensures
        tokens_view(tokens@) == numeric_discriminant_view(
            tokens_view(facade@),
            enum_name@,
            variant_name@,
            match repr {
                Some(repr) => Some(repr@),
                None => None,
            },
        ),
{
    let repr = match repr {
        Some(repr) => repr,
        None => {
            return single(ident_token("None"));
        },
    };
    let variant = match discriminant_variant_of(repr) {
        Some(variant) => variant,
        None => {
            return single(ident_token("None"));
        },
    };
    let mut cast: Vec<TokenTreeIr> = single(ident_token(enum_name));
    push_segment(&mut cast, variant_name);
    let ghost named = cast@;
    let as_token = ident_token("as");
    cast.push(as_token);
    let ghost with_as = cast@;
    let repr_token = ident_token(repr);
    cast.push(repr_token);
    proof {
        lemma_tokens_view_push(named, as_token);
        lemma_tokens_view_push(with_as, repr_token);
        assert(tokens_view(cast@) =~= seq![ident_view(enum_name@)] + colons_view() + seq![
            ident_view(variant_name@),
            ident_view("as"@),
            ident_view(repr@),
        ]);
    }
    let mut inner = copy_tokens(facade);
    let names: [&str; 5] = ["__private", "codegen_v2", "descriptor", "NumericDiscriminant", variant];
    assert(names@.map_values(|name: &str| name@) =~= seq![
        "__private"@,
        "codegen_v2"@,
        "descriptor"@,
        "NumericDiscriminant"@,
        variant@,
    ]);
    push_segments(&mut inner, names.as_slice());
    let ghost path = inner@;
    let group = TokenTreeIr::Group { delimiter: DelimiterIr::Parenthesis, tokens: cast, span: CALL_SITE_SPAN };
    inner.push(group);
    let ghost cast_view = seq![ident_view(enum_name@)] + colons_view() + seq![
        ident_view(variant_name@),
        ident_view("as"@),
        ident_view(repr@),
    ];
    let ghost path_seq = path_view(
        tokens_view(facade@),
        seq!["__private"@, "codegen_v2"@, "descriptor"@, "NumericDiscriminant"@, variant@],
    );
    proof {
        lemma_tokens_view_push(path, group);
        assert(token_view(group) == TokenView::Group(DelimiterIr::Parenthesis, cast_view, CALL_SITE_SPAN));
        assert(tokens_view(inner@) =~= path_seq + seq![
            TokenView::Group(DelimiterIr::Parenthesis, cast_view, CALL_SITE_SPAN),
        ]);
    }
    let ghost inner_view = tokens_view(inner@);
    let mut tokens = single(ident_token("Some"));
    let ghost some = tokens@;
    let outer = TokenTreeIr::Group { delimiter: DelimiterIr::Parenthesis, tokens: inner, span: CALL_SITE_SPAN };
    tokens.push(outer);
    proof {
        lemma_tokens_view_push(some, outer);
        assert(token_view(outer) == TokenView::Group(DelimiterIr::Parenthesis, inner_view, CALL_SITE_SPAN));
        assert(tokens_view(tokens@) =~= seq![
            ident_view("Some"@),
            TokenView::Group(DelimiterIr::Parenthesis, inner_view, CALL_SITE_SPAN),
        ]);
    }
    tokens
}

// ---------------------------------------------------------------------------
// Hook bounds
// ---------------------------------------------------------------------------

/// `T: 'static` for one type parameter.
pub open spec fn static_bound_view(name: Seq<char>) -> Seq<TokenView> {
    seq![ident_view(name), punct_view(':', false), punct_view('\'', true), ident_view("static"@)]
}

/// The `'static` bounds of the type parameters among `params`, in order.
pub open spec fn hook_bounds_view(params: Seq<GenericParamIr>) -> Seq<Seq<TokenView>>
    decreases params.len(),
{
    if params.len() == 0 {
        Seq::empty()
    } else if params[0].kind == GenericKindIr::Type {
        seq![static_bound_view(params[0].name@)] + hook_bounds_view(params.drop_first())
    } else {
        hook_bounds_view(params.drop_first())
    }
}

/// The values of a sequence of token sequences.
pub open spec fn token_lists_view(lists: Seq<Vec<TokenTreeIr>>) -> Seq<Seq<TokenView>> {
    lists.map_values(|list: Vec<TokenTreeIr>| tokens_view(list@))
}

/// Emits the `'static` bounds that generated trait payload hooks require of
/// the trait's type parameters.
pub fn hook_type_bounds(params: &Vec<GenericParamIr>) -> (bounds: Vec<Vec<TokenTreeIr>>)
    ensures
        token_lists_view(bounds@) == hook_bounds_view(params@),
{
    let mut bounds: Vec<Vec<TokenTreeIr>> = Vec::new();
    let mut index: usize = 0;
    assert(params@.skip(0) =~= params@);
    assert(token_lists_view(bounds@) + hook_bounds_view(params@) =~= hook_bounds_view(params@));
    while index < params.len()
        invariant
            index <= params@.len(),
            token_lists_view(bounds@) + hook_bounds_view(params@.skip(index as int)) == hook_bounds_view(params@),
        decreases params.len() - index,
    {
        let ghost rest = params@.skip(index as int);
        assert(rest[0] == params@[index as int]);
        assert(rest.drop_first() =~= params@.skip(index + 1));
        if params[index].kind == GenericKindIr::Type {
            let mut bound = single(ident_token(params[index].name.as_str()));
            let ghost named = bound@;
            let colon = punct_token(':', false);
            bound.push(colon);
            let ghost with_colon = bound@;
            let quote = punct_token('\'', true);
            bound.push(quote);
            let ghost quoted = bound@;
            let lifetime = ident_token("static");
            bound.push(lifetime);
            proof {
                lemma_tokens_view_push(named, colon);
                lemma_tokens_view_push(with_colon, quote);
                lemma_tokens_view_push(quoted, lifetime);
                assert(tokens_view(bound@) =~= static_bound_view(params@[index as int].name@));
            }
            let ghost before = bounds@;
            bounds.push(bound);
            assert(token_lists_view(bounds@) =~= token_lists_view(before).push(tokens_view(bound@)));
            assert(token_lists_view(bounds@) + hook_bounds_view(rest.drop_first()) =~= token_lists_view(before)
                + hook_bounds_view(rest));
        }
        index += 1;
    }
    assert(params@.skip(index as int) =~= Seq::<GenericParamIr>::empty());
    assert(token_lists_view(bounds@) + Seq::<Seq<TokenView>>::empty() =~= token_lists_view(bounds@));
    bounds
}

// ---------------------------------------------------------------------------
// Struct construction and update entries
// ---------------------------------------------------------------------------

/// `&descriptor.fields()[index]`.
pub open spec fn field_reference_view(index: usize) -> Seq<TokenView> {
    seq![
        punct_view('&', false),
        ident_view("descriptor"@),
        punct_view('.', false),
        ident_view("fields"@),
        TokenView::Group(DelimiterIr::Parenthesis, Seq::empty(), CALL_SITE_SPAN),
        TokenView::Group(
            DelimiterIr::Bracket,
            seq![TokenView::Literal(decimal(index as nat), CALL_SITE_SPAN)],
            CALL_SITE_SPAN,
        ),
    ]
}

/// The name of the generated default provider of the field at `index`.
pub open spec fn provider_name(index: usize) -> Seq<char> {
    "__qubit_reflect_default_field_"@ + decimal(index as nat)
}

/// The constructor of a construction entry for each role.
pub open spec fn construction_constructor(role: ConstructionFieldIr) -> Seq<char> {
    match role {
        ConstructionFieldIr::ProviderOnly => "provider_only"@,
        ConstructionFieldIr::Defaulted => "defaulted"@,
        ConstructionFieldIr::Unavailable => "unavailable"@,
        ConstructionFieldIr::Required => "required"@,
    }
}

/// The arguments of a construction entry: the field, then `Self::provider`
/// where a default provider fills it, or the reason it is unavailable.
pub open spec fn construction_arguments_view(
    facade: Seq<TokenView>,
    role: ConstructionFieldIr,
    index: usize,
) -> Seq<TokenView> {
    match role {
        ConstructionFieldIr::ProviderOnly | ConstructionFieldIr::Defaulted => field_reference_view(index) + seq![
            punct_view(',', false),
            ident_view("Self"@),
        ] + colons_view() + seq![ident_view(provider_name(index))],
        ConstructionFieldIr::Unavailable => field_reference_view(index) + seq![punct_view(',', false)] + path_view(
            facade,
            seq!["construct"@, "ConstructionUnavailableReason"@, "MissingDefaultProvider"@],
        ) + seq![punct_view(',', false)],
        ConstructionFieldIr::Required => field_reference_view(index),
    }
}

/// `facade::construct::ConstructionField::role(arguments)` for one field.
pub open spec fn construction_entry_view(facade: Seq<TokenView>, role: ConstructionFieldIr, index: usize) -> Seq<
    TokenView,
> {
    path_view(facade, seq!["construct"@, "ConstructionField"@, construction_constructor(role)]) + seq![
        TokenView::Group(DelimiterIr::Parenthesis, construction_arguments_view(facade, role, index), CALL_SITE_SPAN),
    ]
}

/// The update entry of one field: `allowed(field)`, or `unavailable(field,
/// UpdateForbidden,)` where the field may not be updated.
pub open spec fn update_entry_view(facade: Seq<TokenView>, allowed: bool, index: usize) -> Seq<TokenView> {
    if allowed {
        path_view(facade, seq!["construct"@, "UpdateField"@, "allowed"@]) + seq![
            TokenView::Group(DelimiterIr::Parenthesis, field_reference_view(index), CALL_SITE_SPAN),
        ]
    } else {
        path_view(facade, seq!["construct"@, "UpdateField"@, "unavailable"@]) + seq![
            TokenView::Group(
                DelimiterIr::Parenthesis,
                field_reference_view(index) + seq![punct_view(',', false)] + path_view(
                    facade,
                    seq!["construct"@, "ConstructionUnavailableReason"@, "UpdateForbidden"@],
                ) + seq![punct_view(',', false)],
                CALL_SITE_SPAN,
            ),
        ]
    }
}

/// Returns `facade :: names...`.
pub(crate) fn path_tokens(facade: &Vec<TokenTreeIr>, names: &[&str]) -> (tokens: Vec<TokenTreeIr>)
    ensures
        tokens_view(tokens@) == path_view(tokens_view(facade@), names@.map_values(|name: &str| name@)),
{
    let mut tokens = copy_tokens(facade);
    push_segments(&mut tokens, names);
    tokens
}

pub(crate) fn push_token(tokens: &mut Vec<TokenTreeIr>, token: TokenTreeIr)
    ensures
        tokens_view(final(tokens)@) == tokens_view(old(tokens)@).push(token_view(token)),
{
    let ghost before = tokens@;
    tokens.push(token);
    proof {
        lemma_tokens_view_push(before, token);
    }
}

pub(crate) fn field_reference(index: usize) -> (tokens: Vec<TokenTreeIr>)
    ensures
        tokens_view(tokens@) == field_reference_view(index),
{
    let mut tokens: Vec<TokenTreeIr> = Vec::new();
    proof {
        lemma_tokens_view_index(tokens@);
    }
    push_token(&mut tokens, punct_token('&', false));
    push_token(&mut tokens, ident_token("descriptor"));
    push_token(&mut tokens, punct_token('.', false));
    push_token(&mut tokens, ident_token("fields"));
    let empty: Vec<TokenTreeIr> = Vec::new();
    proof {
        lemma_tokens_view_index(empty@);
    }
    push_token(&mut tokens, TokenTreeIr::Group { delimiter: DelimiterIr::Parenthesis, tokens: empty, span: CALL_SITE_SPAN });
    let position = single(TokenTreeIr::Literal { text: decimal_string(index), span: CALL_SITE_SPAN });
    push_token(&mut tokens, TokenTreeIr::Group { delimiter: DelimiterIr::Bracket, tokens: position, span: CALL_SITE_SPAN });
    assert(tokens_view(tokens@) =~= field_reference_view(index));
    tokens
}

fn constructor_of(role: ConstructionFieldIr) -> (name: &'static str)
    ensures
        name@ == construction_constructor(role),
{
    match role {
        ConstructionFieldIr::ProviderOnly => "provider_only",
        ConstructionFieldIr::Defaulted => "defaulted",
        ConstructionFieldIr::Unavailable => "unavailable",
        ConstructionFieldIr::Required => "required",
    }
}

/// Emits the construction entry of one struct field.
pub fn construction_entry(field: &FieldIr, facade: &Vec<TokenTreeIr>) -> (tokens: Vec<TokenTreeIr>)
    ensures
        tokens_view(tokens@) == construction_entry_view(
            tokens_view(facade@),
            construction_field_of(field.attributes@),
            field.index,
        ),
{
    let role = construction_field(field);
    let ghost facade_view = tokens_view(facade@);
    let mut arguments = field_reference(field.index);
    let ghost reference = tokens_view(arguments@);
    match role {
        ConstructionFieldIr::ProviderOnly | ConstructionFieldIr::Defaulted => {
            push_token(&mut arguments, punct_token(',', false));
            push_token(&mut arguments, ident_token("Self"));
            let provider = join2("__qubit_reflect_default_field_", decimal_string(field.index).as_str());
            push_segment(&mut arguments, provider.as_str());
            assert(tokens_view(arguments@) =~= construction_arguments_view(facade_view, role, field.index));
        },
        ConstructionFieldIr::Unavailable => {
            push_token(&mut arguments, punct_token(',', false));
            let names: [&str; 3] = ["construct", "ConstructionUnavailableReason", "MissingDefaultProvider"];
            assert(names@.map_values(|name: &str| name@) =~= seq![
                "construct"@,
                "ConstructionUnavailableReason"@,
                "MissingDefaultProvider"@,
            ]);
            let reason = path_tokens(facade, names.as_slice());
            append_tokens(&mut arguments, &reason);
            push_token(&mut arguments, punct_token(',', false));
            assert(tokens_view(arguments@) =~= construction_arguments_view(facade_view, role, field.index));
        },
        ConstructionFieldIr::Required => {},
    }
    let ghost arguments_view = tokens_view(arguments@);
    let names: [&str; 3] = ["construct", "ConstructionField", constructor_of(role)];
    assert(names@.map_values(|name: &str| name@) =~= seq![
        "construct"@,
        "ConstructionField"@,
        construction_constructor(role),
    ]);
    let mut tokens = path_tokens(facade, names.as_slice());
    let group = TokenTreeIr::Group { delimiter: DelimiterIr::Parenthesis, tokens: arguments, span: CALL_SITE_SPAN };
    push_token(&mut tokens, group);
    assert(token_view(group) == TokenView::Group(DelimiterIr::Parenthesis, arguments_view, CALL_SITE_SPAN));
    tokens
}

/// Emits the owned-update entry of one struct field.
pub fn update_entry(field: &FieldIr, facade: &Vec<TokenTreeIr>) -> (tokens: Vec<TokenTreeIr>)
    ensures
        tokens_view(tokens@) == update_entry_view(
            tokens_view(facade@),
            !has_named(field.attributes@, HelperName::Skip),
            field.index,
        ),
{
    let allowed = field_update_allowed(field);
    let mut arguments = field_reference(field.index);
    if !allowed {
        push_token(&mut arguments, punct_token(',', false));
        let names: [&str; 3] = ["construct", "ConstructionUnavailableReason", "UpdateForbidden"];
        assert(names@.map_values(|name: &str| name@) =~= seq![
            "construct"@,
            "ConstructionUnavailableReason"@,
            "UpdateForbidden"@,
        ]);
        let reason = path_tokens(facade, names.as_slice());
        append_tokens(&mut arguments, &reason);
        push_token(&mut arguments, punct_token(',', false));
    }
    let ghost arguments_view = tokens_view(arguments@);
    let constructor = if allowed {
        "allowed"
    } else {
        "unavailable"
    };
    let names: [&str; 3] = ["construct", "UpdateField", constructor];
    assert(names@.map_values(|name: &str| name@) =~= seq!["construct"@, "UpdateField"@, constructor@]);
    let mut tokens = path_tokens(facade, names.as_slice());
    let group = TokenTreeIr::Group { delimiter: DelimiterIr::Parenthesis, tokens: arguments, span: CALL_SITE_SPAN };
    push_token(&mut tokens, group);
    assert(token_view(group) == TokenView::Group(DelimiterIr::Parenthesis, arguments_view, CALL_SITE_SPAN));
    proof {
        let facade_view = tokens_view(facade@);
        if allowed {
            assert(tokens_view(tokens@) =~= update_entry_view(facade_view, allowed, field.index));
        } else {
            assert(arguments_view =~= field_reference_view(field.index) + seq![punct_view(',', false)] + path_view(
                facade_view,
                seq!["construct"@, "ConstructionUnavailableReason"@, "UpdateForbidden"@],
            ) + seq![punct_view(',', false)]);
            assert(tokens_view(tokens@) =~= update_entry_view(facade_view, allowed, field.index));
        }
    }
    tokens
}

} // verus!

//! The executable invocation adapter of a concrete impl method: the function
//! that validates a dynamic invocation, binds its receiver and arguments,
//! calls the method and wraps what it returns, with the marker-trait bounds
//! its thread-safe and panic-catching forms assert, and the static
//! descriptor that registers it.

use vstd::prelude::*;
use vstd::string::StringExecFns;

use crate::assertions::assertion_view;
use crate::assertions::catching_output;
use crate::assertions::catching_output_of;
use crate::assertions::catching_parameter;
use crate::assertions::catching_parameter_of;
use crate::assertions::catching_receiver;
use crate::assertions::catching_receiver_of;
use crate::assertions::thread_safe_output;
use crate::assertions::thread_safe_output_of;
use crate::assertions::thread_safe_parameter;
use crate::assertions::thread_safe_parameter_of;
use crate::assertions::thread_safe_receiver;
use crate::assertions::thread_safe_receiver_of;
use crate::assertions::AssertedIr;
use crate::assertions::AssertedView;
use crate::assertions::MarkerAssertionIr;
use crate::assertions::MarkerIr;
use crate::codegen::append_tokens;
use crate::codegen::colons_view;
use crate::codegen::ident_view;
use crate::codegen::path_view;
use crate::codegen::punct_view;
use crate::codegen::push_segments;
use crate::codegen::push_token;
use crate::construction::empty_tokens;
use crate::construction::group_view;
use crate::construction::push_colons;
use crate::construction::push_group;
use crate::construction::push_ident;
use crate::construction::push_punct;
use crate::construction::push_std_path;
use crate::construction::std_path_view;
use crate::ir::DelimiterIr;
use crate::ir::MethodIr;
use crate::ir::ParameterIr;
use crate::ir::ReturnTypeIr;
use crate::ir::TokenTreeIr;
use crate::ir::TypeKindIr;
use crate::assertions::argument_passing;
use crate::assertions::passing_of;
use crate::assertions::ArgumentPassingIr;
use crate::assertions::PassingView;
use crate::construction::literal_view;
use crate::construction::push_literal;
use crate::construction::push_unreachable;
use crate::construction::push_unwrap_unreachable;
use crate::construction::unreachable_view;
use crate::construction::unwrap_unreachable_view;
use crate::text::decimal;
use crate::text::decimal_string;
use crate::invocation::analyze_method;
use crate::invocation::executable;
use crate::invocation::modes_of;
use crate::invocation::receiver_plan;
use crate::invocation::MethodContext;
use crate::invocation::ReceiverPlan;
use crate::specialization::specialization_descriptor;
use crate::specialization::specialization_descriptor_name;
use crate::const_codegen::string_literal;
use crate::const_codegen::string_literal_of;
use crate::codegen::token_lists_view;
use crate::invocation::str_type;
use crate::invocation::is_str_type;
use crate::ir::ReceiverKindIr;
use crate::invocation::OwnedContainerIr;
use crate::codegen::argument_expectation;
use crate::codegen::argument_expectation_view;
use crate::construction::comma_separated;
use crate::construction::push_empty_call;
use crate::substitution::tokens_view;
use crate::substitution::TokenView;

verus! {

// ---------------------------------------------------------------------------
// Paths of the runtime facade
// ---------------------------------------------------------------------------

/// `facade::__private::codegen_v2::names...`.
pub open spec fn private_view(facade: Seq<TokenView>, names: Seq<Seq<char>>) -> Seq<TokenView> {
    path_view(facade, seq!["__private"@, "codegen_v2"@] + names)
}

/// The value mode of an adapter: `ThreadSafe` or `Local`.
pub open spec fn mode_view(facade: Seq<TokenView>, thread_safe: bool) -> Seq<TokenView> {
    private_view(facade, seq!["value"@, if thread_safe { "ThreadSafe"@ } else { "Local"@ }])
}

/// `'call`.
pub open spec fn call_lifetime_view() -> Seq<TokenView> {
    seq![punct_view('\'', true), ident_view("call"@)]
}

/// `path<'call, mode>`.
pub open spec fn call_generic_view(path: Seq<TokenView>, mode: Seq<TokenView>) -> Seq<TokenView> {
    path + seq![punct_view('<', false)] + call_lifetime_view() + seq![punct_view(',', false)] + mode + seq![
        punct_view('>', false),
    ]
}

fn push_private(tokens: &mut Vec<TokenTreeIr>, facade: &Vec<TokenTreeIr>, names: &[&str])
    ensures
        tokens_view(final(tokens)@) == tokens_view(old(tokens)@) + private_view(
            tokens_view(facade@),
            names@.map_values(|name: &str| name@),
        ),
{
    let ghost start = tokens_view(tokens@);
    let mut path = crate::codegen::copy_tokens(facade);
    let head: [&str; 2] = ["__private", "codegen_v2"];
    assert(head@.map_values(|name: &str| name@) =~= seq!["__private"@, "codegen_v2"@]);
    push_segments(&mut path, head.as_slice());
    push_segments(&mut path, names);
    proof {
        lemma_path_view_append(
            tokens_view(facade@),
            seq!["__private"@, "codegen_v2"@],
            names@.map_values(|name: &str| name@),
        );
    }
    append_tokens(tokens, &path);
}

proof fn lemma_path_view_append(prefix: Seq<TokenView>, first: Seq<Seq<char>>, second: Seq<Seq<char>>)
    ensures
        path_view(path_view(prefix, first), second) == path_view(prefix, first + second),
    decreases first.len(),
{
    if first.len() > 0 {
        lemma_path_view_append(prefix + colons_view() + seq![ident_view(first[0])], first.drop_first(), second);
        assert((first + second).drop_first() =~= first.drop_first() + second);
        assert((first + second)[0] == first[0]);
    } else {
        assert(first + second =~= second);
    }
}

fn push_private2(tokens: &mut Vec<TokenTreeIr>, facade: &Vec<TokenTreeIr>, first: &str, second: &str)
    ensures
        tokens_view(final(tokens)@) == tokens_view(old(tokens)@) + private_view(
            tokens_view(facade@),
            seq![first@, second@],
        ),
{
    let names: [&str; 2] = [first, second];
    assert(names@.map_values(|name: &str| name@) =~= seq![first@, second@]);
    push_private(tokens, facade, names.as_slice());
}

fn push_private3(tokens: &mut Vec<TokenTreeIr>, facade: &Vec<TokenTreeIr>, first: &str, second: &str, third: &str)
    ensures
        tokens_view(final(tokens)@) == tokens_view(old(tokens)@) + private_view(
            tokens_view(facade@),
            seq![first@, second@, third@],
        ),
{
    let names: [&str; 3] = [first, second, third];
    assert(names@.map_values(|name: &str| name@) =~= seq![first@, second@, third@]);
    push_private(tokens, facade, names.as_slice());
}

fn push_mode(tokens: &mut Vec<TokenTreeIr>, facade: &Vec<TokenTreeIr>, thread_safe: bool)
    ensures
        tokens_view(final(tokens)@) == tokens_view(old(tokens)@) + mode_view(tokens_view(facade@), thread_safe),
{
    push_private2(tokens, facade, "value", if thread_safe { "ThreadSafe" } else { "Local" });
}

fn push_call_lifetime(tokens: &mut Vec<TokenTreeIr>)
    ensures
        tokens_view(final(tokens)@) == tokens_view(old(tokens)@) + call_lifetime_view(),
{
    let ghost start = tokens_view(tokens@);
    push_punct(tokens, '\'', true);
    push_ident(tokens, "call");
    assert(tokens_view(tokens@) =~= start + call_lifetime_view());
}

/// Appends `facade::__private::codegen_v2::first::second<'call, mode>`.
fn push_call_generic(
    tokens: &mut Vec<TokenTreeIr>,
    facade: &Vec<TokenTreeIr>,
    first: &str,
    second: &str,
    thread_safe: bool,
)
    ensures
        tokens_view(final(tokens)@) == tokens_view(old(tokens)@) + call_generic_view(
            private_view(tokens_view(facade@), seq![first@, second@]),
            mode_view(tokens_view(facade@), thread_safe),
        ),
{
    let ghost start = tokens_view(tokens@);
    push_private2(tokens, facade, first, second);
    push_punct(tokens, '<', false);
    push_call_lifetime(tokens);
    push_punct(tokens, ',', false);
    push_mode(tokens, facade, thread_safe);
    push_punct(tokens, '>', false);
    assert(tokens_view(tokens@) =~= start + call_generic_view(
        private_view(tokens_view(facade@), seq![first@, second@]),
        mode_view(tokens_view(facade@), thread_safe),
    ));
}

// ---------------------------------------------------------------------------
// Marker-trait bounds
// ---------------------------------------------------------------------------

/// A token at a given span.
pub open spec fn ident_at(name: Seq<char>, span: usize) -> TokenView {
    TokenView::Ident(name, span)
}

/// A punctuation character at a given span.
pub open spec fn punct_at(ch: char, joint: bool, span: usize) -> TokenView {
    TokenView::Punct(ch, joint, span)
}

/// The local function that asserts a marker bound.
pub open spec fn marker_function(marker: MarkerIr) -> Seq<char> {
    match marker {
        MarkerIr::Sync => "__qubit_reflect_assert_sync"@,
        MarkerIr::SendSync => "__qubit_reflect_assert_send_sync"@,
        MarkerIr::UnwindSafe => "__qubit_reflect_assert_unwind_safe"@,
        MarkerIr::RefUnwindSafe => "__qubit_reflect_assert_ref_unwind_safe"@,
    }
}

/// The tokens of an asserted type, spelled at `span` where they are not
/// taken from the signature: the target, `&mut` target, the receiver's own
/// type, a type of the signature, or a mutable borrow of one.
pub open spec fn subject_view(
    subject: AssertedView,
    target: Seq<TokenView>,
    own: Seq<TokenView>,
    span: usize,
) -> Seq<TokenView> {
    match subject {
        AssertedView::Target => target,
        AssertedView::TargetMut => seq![punct_at('&', false, span), ident_at("mut"@, span)] + target,
        AssertedView::ReceiverType => own,
        AssertedView::Type(ty) => tokens_view(ty.tokens@),
        AssertedView::TypeMut(ty) => seq![punct_at('&', false, span), ident_at("mut"@, span)] + tokens_view(
            ty.tokens@,
        ),
    }
}

/// `assert_function::<subject>();` at `span`.
pub open spec fn bound_statement_view(
    bound: (MarkerIr, AssertedView),
    target: Seq<TokenView>,
    own: Seq<TokenView>,
    span: usize,
) -> Seq<TokenView> {
    seq![
        ident_at(marker_function(bound.0), span),
        punct_at(':', true, span),
        punct_at(':', false, span),
        punct_at('<', false, span),
    ] + subject_view(bound.1, target, own, span) + seq![
        punct_at('>', false, span),
        TokenView::Group(DelimiterIr::Parenthesis, Seq::empty(), span),
        punct_at(';', false, span),
    ]
}

/// A statement for an optional bound.
pub open spec fn optional_statement_view(
    bound: Option<(MarkerIr, AssertedView)>,
    target: Seq<TokenView>,
    own: Seq<TokenView>,
    span: usize,
) -> Seq<TokenView> {
    match bound {
        Some(bound) => bound_statement_view(bound, target, own, span),
        None => Seq::empty(),
    }
}

/// The value of an asserted type.
pub open spec fn asserted_of(subject: AssertedIr<'_>) -> AssertedView {
    match subject {
        AssertedIr::Target => AssertedView::Target,
        AssertedIr::TargetMut => AssertedView::TargetMut,
        AssertedIr::ReceiverType => AssertedView::ReceiverType,
        AssertedIr::Type(ty) => AssertedView::Type(*ty),
        AssertedIr::TypeMut(ty) => AssertedView::TypeMut(*ty),
    }
}

fn push_subject(
    tokens: &mut Vec<TokenTreeIr>,
    subject: AssertedIr<'_>,
    target: &Vec<TokenTreeIr>,
    own: &Vec<TokenTreeIr>,
    span: usize,
)
    ensures
        tokens_view(final(tokens)@) == tokens_view(old(tokens)@) + subject_view(
            asserted_of(subject),
            tokens_view(target@),
            tokens_view(own@),
            span,
        ),
{
    let ghost start = tokens_view(tokens@);
    match subject {
        AssertedIr::Target => append_tokens(tokens, target),
        AssertedIr::TargetMut => {
            push_token(tokens, TokenTreeIr::Punct { ch: '&', joint: false, span });
            push_token(tokens, TokenTreeIr::Ident { name: String::from_str("mut"), span });
            append_tokens(tokens, target);
            assert(tokens_view(tokens@) =~= start + (seq![punct_at('&', false, span), ident_at("mut"@, span)]
                + tokens_view(target@)));
        },
        AssertedIr::ReceiverType => append_tokens(tokens, own),
        AssertedIr::Type(ty) => append_tokens(tokens, &ty.tokens),
        AssertedIr::TypeMut(ty) => {
            push_token(tokens, TokenTreeIr::Punct { ch: '&', joint: false, span });
            push_token(tokens, TokenTreeIr::Ident { name: String::from_str("mut"), span });
            append_tokens(tokens, &ty.tokens);
            assert(tokens_view(tokens@) =~= start + (seq![punct_at('&', false, span), ident_at("mut"@, span)]
                + tokens_view(ty.tokens@)));
        },
    }
}

fn marker_function_of(marker: MarkerIr) -> (name: &'static str)
    ensures
        name@ == marker_function(marker),
{
    match marker {
        MarkerIr::Sync => "__qubit_reflect_assert_sync",
        MarkerIr::SendSync => "__qubit_reflect_assert_send_sync",
        MarkerIr::UnwindSafe => "__qubit_reflect_assert_unwind_safe",
        MarkerIr::RefUnwindSafe => "__qubit_reflect_assert_ref_unwind_safe",
    }
}

fn push_bound_statement(
    tokens: &mut Vec<TokenTreeIr>,
    assertion: MarkerAssertionIr<'_>,
    target: &Vec<TokenTreeIr>,
    own: &Vec<TokenTreeIr>,
    span: usize,
)
    ensures
        tokens_view(final(tokens)@) == tokens_view(old(tokens)@) + bound_statement_view(
            assertion_view(assertion),
            tokens_view(target@),
            tokens_view(own@),
            span,
        ),
{
    let ghost start = tokens_view(tokens@);
    let name = marker_function_of(assertion.marker);
    push_token(tokens, TokenTreeIr::Ident { name: String::from_str(name), span });
    push_token(tokens, TokenTreeIr::Punct { ch: ':', joint: true, span });
    push_token(tokens, TokenTreeIr::Punct { ch: ':', joint: false, span });
    push_token(tokens, TokenTreeIr::Punct { ch: '<', joint: false, span });
    let ghost opened = tokens_view(tokens@);
    push_subject(tokens, assertion.subject, target, own, span);
    assert(asserted_of(assertion.subject) == assertion_view(assertion).1);
    push_token(tokens, TokenTreeIr::Punct { ch: '>', joint: false, span });
    let empty = empty_tokens();
    push_token(tokens, TokenTreeIr::Group { delimiter: DelimiterIr::Parenthesis, tokens: empty, span });
    push_token(tokens, TokenTreeIr::Punct { ch: ';', joint: false, span });
    assert(tokens_view(tokens@) =~= start + bound_statement_view(
        assertion_view(assertion),
        tokens_view(target@),
        tokens_view(own@),
        span,
    ));
}

fn push_optional_statement(
    tokens: &mut Vec<TokenTreeIr>,
    assertion: Option<MarkerAssertionIr<'_>>,
    target: &Vec<TokenTreeIr>,
    own: &Vec<TokenTreeIr>,
    span: usize,
)
    ensures
        tokens_view(final(tokens)@) == tokens_view(old(tokens)@) + optional_statement_view(
            match assertion {
                Some(assertion) => Some(assertion_view(assertion)),
                None => None,
            },
            tokens_view(target@),
            tokens_view(own@),
            span,
        ),
{
    match assertion {
        Some(assertion) => push_bound_statement(tokens, assertion, target, own, span),
        None => assert(tokens_view(tokens@) =~= tokens_view(tokens@) + Seq::<TokenView>::empty()),
    }
}

/// `fn name<T: ?Sized + bound>() {}`: the local function whose call asserts
/// a bound.
pub open spec fn marker_function_view(name: Seq<char>, bound: Seq<TokenView>) -> Seq<TokenView> {
    seq![
        ident_view("fn"@),
        ident_view(name),
        punct_view('<', false),
        ident_view("T"@),
        punct_view(':', false),
        punct_view('?', false),
        ident_view("Sized"@),
        punct_view('+', false),
    ] + bound + seq![
        punct_view('>', false),
        group_view(DelimiterIr::Parenthesis, Seq::empty()),
        group_view(DelimiterIr::Brace, Seq::empty()),
    ]
}

/// The two local assertion functions of a thread-safe adapter, or of a
/// panic-catching one.
pub open spec fn marker_functions_view(catching: bool) -> Seq<TokenView> {
    if catching {
        marker_function_view(
            "__qubit_reflect_assert_unwind_safe"@,
            std_path_view(seq!["std"@, "panic"@, "UnwindSafe"@]),
        ) + marker_function_view(
            "__qubit_reflect_assert_ref_unwind_safe"@,
            std_path_view(seq!["std"@, "panic"@, "RefUnwindSafe"@]),
        )
    } else {
        marker_function_view(
            "__qubit_reflect_assert_sync"@,
            std_path_view(seq!["core"@, "marker"@, "Sync"@]),
        ) + marker_function_view(
            "__qubit_reflect_assert_send_sync"@,
            std_path_view(seq!["core"@, "marker"@, "Send"@]) + seq![punct_view('+', false)] + std_path_view(
                seq!["core"@, "marker"@, "Sync"@],
            ) + seq![punct_view(',', false)],
        )
    }
}

/// The bound asserted for one parameter.
pub open spec fn parameter_bound(parameter: ParameterIr, catching: bool) -> (MarkerIr, AssertedView) {
    if catching {
        catching_parameter(parameter)
    } else {
        thread_safe_parameter(parameter)
    }
}

/// The statements asserting the parameters' bounds, each at its
/// parameter's span.
pub open spec fn parameter_statements_view(
    parameters: Seq<ParameterIr>,
    target: Seq<TokenView>,
    own: Seq<TokenView>,
    catching: bool,
) -> Seq<TokenView>
    decreases parameters.len(),
{
    if parameters.len() == 0 {
        Seq::empty()
    } else {
        parameter_statements_view(parameters.drop_last(), target, own, catching) + bound_statement_view(
            parameter_bound(parameters.last(), catching),
            target,
            own,
            parameters.last().span,
        )
    }
}

/// The span of the returned value's statement: the referent's for a borrow
/// in a panic-catching adapter, the type's otherwise.
pub open spec fn output_span(return_type: ReturnTypeIr, catching: bool) -> usize {
    match return_type {
        ReturnTypeIr::Type(ty) => match ty.kind {
            TypeKindIr::Reference { element, .. } => if catching {
                element.span
            } else {
                ty.span
            },
            _ => ty.span,
        },
        ReturnTypeIr::Unit => 0,
    }
}

/// The statement asserting the receiver's bound, at the receiver's span.
pub open spec fn receiver_statement_view(
    method: MethodIr,
    target: Seq<TokenView>,
    own: Option<Seq<TokenView>>,
    catching: bool,
) -> Seq<TokenView> {
    match method.receiver {
        Some(receiver) => optional_statement_view(
            if catching {
                catching_receiver(receiver, own is Some)
            } else {
                thread_safe_receiver(receiver, own is Some)
            },
            target,
            own_tokens(own),
            receiver.span,
        ),
        None => Seq::empty(),
    }
}

/// The receiver's own type tokens, if it has one.
pub open spec fn own_tokens(own: Option<Seq<TokenView>>) -> Seq<TokenView> {
    match own {
        Some(own) => own,
        None => Seq::empty(),
    }
}

/// The statement asserting the returned value's bound.
pub open spec fn output_statement_view(return_type: ReturnTypeIr, target: Seq<TokenView>, catching: bool) -> Seq<
    TokenView,
> {
    optional_statement_view(
        if catching {
            catching_output(return_type)
        } else {
            thread_safe_output(return_type)
        },
        target,
        Seq::empty(),
        output_span(return_type, catching),
    )
}

/// Every bound statement of a thread-safe (or panic-catching) adapter, after
/// its two local functions: the receiver's, one per parameter, then the
/// returned value's.
pub open spec fn assertions_view(
    method: MethodIr,
    target: Seq<TokenView>,
    own: Option<Seq<TokenView>>,
    catching: bool,
) -> Seq<TokenView> {
    marker_functions_view(catching) + receiver_statement_view(method, target, own, catching)
        + parameter_statements_view(method.parameters@, target, own_tokens(own), catching) + output_statement_view(
        method.return_type,
        target,
        catching,
    )
}

fn push_marker_function(tokens: &mut Vec<TokenTreeIr>, name: &str, bound: &Vec<TokenTreeIr>)
    ensures
        tokens_view(final(tokens)@) == tokens_view(old(tokens)@) + marker_function_view(name@, tokens_view(bound@)),
{
    let ghost start = tokens_view(tokens@);
    push_ident(tokens, "fn");
    push_ident(tokens, name);
    push_punct(tokens, '<', false);
    push_ident(tokens, "T");
    push_punct(tokens, ':', false);
    push_punct(tokens, '?', false);
    push_ident(tokens, "Sized");
    push_punct(tokens, '+', false);
    append_tokens(tokens, bound);
    push_punct(tokens, '>', false);
    push_group(tokens, DelimiterIr::Parenthesis, empty_tokens());
    push_group(tokens, DelimiterIr::Brace, empty_tokens());
    assert(tokens_view(tokens@) =~= start + marker_function_view(name@, tokens_view(bound@)));
}

fn std_path3(first: &str, second: &str, third: &str) -> (tokens: Vec<TokenTreeIr>)
    ensures
        tokens_view(tokens@) == std_path_view(seq![first@, second@, third@]),
{
    let mut tokens = empty_tokens();
    let names: [&str; 3] = [first, second, third];
    assert(names@.map_values(|name: &str| name@) =~= seq![first@, second@, third@]);
    push_std_path(&mut tokens, names.as_slice());
    assert(Seq::<TokenView>::empty() + std_path_view(seq![first@, second@, third@]) =~= std_path_view(
        seq![first@, second@, third@],
    ));
    tokens
}

fn push_marker_functions(tokens: &mut Vec<TokenTreeIr>, catching: bool)
    ensures
        tokens_view(final(tokens)@) == tokens_view(old(tokens)@) + marker_functions_view(catching),
{
    let ghost start = tokens_view(tokens@);
    if catching {
        push_marker_function(tokens, "__qubit_reflect_assert_unwind_safe", &std_path3("std", "panic", "UnwindSafe"));
        push_marker_function(
            tokens,
            "__qubit_reflect_assert_ref_unwind_safe",
            &std_path3("std", "panic", "RefUnwindSafe"),
        );
    } else {
        push_marker_function(tokens, "__qubit_reflect_assert_sync", &std_path3("core", "marker", "Sync"));
        let mut bound = std_path3("core", "marker", "Send");
        push_punct(&mut bound, '+', false);
        append_tokens(&mut bound, &std_path3("core", "marker", "Sync"));
        push_punct(&mut bound, ',', false);
        push_marker_function(tokens, "__qubit_reflect_assert_send_sync", &bound);
    }
    assert(tokens_view(tokens@) =~= start + marker_functions_view(catching));
}

fn push_parameter_statements(
    tokens: &mut Vec<TokenTreeIr>,
    parameters: &Vec<ParameterIr>,
    target: &Vec<TokenTreeIr>,
    own: &Vec<TokenTreeIr>,
    catching: bool,
)
    ensures
        tokens_view(final(tokens)@) == tokens_view(old(tokens)@) + parameter_statements_view(
            parameters@,
            tokens_view(target@),
            tokens_view(own@),
            catching,
        ),
{
    let ghost start = tokens_view(tokens@);
    let mut index: usize = 0;
    assert(parameters@.take(0) =~= Seq::<ParameterIr>::empty());
    assert(start + Seq::<TokenView>::empty() =~= start);
    while index < parameters.len()
        invariant
            index <= parameters@.len(),
            tokens_view(tokens@) == start + parameter_statements_view(
                parameters@.take(index as int),
                tokens_view(target@),
                tokens_view(own@),
                catching,
            ),
        decreases parameters.len() - index,
    {
        let parameter = &parameters[index];
        let assertion = if catching {
            catching_parameter_of(parameter)
        } else {
            thread_safe_parameter_of(parameter)
        };
        push_bound_statement(tokens, assertion, target, own, parameter.span);
        proof {
            let taken = parameters@.take(index + 1);
            assert(taken.drop_last() =~= parameters@.take(index as int));
            assert(taken.last() == *parameter);
            assert(tokens_view(tokens@) =~= start + parameter_statements_view(
                taken,
                tokens_view(target@),
                tokens_view(own@),
                catching,
            ));
        }
        index += 1;
    }
    assert(parameters@.take(index as int) =~= parameters@);
}

fn push_receiver_statement(
    tokens: &mut Vec<TokenTreeIr>,
    method: &MethodIr,
    target: &Vec<TokenTreeIr>,
    own: Option<&Vec<TokenTreeIr>>,
    catching: bool,
)
    ensures
        tokens_view(final(tokens)@) == tokens_view(old(tokens)@) + receiver_statement_view(
            *method,
            tokens_view(target@),
            match own {
                Some(own) => Some(tokens_view(own@)),
                None => None,
            },
            catching,
        ),
{
    let empty = empty_tokens();
    let own_type = own.is_some();
    let own_tokens: &Vec<TokenTreeIr> = match own {
        Some(own) => own,
        None => &empty,
    };
    match &method.receiver {
        Some(receiver) => {
            let assertion = if catching {
                catching_receiver_of(receiver, own_type)
            } else {
                thread_safe_receiver_of(receiver, own_type)
            };
            push_optional_statement(tokens, assertion, target, own_tokens, receiver.span);
        },
        None => {
            assert(tokens_view(tokens@) =~= tokens_view(tokens@) + Seq::<TokenView>::empty());
        },
    }
}

fn push_assertions(
    tokens: &mut Vec<TokenTreeIr>,
    method: &MethodIr,
    target: &Vec<TokenTreeIr>,
    own: Option<&Vec<TokenTreeIr>>,
    catching: bool,
)
    ensures
        tokens_view(final(tokens)@) == tokens_view(old(tokens)@) + assertions_view(
            *method,
            tokens_view(target@),
            match own {
                Some(own) => Some(tokens_view(own@)),
                None => None,
            },
            catching,
        ),
{
    let ghost start = tokens_view(tokens@);
    let ghost own_view = match own {
        Some(own) => Some(tokens_view(own@)),
        None => None::<Seq<TokenView>>,
    };
    let empty = empty_tokens();
    let own_list: &Vec<TokenTreeIr> = match own {
        Some(own) => own,
        None => &empty,
    };
    assert(tokens_view(own_list@) == own_tokens(own_view));
    push_marker_functions(tokens, catching);
    let ghost a = tokens_view(tokens@);
    push_receiver_statement(tokens, method, target, own, catching);
    let ghost b = tokens_view(tokens@);
    push_parameter_statements(tokens, &method.parameters, target, own_list, catching);
    let ghost c = tokens_view(tokens@);
    let output = if catching {
        catching_output_of(&method.return_type)
    } else {
        thread_safe_output_of(&method.return_type)
    };
    let span = output_span_of(&method.return_type, catching);
    push_optional_statement(tokens, output, target, &empty, span);
    assert(tokens_view(tokens@) =~= start + (marker_functions_view(catching) + receiver_statement_view(
        *method,
        tokens_view(target@),
        own_view,
        catching,
    ) + parameter_statements_view(method.parameters@, tokens_view(target@), own_tokens(own_view), catching)
        + output_statement_view(method.return_type, tokens_view(target@), catching)));
}

fn output_span_of(return_type: &ReturnTypeIr, catching: bool) -> (span: usize)
    ensures
        span == output_span(*return_type, catching),
{
    match return_type {
        ReturnTypeIr::Type(ty) => match &ty.kind {
            TypeKindIr::Reference { element, .. } => if catching {
                element.span
            } else {
                ty.span
            },
            _ => ty.span,
        },
        ReturnTypeIr::Unit => 0,
    }
}

// ---------------------------------------------------------------------------
// Positional arguments
// ---------------------------------------------------------------------------

/// The local that holds the argument at `index`.
pub open spec fn argument_name(index: usize) -> Seq<char> {
    "__qubit_reflect_argument_"@ + decimal(index as nat)
}

/// `=>`.
pub open spec fn fat_arrow_view() -> Seq<TokenView> {
    seq![punct_view('=', true), punct_view('>', false)]
}

/// `facade::__private::codegen_v2::invoke::family::variant(value)`.
pub open spec fn variant_pattern_view(facade: Seq<TokenView>, family: Seq<char>, variant: Seq<char>) -> Seq<
    TokenView,
> {
    private_view(facade, seq!["invoke"@, family, variant]) + seq![
        group_view(DelimiterIr::Parenthesis, seq![ident_view("value"@)]),
    ]
}

/// `arguments.next().expect("validation checked argument count")`.
pub open spec fn next_argument_view() -> Seq<TokenView> {
    seq![
        ident_view("arguments"@),
        punct_view('.', false),
        ident_view("next"@),
        group_view(DelimiterIr::Parenthesis, Seq::empty()),
        punct_view('.', false),
        ident_view("expect"@),
        group_view(
            DelimiterIr::Parenthesis,
            seq![literal_view("\"validation checked argument count\""@)],
        ),
    ]
}

/// `facade::__private::codegen_v2::value::family::<mode>::function(value)`,
/// with `::<ty>` after `function` when a type is given, then
/// `.unwrap_or_else(|_| unreachable!(message))`.
pub open spec fn converted_view(
    facade: Seq<TokenView>,
    thread_safe: bool,
    family: Seq<char>,
    function: Seq<char>,
    ty: Option<Seq<TokenView>>,
    message: Seq<char>,
) -> Seq<TokenView> {
    private_view(facade, seq!["value"@, family]) + colons_view() + seq![punct_view('<', false)] + mode_view(
        facade,
        thread_safe,
    ) + seq![punct_view('>', false)] + colons_view() + seq![ident_view(function)] + match ty {
        Some(ty) => colons_view() + seq![punct_view('<', false)] + ty + seq![punct_view('>', false)],
        None => Seq::empty(),
    } + seq![group_view(DelimiterIr::Parenthesis, seq![ident_view("value"@)])] + unwrap_unreachable_view(message)
}

/// `_ => unreachable!(message),`.
pub open spec fn fallback_arm_view(message: Seq<char>) -> Seq<TokenView> {
    seq![ident_view("_"@)] + fat_arrow_view() + unreachable_view(message) + seq![punct_view(',', false)]
}

/// `family::Mut(value) => { let value = conversion; &*value }`: a mutable
/// borrow that serves a shared one.
pub open spec fn reborrow_arm_view(facade: Seq<TokenView>, family: Seq<char>, conversion: Seq<TokenView>) -> Seq<
    TokenView,
> {
    variant_pattern_view(facade, family, "Mut"@) + fat_arrow_view() + seq![
        group_view(
            DelimiterIr::Brace,
            seq![ident_view("let"@), ident_view("value"@), punct_view('=', false)] + conversion + seq![
                punct_view(';', false),
                punct_view('&', false),
                punct_view('*', false),
                ident_view("value"@),
            ],
        ),
    ]
}

/// The match arms that take an argument passed in one of the ways the
/// parameter accepts.
#[verifier::opaque]
pub open spec fn argument_arms_view(facade: Seq<TokenView>, thread_safe: bool, passing: PassingView) -> Seq<
    TokenView,
> {
    let message = "\"validation checked argument type\""@;
    let head = match passing {
        PassingView::Owned(ty) => variant_pattern_view(facade, "InvocationArg"@, "Owned"@) + fat_arrow_view()
            + converted_view(facade, thread_safe, "DynamicOwned"@, "downcast"@, Some(tokens_view(ty.tokens@)), message)
            + seq![punct_view(',', false)],
        PassingView::Mutable(ty) => variant_pattern_view(facade, "InvocationArg"@, "Mut"@) + fat_arrow_view()
            + converted_view(facade, thread_safe, "DynamicMut"@, "downcast"@, Some(tokens_view(ty.tokens@)), message)
            + seq![punct_view(',', false)],
        PassingView::MutableStr => variant_pattern_view(facade, "InvocationArg"@, "Mut"@) + fat_arrow_view()
            + converted_view(facade, thread_safe, "DynamicMut"@, "into_str_mut"@, None, message) + seq![
            punct_view(',', false),
        ],
        PassingView::Shared(ty) => variant_pattern_view(facade, "InvocationArg"@, "Ref"@) + fat_arrow_view()
            + converted_view(facade, thread_safe, "DynamicRef"@, "downcast"@, Some(tokens_view(ty.tokens@)), message)
            + seq![punct_view(',', false)] + reborrow_arm_view(
            facade,
            "InvocationArg"@,
            converted_view(facade, thread_safe, "DynamicMut"@, "downcast"@, Some(tokens_view(ty.tokens@)), message),
        ),
        PassingView::SharedStr => variant_pattern_view(facade, "InvocationArg"@, "Ref"@) + fat_arrow_view()
            + converted_view(facade, thread_safe, "DynamicRef"@, "into_str"@, None, message) + seq![
            punct_view(',', false),
        ] + reborrow_arm_view(
            facade,
            "InvocationArg"@,
            converted_view(facade, thread_safe, "DynamicMut"@, "into_str_mut"@, None, message),
        ),
    };
    head + fallback_arm_view("\"validation checked argument mode\""@)
}

/// `let name[: ty] = match arguments.next().expect(..) { arms };`: the
/// binding of one validated positional argument.
pub open spec fn argument_binding_view(facade: Seq<TokenView>, thread_safe: bool, parameter: ParameterIr) -> Seq<
    TokenView,
> {
    seq![ident_view("let"@), ident_view(argument_name(parameter.index))] + match passing_of(parameter) {
        PassingView::Owned(ty) => seq![punct_view(':', false)] + tokens_view(ty.tokens@),
        _ => Seq::empty(),
    } + seq![punct_view('=', false), ident_view("match"@)] + next_argument_view() + seq![
        group_view(DelimiterIr::Brace, argument_arms_view(facade, thread_safe, passing_of(parameter))),
        punct_view(';', false),
    ]
}

/// The bindings of all positional arguments, in order.
pub open spec fn argument_bindings_view(facade: Seq<TokenView>, thread_safe: bool, parameters: Seq<ParameterIr>) -> Seq<
    TokenView,
>
    decreases parameters.len(),
{
    if parameters.len() == 0 {
        Seq::empty()
    } else {
        argument_bindings_view(facade, thread_safe, parameters.drop_last()) + argument_binding_view(
            facade,
            thread_safe,
            parameters.last(),
        )
    }
}

fn push_fat_arrow(tokens: &mut Vec<TokenTreeIr>)
    ensures
        tokens_view(final(tokens)@) == tokens_view(old(tokens)@) + fat_arrow_view(),
{
    let ghost start = tokens_view(tokens@);
    push_punct(tokens, '=', true);
    push_punct(tokens, '>', false);
    assert(tokens_view(tokens@) =~= start + fat_arrow_view());
}

fn value_group() -> (tokens: Vec<TokenTreeIr>)
    ensures
        tokens_view(tokens@) == seq![ident_view("value"@)],
{
    let mut inner = empty_tokens();
    push_ident(&mut inner, "value");
    assert(Seq::<TokenView>::empty().push(ident_view("value"@)) =~= seq![ident_view("value"@)]);
    inner
}

fn push_variant_pattern(tokens: &mut Vec<TokenTreeIr>, facade: &Vec<TokenTreeIr>, family: &str, variant: &str)
    ensures
        tokens_view(final(tokens)@) == tokens_view(old(tokens)@) + variant_pattern_view(
            tokens_view(facade@),
            family@,
            variant@,
        ),
{
    let ghost start = tokens_view(tokens@);
    push_private3(tokens, facade, "invoke", family, variant);
    push_group(tokens, DelimiterIr::Parenthesis, value_group());
    assert(tokens_view(tokens@) =~= start + variant_pattern_view(tokens_view(facade@), family@, variant@));
}

fn push_next_argument(tokens: &mut Vec<TokenTreeIr>)
    ensures
        tokens_view(final(tokens)@) == tokens_view(old(tokens)@) + next_argument_view(),
{
    let ghost start = tokens_view(tokens@);
    push_ident(tokens, "arguments");
    push_punct(tokens, '.', false);
    push_ident(tokens, "next");
    push_group(tokens, DelimiterIr::Parenthesis, empty_tokens());
    push_punct(tokens, '.', false);
    push_ident(tokens, "expect");
    let mut inner = empty_tokens();
    push_literal(&mut inner, String::from_str("\"validation checked argument count\""));
    push_group(tokens, DelimiterIr::Parenthesis, inner);
    assert(tokens_view(tokens@) =~= start + next_argument_view());
}

#[verifier::rlimit(50)]
fn push_converted(
    tokens: &mut Vec<TokenTreeIr>,
    facade: &Vec<TokenTreeIr>,
    thread_safe: bool,
    family: &str,
    function: &str,
    ty: Option<&Vec<TokenTreeIr>>,
    message: &str,
)
    ensures
        tokens_view(final(tokens)@) == tokens_view(old(tokens)@) + converted_view(
            tokens_view(facade@),
            thread_safe,
            family@,
            function@,
            match ty {
                Some(ty) => Some(tokens_view(ty@)),
                None => None,
            },
            message@,
        ),
{
    let ghost start = tokens_view(tokens@);
    push_private2(tokens, facade, "value", family);
    push_colons(tokens);
    push_punct(tokens, '<', false);
    push_mode(tokens, facade, thread_safe);
    push_punct(tokens, '>', false);
    push_colons(tokens);
    push_ident(tokens, function);
    let ghost named = tokens_view(tokens@);
    match ty {
        Some(ty) => {
            push_colons(tokens);
            push_punct(tokens, '<', false);
            append_tokens(tokens, ty);
            push_punct(tokens, '>', false);
            assert(tokens_view(tokens@) =~= named + (colons_view() + seq![punct_view('<', false)] + tokens_view(ty@)
                + seq![punct_view('>', false)]));
        },
        None => {
            assert(tokens_view(tokens@) =~= named + Seq::<TokenView>::empty());
        },
    }
    push_group(tokens, DelimiterIr::Parenthesis, value_group());
    push_unwrap_unreachable(tokens, message);
    assert(tokens_view(tokens@) =~= start + converted_view(
        tokens_view(facade@),
        thread_safe,
        family@,
        function@,
        match ty {
            Some(ty) => Some(tokens_view(ty@)),
            None => None,
        },
        message@,
    ));
}

fn push_fallback_arm(tokens: &mut Vec<TokenTreeIr>, message: &str)
    ensures
        tokens_view(final(tokens)@) == tokens_view(old(tokens)@) + fallback_arm_view(message@),
{
    let ghost start = tokens_view(tokens@);
    push_ident(tokens, "_");
    push_fat_arrow(tokens);
    push_unreachable(tokens, message);
    push_punct(tokens, ',', false);
    assert(tokens_view(tokens@) =~= start + fallback_arm_view(message@));
}

/// Appends `pattern => conversion,`.
fn push_converted_arm(
    tokens: &mut Vec<TokenTreeIr>,
    facade: &Vec<TokenTreeIr>,
    thread_safe: bool,
    variant: &str,
    family: &str,
    function: &str,
    ty: Option<&Vec<TokenTreeIr>>,
)
    ensures
        tokens_view(final(tokens)@) == tokens_view(old(tokens)@) + variant_pattern_view(
            tokens_view(facade@),
            "InvocationArg"@,
            variant@,
        ) + fat_arrow_view() + converted_view(
            tokens_view(facade@),
            thread_safe,
            family@,
            function@,
            match ty {
                Some(ty) => Some(tokens_view(ty@)),
                None => None,
            },
            "\"validation checked argument type\""@,
        ) + seq![punct_view(',', false)],
{
    push_variant_pattern(tokens, facade, "InvocationArg", variant);
    push_fat_arrow(tokens);
    push_converted(tokens, facade, thread_safe, family, function, ty, "\"validation checked argument type\"");
    push_punct(tokens, ',', false);
    assert(seq![punct_view(',', false)] =~= Seq::<TokenView>::empty().push(punct_view(',', false)));
}

fn push_reborrow_arm(
    tokens: &mut Vec<TokenTreeIr>,
    facade: &Vec<TokenTreeIr>,
    thread_safe: bool,
    function: &str,
    ty: Option<&Vec<TokenTreeIr>>,
)
    ensures
        tokens_view(final(tokens)@) == tokens_view(old(tokens)@) + reborrow_arm_view(
            tokens_view(facade@),
            "InvocationArg"@,
            converted_view(
                tokens_view(facade@),
                thread_safe,
                "DynamicMut"@,
                function@,
                match ty {
                    Some(ty) => Some(tokens_view(ty@)),
                    None => None,
                },
                "\"validation checked argument type\""@,
            ),
        ),
{
    let ghost start = tokens_view(tokens@);
    push_variant_pattern(tokens, facade, "InvocationArg", "Mut");
    push_fat_arrow(tokens);
    let mut body = empty_tokens();
    push_ident(&mut body, "let");
    push_ident(&mut body, "value");
    push_punct(&mut body, '=', false);
    push_converted(&mut body, facade, thread_safe, "DynamicMut", function, ty, "\"validation checked argument type\"");
    push_punct(&mut body, ';', false);
    push_punct(&mut body, '&', false);
    push_punct(&mut body, '*', false);
    push_ident(&mut body, "value");
    let ghost conversion = converted_view(
        tokens_view(facade@),
        thread_safe,
        "DynamicMut"@,
        function@,
        match ty {
            Some(ty) => Some(tokens_view(ty@)),
            None => None,
        },
        "\"validation checked argument type\""@,
    );
    assert(tokens_view(body@) =~= seq![ident_view("let"@), ident_view("value"@), punct_view('=', false)]
        + conversion + seq![
        punct_view(';', false),
        punct_view('&', false),
        punct_view('*', false),
        ident_view("value"@),
    ]);
    push_group(tokens, DelimiterIr::Brace, body);
    assert(tokens_view(tokens@) =~= start + reborrow_arm_view(tokens_view(facade@), "InvocationArg"@, conversion));
}

fn push_argument_arms(tokens: &mut Vec<TokenTreeIr>, facade: &Vec<TokenTreeIr>, thread_safe: bool, passing: ArgumentPassingIr<'_>)
    ensures
        tokens_view(final(tokens)@) == tokens_view(old(tokens)@) + argument_arms_view(
            tokens_view(facade@),
            thread_safe,
            passing_view_of(passing),
        ),
{
    let ghost start = tokens_view(tokens@);
    match passing {
        ArgumentPassingIr::Owned(ty) => {
            push_converted_arm(tokens, facade, thread_safe, "Owned", "DynamicOwned", "downcast", Some(&ty.tokens));
        },
        ArgumentPassingIr::Mutable(ty) => {
            push_converted_arm(tokens, facade, thread_safe, "Mut", "DynamicMut", "downcast", Some(&ty.tokens));
        },
        ArgumentPassingIr::MutableStr => {
            push_converted_arm(tokens, facade, thread_safe, "Mut", "DynamicMut", "into_str_mut", None);
        },
        ArgumentPassingIr::Shared(ty) => {
            push_converted_arm(tokens, facade, thread_safe, "Ref", "DynamicRef", "downcast", Some(&ty.tokens));
            push_reborrow_arm(tokens, facade, thread_safe, "downcast", Some(&ty.tokens));
        },
        ArgumentPassingIr::SharedStr => {
            push_converted_arm(tokens, facade, thread_safe, "Ref", "DynamicRef", "into_str", None);
            push_reborrow_arm(tokens, facade, thread_safe, "into_str_mut", None);
        },
    }
    let ghost arms = tokens_view(tokens@);
    push_fallback_arm(tokens, "\"validation checked argument mode\"");
    reveal(argument_arms_view);
    assert(tokens_view(tokens@) =~= start + argument_arms_view(tokens_view(facade@), thread_safe, passing_view_of(passing)));
}

/// The value of an argument passing.
pub open spec fn passing_view_of(passing: ArgumentPassingIr<'_>) -> PassingView {
    match passing {
        ArgumentPassingIr::Owned(ty) => PassingView::Owned(*ty),
        ArgumentPassingIr::Shared(ty) => PassingView::Shared(*ty),
        ArgumentPassingIr::SharedStr => PassingView::SharedStr,
        ArgumentPassingIr::Mutable(ty) => PassingView::Mutable(*ty),
        ArgumentPassingIr::MutableStr => PassingView::MutableStr,
    }
}

fn argument_name_of(index: usize) -> (name: String)
    ensures
        name@ == argument_name(index),
{
    let digits = decimal_string(index);
    crate::text::join2("__qubit_reflect_argument_", digits.as_str())
}

/// Emits the binding of one validated positional argument.
pub fn argument_binding(parameter: &ParameterIr, facade: &Vec<TokenTreeIr>, thread_safe: bool) -> (tokens: Vec<
    TokenTreeIr,
>)
    ensures
        tokens_view(tokens@) == argument_binding_view(tokens_view(facade@), thread_safe, *parameter),
{
    let passing = argument_passing(parameter);
    assert(passing_view_of(passing) == passing_of(*parameter));
    let mut tokens = empty_tokens();
    push_ident(&mut tokens, "let");
    let name = argument_name_of(parameter.index);
    push_token(&mut tokens, TokenTreeIr::Ident { name, span: crate::ir::CALL_SITE_SPAN });
    let ghost named = tokens_view(tokens@);
    match passing {
        ArgumentPassingIr::Owned(ty) => {
            push_punct(&mut tokens, ':', false);
            append_tokens(&mut tokens, &ty.tokens);
            assert(tokens_view(tokens@) =~= named + (seq![punct_view(':', false)] + tokens_view(ty.tokens@)));
        },
        _ => {
            assert(tokens_view(tokens@) =~= named + Seq::<TokenView>::empty());
        },
    }
    push_punct(&mut tokens, '=', false);
    push_ident(&mut tokens, "match");
    push_next_argument(&mut tokens);
    let mut arms = empty_tokens();
    push_argument_arms(&mut arms, facade, thread_safe, passing);
    assert(tokens_view(arms@) =~= argument_arms_view(tokens_view(facade@), thread_safe, passing_of(*parameter)));
    push_group(&mut tokens, DelimiterIr::Brace, arms);
    push_punct(&mut tokens, ';', false);
    assert(tokens_view(tokens@) =~= argument_binding_view(tokens_view(facade@), thread_safe, *parameter));
    tokens
}

fn push_argument_bindings(
    tokens: &mut Vec<TokenTreeIr>,
    facade: &Vec<TokenTreeIr>,
    thread_safe: bool,
    parameters: &Vec<ParameterIr>,
)
    ensures
        tokens_view(final(tokens)@) == tokens_view(old(tokens)@) + argument_bindings_view(
            tokens_view(facade@),
            thread_safe,
            parameters@,
        ),
{
    let ghost start = tokens_view(tokens@);
    let mut index: usize = 0;
    assert(parameters@.take(0) =~= Seq::<ParameterIr>::empty());
    assert(start + Seq::<TokenView>::empty() =~= start);
    while index < parameters.len()
        invariant
            index <= parameters@.len(),
            tokens_view(tokens@) == start + argument_bindings_view(
                tokens_view(facade@),
                thread_safe,
                parameters@.take(index as int),
            ),
        decreases parameters.len() - index,
    {
        let binding = argument_binding(&parameters[index], facade, thread_safe);
        append_tokens(tokens, &binding);
        proof {
            let taken = parameters@.take(index + 1);
            assert(taken.drop_last() =~= parameters@.take(index as int));
            assert(taken.last() == parameters@[index as int]);
            assert(tokens_view(tokens@) =~= start + argument_bindings_view(tokens_view(facade@), thread_safe, taken));
        }
        index += 1;
    }
    assert(parameters@.take(index as int) =~= parameters@);
}

// ---------------------------------------------------------------------------
// The receiver
// ---------------------------------------------------------------------------

/// The owned container type of an explicit receiver, over the target.
pub open spec fn owned_type_view(container: OwnedContainerIr, target: Seq<TokenView>) -> Seq<TokenView> {
    match container {
        OwnedContainerIr::Box => std_path_view(seq!["std"@, "boxed"@, "Box"@]) + seq![punct_view('<', false)] + target
            + seq![punct_view('>', false)],
        OwnedContainerIr::Rc => std_path_view(seq!["std"@, "rc"@, "Rc"@]) + seq![punct_view('<', false)] + target
            + seq![punct_view('>', false)],
        OwnedContainerIr::Arc => std_path_view(seq!["std"@, "sync"@, "Arc"@]) + seq![punct_view('<', false)] + target
            + seq![punct_view('>', false)],
        OwnedContainerIr::PinBox => std_path_view(seq!["std"@, "pin"@, "Pin"@]) + seq![punct_view('<', false)]
            + std_path_view(seq!["std"@, "boxed"@, "Box"@]) + seq![punct_view('<', false)] + target + seq![
            punct_view('>', true),
            punct_view('>', false),
        ],
    }
}

/// Returns the owned container type of an explicit receiver.
pub fn owned_type(container: OwnedContainerIr, target: &Vec<TokenTreeIr>) -> (tokens: Vec<TokenTreeIr>)
    ensures
        tokens_view(tokens@) == owned_type_view(container, tokens_view(target@)),
{
    let mut tokens = match container {
        OwnedContainerIr::Box | OwnedContainerIr::PinBox => std_path3("std", if container == OwnedContainerIr::Box {
            "boxed"
        } else {
            "pin"
        }, if container == OwnedContainerIr::Box {
            "Box"
        } else {
            "Pin"
        }),
        OwnedContainerIr::Rc => std_path3("std", "rc", "Rc"),
        OwnedContainerIr::Arc => std_path3("std", "sync", "Arc"),
    };
    push_punct(&mut tokens, '<', false);
    if container == OwnedContainerIr::PinBox {
        append_tokens(&mut tokens, &std_path3("std", "boxed", "Box"));
        push_punct(&mut tokens, '<', false);
        append_tokens(&mut tokens, target);
        push_punct(&mut tokens, '>', true);
    } else {
        append_tokens(&mut tokens, target);
    }
    push_punct(&mut tokens, '>', false);
    assert(tokens_view(tokens@) =~= owned_type_view(container, tokens_view(target@)));
    tokens
}

/// The runtime receiver expectation of a method that takes its receiver
/// the ordinary way: `owned::<T>()` for `self` (of the target) or an owned
/// container (of that type), `borrowed_mut::<T>()` for `&mut self`,
/// `borrowed::<T>()` for any other receiver and `none()` without one.
pub open spec fn receiver_expectation_view(
    facade: Seq<TokenView>,
    method: MethodIr,
    target: Seq<TokenView>,
    owned: Option<Seq<TokenView>>,
) -> Seq<TokenView> {
    match method.receiver {
        None => private_view(facade, seq!["invoke"@, "ReceiverExpectation"@, "none"@]) + seq![
            group_view(DelimiterIr::Parenthesis, Seq::empty()),
        ],
        Some(receiver) => {
            let (name, ty) = if receiver.kind == ReceiverKindIr::Value {
                ("owned"@, target)
            } else {
                match owned {
                    Some(owned) => ("owned"@, owned),
                    None => if receiver.kind == ReceiverKindIr::MutableReference {
                        ("borrowed_mut"@, target)
                    } else {
                        ("borrowed"@, target)
                    },
                }
            };
            private_view(facade, seq!["invoke"@, "ReceiverExpectation"@, name]) + colons_view() + seq![
                punct_view('<', false),
            ] + ty + seq![punct_view('>', false), group_view(DelimiterIr::Parenthesis, Seq::empty())]
        },
    }
}

fn push_receiver_expectation(
    tokens: &mut Vec<TokenTreeIr>,
    facade: &Vec<TokenTreeIr>,
    method: &MethodIr,
    target: &Vec<TokenTreeIr>,
    owned: Option<&Vec<TokenTreeIr>>,
)
    ensures
        tokens_view(final(tokens)@) == tokens_view(old(tokens)@) + receiver_expectation_view(
            tokens_view(facade@),
            *method,
            tokens_view(target@),
            match owned {
                Some(owned) => Some(tokens_view(owned@)),
                None => None,
            },
        ),
{
    let ghost start = tokens_view(tokens@);
    match &method.receiver {
        None => {
            push_private3(tokens, facade, "invoke", "ReceiverExpectation", "none");
            push_group(tokens, DelimiterIr::Parenthesis, empty_tokens());
        },
        Some(receiver) => {
            let (name, ty): (&str, &Vec<TokenTreeIr>) = if receiver.kind == ReceiverKindIr::Value {
                ("owned", target)
            } else {
                match owned {
                    Some(owned) => ("owned", owned),
                    None => if receiver.kind == ReceiverKindIr::MutableReference {
                        ("borrowed_mut", target)
                    } else {
                        ("borrowed", target)
                    },
                }
            };
            push_private3(tokens, facade, "invoke", "ReceiverExpectation", name);
            push_colons(tokens);
            push_punct(tokens, '<', false);
            append_tokens(tokens, ty);
            push_punct(tokens, '>', false);
            push_group(tokens, DelimiterIr::Parenthesis, empty_tokens());
        },
    }
    assert(tokens_view(tokens@) =~= start + receiver_expectation_view(
        tokens_view(facade@),
        *method,
        tokens_view(target@),
        match owned {
            Some(owned) => Some(tokens_view(owned@)),
            None => None,
        },
    ));
}

/// `let (first, arguments) = validated.into_parts();`.
pub open spec fn into_parts_view(first: Seq<char>) -> Seq<TokenView> {
    seq![
        ident_view("let"@),
        group_view(DelimiterIr::Parenthesis, seq![ident_view(first), punct_view(',', false), ident_view("arguments"@)]),
        punct_view('=', false),
        ident_view("validated"@),
        punct_view('.', false),
        ident_view("into_parts"@),
        group_view(DelimiterIr::Parenthesis, Seq::empty()),
        punct_view(';', false),
    ]
}

/// `Some(facade::__private::codegen_v2::invoke::InvocationReceiver::variant(value))`.
pub open spec fn receiver_pattern_view(facade: Seq<TokenView>, variant: Seq<char>) -> Seq<TokenView> {
    seq![
        ident_view("Some"@),
        group_view(DelimiterIr::Parenthesis, variant_pattern_view(facade, "InvocationReceiver"@, variant)),
    ]
}

/// The conversion of a validated receiver value.
pub open spec fn receiver_conversion_view(
    facade: Seq<TokenView>,
    thread_safe: bool,
    family: Seq<char>,
    ty: Seq<TokenView>,
) -> Seq<TokenView> {
    converted_view(facade, thread_safe, family, "downcast"@, Some(ty), "\"validation checked receiver type\""@)
}

/// The arms that take the validated receiver: an owned value of `owned` (the
/// target for `self`), a mutable borrow for `&mut self`, and otherwise a
/// shared borrow, which a mutable one also serves.
#[verifier::opaque]
pub open spec fn receiver_arms_view(
    facade: Seq<TokenView>,
    thread_safe: bool,
    kind: ReceiverKindIr,
    target: Seq<TokenView>,
    owned: Option<Seq<TokenView>>,
) -> Seq<TokenView> {
    let head = if kind == ReceiverKindIr::Value || owned is Some {
        receiver_pattern_view(facade, "Owned"@) + fat_arrow_view() + receiver_conversion_view(
            facade,
            thread_safe,
            "DynamicOwned"@,
            if kind == ReceiverKindIr::Value { target } else { own_tokens(owned) },
        ) + seq![punct_view(',', false)]
    } else if kind == ReceiverKindIr::MutableReference {
        receiver_pattern_view(facade, "Mut"@) + fat_arrow_view() + receiver_conversion_view(
            facade,
            thread_safe,
            "DynamicMut"@,
            target,
        ) + seq![punct_view(',', false)]
    } else {
        receiver_pattern_view(facade, "Ref"@) + fat_arrow_view() + receiver_conversion_view(
            facade,
            thread_safe,
            "DynamicRef"@,
            target,
        ) + seq![punct_view(',', false)] + receiver_pattern_view(facade, "Mut"@) + fat_arrow_view() + seq![
            group_view(
                DelimiterIr::Brace,
                seq![ident_view("let"@), ident_view("value"@), punct_view('=', false)] + receiver_conversion_view(
                    facade,
                    thread_safe,
                    "DynamicMut"@,
                    target,
                ) + seq![
                    punct_view(';', false),
                    punct_view('&', false),
                    punct_view('*', false),
                    ident_view("value"@),
                ],
            ),
        ]
    };
    head + fallback_arm_view("\"validation checked receiver mode\""@)
}

/// The declared type of the bound receiver.
pub open spec fn receiver_type_view(kind: ReceiverKindIr, target: Seq<TokenView>, owned: Option<Seq<TokenView>>) -> Seq<
    TokenView,
> {
    if kind == ReceiverKindIr::Value {
        target
    } else if owned is Some {
        own_tokens(owned)
    } else if kind == ReceiverKindIr::MutableReference {
        seq![punct_view('&', false), ident_view("mut"@)] + target
    } else {
        seq![punct_view('&', false)] + target
    }
}

fn push_receiver_pattern(tokens: &mut Vec<TokenTreeIr>, facade: &Vec<TokenTreeIr>, variant: &str)
    ensures
        tokens_view(final(tokens)@) == tokens_view(old(tokens)@) + receiver_pattern_view(tokens_view(facade@), variant@),
{
    let ghost start = tokens_view(tokens@);
    push_ident(tokens, "Some");
    let mut inner = empty_tokens();
    push_variant_pattern(&mut inner, facade, "InvocationReceiver", variant);
    assert(tokens_view(inner@) =~= variant_pattern_view(tokens_view(facade@), "InvocationReceiver"@, variant@));
    push_group(tokens, DelimiterIr::Parenthesis, inner);
    assert(tokens_view(tokens@) =~= start + receiver_pattern_view(tokens_view(facade@), variant@));
}

fn push_receiver_arm(
    tokens: &mut Vec<TokenTreeIr>,
    facade: &Vec<TokenTreeIr>,
    thread_safe: bool,
    variant: &str,
    family: &str,
    ty: &Vec<TokenTreeIr>,
)
    ensures
        tokens_view(final(tokens)@) == tokens_view(old(tokens)@) + receiver_pattern_view(tokens_view(facade@), variant@)
            + fat_arrow_view() + receiver_conversion_view(tokens_view(facade@), thread_safe, family@, tokens_view(ty@))
            + seq![punct_view(',', false)],
{
    push_receiver_pattern(tokens, facade, variant);
    push_fat_arrow(tokens);
    push_converted(tokens, facade, thread_safe, family, "downcast", Some(ty), "\"validation checked receiver type\"");
    push_punct(tokens, ',', false);
    assert(seq![punct_view(',', false)] =~= Seq::<TokenView>::empty().push(punct_view(',', false)));
}

#[verifier::rlimit(60)]
fn push_receiver_arms(
    tokens: &mut Vec<TokenTreeIr>,
    facade: &Vec<TokenTreeIr>,
    thread_safe: bool,
    kind: ReceiverKindIr,
    target: &Vec<TokenTreeIr>,
    owned: Option<&Vec<TokenTreeIr>>,
)
    ensures
        tokens_view(final(tokens)@) == tokens_view(old(tokens)@) + receiver_arms_view(
            tokens_view(facade@),
            thread_safe,
            kind,
            tokens_view(target@),
            match owned {
                Some(owned) => Some(tokens_view(owned@)),
                None => None,
            },
        ),
{
    let ghost start = tokens_view(tokens@);
    if kind == ReceiverKindIr::Value || owned.is_some() {
        let ty: &Vec<TokenTreeIr> = if kind == ReceiverKindIr::Value {
            target
        } else {
            match owned {
                Some(owned) => owned,
                None => target,
            }
        };
        push_receiver_arm(tokens, facade, thread_safe, "Owned", "DynamicOwned", ty);
    } else if kind == ReceiverKindIr::MutableReference {
        push_receiver_arm(tokens, facade, thread_safe, "Mut", "DynamicMut", target);
    } else {
        push_receiver_arm(tokens, facade, thread_safe, "Ref", "DynamicRef", target);
        push_receiver_pattern(tokens, facade, "Mut");
        push_fat_arrow(tokens);
        let mut body = empty_tokens();
        push_ident(&mut body, "let");
        push_ident(&mut body, "value");
        push_punct(&mut body, '=', false);
        push_converted(&mut body, facade, thread_safe, "DynamicMut", "downcast", Some(target), "\"validation checked receiver type\"");
        push_punct(&mut body, ';', false);
        push_punct(&mut body, '&', false);
        push_punct(&mut body, '*', false);
        push_ident(&mut body, "value");
        assert(tokens_view(body@) =~= seq![ident_view("let"@), ident_view("value"@), punct_view('=', false)]
            + receiver_conversion_view(tokens_view(facade@), thread_safe, "DynamicMut"@, tokens_view(target@)) + seq![
            punct_view(';', false),
            punct_view('&', false),
            punct_view('*', false),
            ident_view("value"@),
        ]);
        push_group(tokens, DelimiterIr::Brace, body);
    }
    push_fallback_arm(tokens, "\"validation checked receiver mode\"");
    reveal(receiver_arms_view);
    assert(tokens_view(tokens@) =~= start + receiver_arms_view(
        tokens_view(facade@),
        thread_safe,
        kind,
        tokens_view(target@),
        match owned {
            Some(owned) => Some(tokens_view(owned@)),
            None => None,
        },
    ));
}

fn push_into_parts(tokens: &mut Vec<TokenTreeIr>, first: &str)
    ensures
        tokens_view(final(tokens)@) == tokens_view(old(tokens)@) + into_parts_view(first@),
{
    let ghost start = tokens_view(tokens@);
    push_ident(tokens, "let");
    let mut pair = empty_tokens();
    push_ident(&mut pair, first);
    push_punct(&mut pair, ',', false);
    push_ident(&mut pair, "arguments");
    assert(tokens_view(pair@) =~= seq![ident_view(first@), punct_view(',', false), ident_view("arguments"@)]);
    push_group(tokens, DelimiterIr::Parenthesis, pair);
    push_punct(tokens, '=', false);
    push_ident(tokens, "validated");
    push_empty_call(tokens, "into_parts");
    push_punct(tokens, ';', false);
    assert(tokens_view(tokens@) =~= start + into_parts_view(first@));
}

/// `std::any::TypeId::of::<target>()`.
pub open spec fn type_id_view(target: Seq<TokenView>) -> Seq<TokenView> {
    std_path_view(seq!["std"@, "any"@, "TypeId"@]) + colons_view() + seq![ident_view("of"@)] + colons_view() + seq![
        punct_view('<', false),
    ] + target + seq![punct_view('>', false), group_view(DelimiterIr::Parenthesis, Seq::empty())]
}

/// `let registry = facade::__private::codegen_v2::registration::ReflectRegistry::initialize().ok();`.
pub open spec fn registry_statement_view(facade: Seq<TokenView>) -> Seq<TokenView> {
    seq![ident_view("let"@), ident_view("registry"@), punct_view('=', false)] + private_view(
        facade,
        seq!["registration"@, "ReflectRegistry"@],
    ) + colons_view() + seq![
        ident_view("initialize"@),
        group_view(DelimiterIr::Parenthesis, Seq::empty()),
        punct_view('.', false),
        ident_view("ok"@),
        group_view(DelimiterIr::Parenthesis, Seq::empty()),
        punct_view(';', false),
    ]
}

/// The registry key of the receiver adapter for a receiver type and mode.
pub open spec fn adapter_key_view(facade: Seq<TokenView>, thread_safe: bool, receiver: Seq<TokenView>) -> Seq<
    TokenView,
> {
    private_view(facade, seq!["invoke"@, "receiver_adapter_key"@]) + colons_view() + seq![punct_view('<', false)]
        + receiver + seq![punct_view(',', false)] + mode_view(facade, thread_safe) + seq![
        punct_view('>', false),
        group_view(DelimiterIr::Parenthesis, Seq::empty()),
    ]
}

/// `|registry| { registry.capabilities(TypeId::of::<target>()).get(key) }`.
pub open spec fn adapter_lookup_view(facade: Seq<TokenView>, thread_safe: bool, target: Seq<TokenView>, receiver: Seq<
    TokenView,
>) -> Seq<TokenView> {
    seq![
        punct_view('|', false),
        ident_view("registry"@),
        punct_view('|', false),
        group_view(
            DelimiterIr::Brace,
            seq![
                ident_view("registry"@),
                punct_view('.', false),
                ident_view("capabilities"@),
                group_view(DelimiterIr::Parenthesis, type_id_view(target)),
                punct_view('.', false),
                ident_view("get"@),
                group_view(DelimiterIr::Parenthesis, adapter_key_view(facade, thread_safe, receiver)),
            ],
        ),
    ]
}

/// `let (receiver, arguments) = validated.adapt_receiver::<receiver>(&identity, adapter)?;`.
pub open spec fn adapt_statement_view(receiver: Seq<TokenView>) -> Seq<TokenView> {
    seq![
        ident_view("let"@),
        group_view(
            DelimiterIr::Parenthesis,
            seq![ident_view("receiver"@), punct_view(',', false), ident_view("arguments"@)],
        ),
        punct_view('=', false),
        ident_view("validated"@),
        punct_view('.', false),
        ident_view("adapt_receiver"@),
    ] + colons_view() + seq![punct_view('<', false)] + receiver + seq![
        punct_view('>', false),
        group_view(
            DelimiterIr::Parenthesis,
            seq![punct_view('&', false), ident_view("identity"@), punct_view(',', false), ident_view("adapter"@)],
        ),
        punct_view('?', false),
        punct_view(';', false),
    ]
}

/// The binding of a receiver served by a registered receiver adapter: the
/// registry's adapter for the receiver type and mode is looked up among the
/// target's capabilities, and the validated invocation adapts its receiver
/// through it.
#[verifier::opaque]
pub open spec fn extension_binding_view(
    facade: Seq<TokenView>,
    thread_safe: bool,
    target: Seq<TokenView>,
    receiver: Seq<TokenView>,
) -> Seq<TokenView> {
    registry_statement_view(facade) + seq![
        ident_view("let"@),
        ident_view("adapter"@),
        punct_view('=', false),
        ident_view("registry"@),
        punct_view('.', false),
        ident_view("and_then"@),
        group_view(DelimiterIr::Parenthesis, adapter_lookup_view(facade, thread_safe, target, receiver)),
        punct_view(';', false),
    ] + adapt_statement_view(receiver)
}

/// The binding of a receiver taken the ordinary way, as its declared type.
pub open spec fn declared_receiver_view(
    facade: Seq<TokenView>,
    thread_safe: bool,
    kind: ReceiverKindIr,
    target: Seq<TokenView>,
    owned: Option<Seq<TokenView>>,
) -> Seq<TokenView> {
    into_parts_view("receiver"@) + seq![ident_view("let"@), ident_view("receiver"@), punct_view(':', false)]
        + receiver_type_view(kind, target, owned) + seq![
        punct_view('=', false),
        ident_view("match"@),
        ident_view("receiver"@),
        group_view(DelimiterIr::Brace, receiver_arms_view(facade, thread_safe, kind, target, owned)),
        punct_view(';', false),
    ]
}

/// How the validated receiver is bound: through a registered receiver
/// adapter, as the declared receiver type, or not at all.
pub open spec fn receiver_binding_view(
    facade: Seq<TokenView>,
    thread_safe: bool,
    method: MethodIr,
    target: Seq<TokenView>,
    owned: Option<Seq<TokenView>>,
    extension: Option<Seq<TokenView>>,
) -> Seq<TokenView> {
    match extension {
        Some(receiver) => extension_binding_view(facade, thread_safe, target, receiver),
        None => match method.receiver {
            None => into_parts_view("_receiver"@),
            Some(receiver) => declared_receiver_view(facade, thread_safe, receiver.kind, target, owned),
        },
    }
}

fn push_type_id(tokens: &mut Vec<TokenTreeIr>, target: &Vec<TokenTreeIr>)
    ensures
        tokens_view(final(tokens)@) == tokens_view(old(tokens)@) + type_id_view(tokens_view(target@)),
{
    let ghost start = tokens_view(tokens@);
    append_tokens(tokens, &std_path3("std", "any", "TypeId"));
    push_colons(tokens);
    push_ident(tokens, "of");
    push_colons(tokens);
    push_punct(tokens, '<', false);
    append_tokens(tokens, target);
    push_punct(tokens, '>', false);
    push_group(tokens, DelimiterIr::Parenthesis, empty_tokens());
    assert(tokens_view(tokens@) =~= start + type_id_view(tokens_view(target@)));
}

fn adapter_key(facade: &Vec<TokenTreeIr>, thread_safe: bool, receiver: &Vec<TokenTreeIr>) -> (tokens: Vec<TokenTreeIr>)
    ensures
        tokens_view(tokens@) == adapter_key_view(tokens_view(facade@), thread_safe, tokens_view(receiver@)),
{
    let mut key = empty_tokens();
    push_private2(&mut key, facade, "invoke", "receiver_adapter_key");
    push_colons(&mut key);
    push_punct(&mut key, '<', false);
    append_tokens(&mut key, receiver);
    push_punct(&mut key, ',', false);
    push_mode(&mut key, facade, thread_safe);
    push_punct(&mut key, '>', false);
    push_group(&mut key, DelimiterIr::Parenthesis, empty_tokens());
    assert(tokens_view(key@) =~= adapter_key_view(tokens_view(facade@), thread_safe, tokens_view(receiver@)));
    key
}

fn adapter_lookup(facade: &Vec<TokenTreeIr>, thread_safe: bool, target: &Vec<TokenTreeIr>, receiver: &Vec<TokenTreeIr>) -> (tokens: Vec<TokenTreeIr>)
    ensures
        tokens_view(tokens@) == adapter_lookup_view(
            tokens_view(facade@),
            thread_safe,
            tokens_view(target@),
            tokens_view(receiver@),
        ),
{
    let key = adapter_key(facade, thread_safe, receiver);
    let mut id = empty_tokens();
    push_type_id(&mut id, target);
    assert(tokens_view(id@) =~= type_id_view(tokens_view(target@)));
    let mut body = empty_tokens();
    push_ident(&mut body, "registry");
    push_punct(&mut body, '.', false);
    push_ident(&mut body, "capabilities");
    push_group(&mut body, DelimiterIr::Parenthesis, id);
    push_punct(&mut body, '.', false);
    push_ident(&mut body, "get");
    push_group(&mut body, DelimiterIr::Parenthesis, key);
    let mut tokens = empty_tokens();
    push_punct(&mut tokens, '|', false);
    push_ident(&mut tokens, "registry");
    push_punct(&mut tokens, '|', false);
    push_group(&mut tokens, DelimiterIr::Brace, body);
    assert(tokens_view(body@) =~= seq![
        ident_view("registry"@),
        punct_view('.', false),
        ident_view("capabilities"@),
        group_view(DelimiterIr::Parenthesis, type_id_view(tokens_view(target@))),
        punct_view('.', false),
        ident_view("get"@),
        group_view(DelimiterIr::Parenthesis, tokens_view(key@)),
    ]);
    assert(tokens_view(tokens@) =~= seq![
        punct_view('|', false),
        ident_view("registry"@),
        punct_view('|', false),
        group_view(DelimiterIr::Brace, tokens_view(body@)),
    ]);
    tokens
}

fn push_registry_statement(tokens: &mut Vec<TokenTreeIr>, facade: &Vec<TokenTreeIr>)
    ensures
        tokens_view(final(tokens)@) == tokens_view(old(tokens)@) + registry_statement_view(tokens_view(facade@)),
{
    let ghost start = tokens_view(tokens@);
    push_ident(tokens, "let");
    push_ident(tokens, "registry");
    push_punct(tokens, '=', false);
    push_private2(tokens, facade, "registration", "ReflectRegistry");
    push_colons(tokens);
    push_ident(tokens, "initialize");
    push_group(tokens, DelimiterIr::Parenthesis, empty_tokens());
    push_empty_call(tokens, "ok");
    push_punct(tokens, ';', false);
    assert(tokens_view(tokens@) =~= start + registry_statement_view(tokens_view(facade@)));
}

fn push_adapt_statement(tokens: &mut Vec<TokenTreeIr>, receiver: &Vec<TokenTreeIr>)
    ensures
        tokens_view(final(tokens)@) == tokens_view(old(tokens)@) + adapt_statement_view(tokens_view(receiver@)),
{
    let ghost start = tokens_view(tokens@);
    push_ident(tokens, "let");
    let mut pair = empty_tokens();
    push_ident(&mut pair, "receiver");
    push_punct(&mut pair, ',', false);
    push_ident(&mut pair, "arguments");
    assert(tokens_view(pair@) =~= seq![ident_view("receiver"@), punct_view(',', false), ident_view("arguments"@)]);
    push_group(tokens, DelimiterIr::Parenthesis, pair);
    push_punct(tokens, '=', false);
    push_ident(tokens, "validated");
    push_punct(tokens, '.', false);
    push_ident(tokens, "adapt_receiver");
    push_colons(tokens);
    push_punct(tokens, '<', false);
    append_tokens(tokens, receiver);
    push_punct(tokens, '>', false);
    let mut call = empty_tokens();
    push_punct(&mut call, '&', false);
    push_ident(&mut call, "identity");
    push_punct(&mut call, ',', false);
    push_ident(&mut call, "adapter");
    assert(tokens_view(call@) =~= seq![
        punct_view('&', false),
        ident_view("identity"@),
        punct_view(',', false),
        ident_view("adapter"@),
    ]);
    push_group(tokens, DelimiterIr::Parenthesis, call);
    push_punct(tokens, '?', false);
    push_punct(tokens, ';', false);
    assert(tokens_view(tokens@) =~= start + adapt_statement_view(tokens_view(receiver@)));
}

fn push_extension_binding(
    tokens: &mut Vec<TokenTreeIr>,
    facade: &Vec<TokenTreeIr>,
    thread_safe: bool,
    target: &Vec<TokenTreeIr>,
    receiver: &Vec<TokenTreeIr>,
)
    ensures
        tokens_view(final(tokens)@) == tokens_view(old(tokens)@) + extension_binding_view(
            tokens_view(facade@),
            thread_safe,
            tokens_view(target@),
            tokens_view(receiver@),
        ),
{
    let ghost start = tokens_view(tokens@);
    push_registry_statement(tokens, facade);
    let ghost registry = tokens_view(tokens@);
    push_ident(tokens, "let");
    push_ident(tokens, "adapter");
    push_punct(tokens, '=', false);
    push_ident(tokens, "registry");
    push_punct(tokens, '.', false);
    push_ident(tokens, "and_then");
    push_group(tokens, DelimiterIr::Parenthesis, adapter_lookup(facade, thread_safe, target, receiver));
    push_punct(tokens, ';', false);
    let ghost middle = tokens_view(tokens@);
    assert(middle =~= registry + seq![
        ident_view("let"@),
        ident_view("adapter"@),
        punct_view('=', false),
        ident_view("registry"@),
        punct_view('.', false),
        ident_view("and_then"@),
        group_view(
            DelimiterIr::Parenthesis,
            adapter_lookup_view(tokens_view(facade@), thread_safe, tokens_view(target@), tokens_view(receiver@)),
        ),
        punct_view(';', false),
    ]);
    push_adapt_statement(tokens, receiver);
    reveal(extension_binding_view);
    assert(tokens_view(tokens@) =~= start + extension_binding_view(
        tokens_view(facade@),
        thread_safe,
        tokens_view(target@),
        tokens_view(receiver@),
    ));
}

fn push_receiver_type(
    tokens: &mut Vec<TokenTreeIr>,
    kind: ReceiverKindIr,
    target: &Vec<TokenTreeIr>,
    owned: Option<&Vec<TokenTreeIr>>,
)
    ensures
        tokens_view(final(tokens)@) == tokens_view(old(tokens)@) + receiver_type_view(
            kind,
            tokens_view(target@),
            match owned {
                Some(owned) => Some(tokens_view(owned@)),
                None => None,
            },
        ),
{
    let ghost typed = tokens_view(tokens@);
    if kind == ReceiverKindIr::Value {
        append_tokens(tokens, target);
    } else if owned.is_some() {
        match owned {
            Some(owned) => append_tokens(tokens, owned),
            None => {},
        }
    } else if kind == ReceiverKindIr::MutableReference {
        push_punct(tokens, '&', false);
        push_ident(tokens, "mut");
        append_tokens(tokens, target);
    } else {
        push_punct(tokens, '&', false);
        append_tokens(tokens, target);
    }
    assert(tokens_view(tokens@) =~= typed + receiver_type_view(
        kind,
        tokens_view(target@),
        match owned {
            Some(owned) => Some(tokens_view(owned@)),
            None => None,
        },
    ));
}

fn push_declared_receiver(
    tokens: &mut Vec<TokenTreeIr>,
    facade: &Vec<TokenTreeIr>,
    thread_safe: bool,
    kind: ReceiverKindIr,
    target: &Vec<TokenTreeIr>,
    owned: Option<&Vec<TokenTreeIr>>,
)
    ensures
        tokens_view(final(tokens)@) == tokens_view(old(tokens)@) + declared_receiver_view(
            tokens_view(facade@),
            thread_safe,
            kind,
            tokens_view(target@),
            match owned {
                Some(owned) => Some(tokens_view(owned@)),
                None => None,
            },
        ),
{
    let ghost start = tokens_view(tokens@);
    let ghost owned_view = match owned {
        Some(owned) => Some(tokens_view(owned@)),
        None => None::<Seq<TokenView>>,
    };
    push_into_parts(tokens, "receiver");
    push_ident(tokens, "let");
    push_ident(tokens, "receiver");
    push_punct(tokens, ':', false);
    push_receiver_type(tokens, kind, target, owned);
    push_punct(tokens, '=', false);
    push_ident(tokens, "match");
    push_ident(tokens, "receiver");
    let mut arms = empty_tokens();
    push_receiver_arms(&mut arms, facade, thread_safe, kind, target, owned);
    assert(tokens_view(arms@) =~= receiver_arms_view(tokens_view(facade@), thread_safe, kind, tokens_view(target@), owned_view));
    push_group(tokens, DelimiterIr::Brace, arms);
    push_punct(tokens, ';', false);
    assert(tokens_view(tokens@) =~= start + declared_receiver_view(
        tokens_view(facade@),
        thread_safe,
        kind,
        tokens_view(target@),
        owned_view,
    ));
}

fn push_receiver_binding(
    tokens: &mut Vec<TokenTreeIr>,
    facade: &Vec<TokenTreeIr>,
    thread_safe: bool,
    method: &MethodIr,
    target: &Vec<TokenTreeIr>,
    owned: Option<&Vec<TokenTreeIr>>,
    extension: Option<&Vec<TokenTreeIr>>,
)
    ensures
        tokens_view(final(tokens)@) == tokens_view(old(tokens)@) + receiver_binding_view(
            tokens_view(facade@),
            thread_safe,
            *method,
            tokens_view(target@),
            match owned {
                Some(owned) => Some(tokens_view(owned@)),
                None => None,
            },
            match extension {
                Some(extension) => Some(tokens_view(extension@)),
                None => None,
            },
        ),
{
    match extension {
        Some(receiver) => push_extension_binding(tokens, facade, thread_safe, target, receiver),
        None => match &method.receiver {
            None => push_into_parts(tokens, "_receiver"),
            Some(receiver) => push_declared_receiver(tokens, facade, thread_safe, receiver.kind, target, owned),
        },
    }
}

// ---------------------------------------------------------------------------
// Validation and the call
// ---------------------------------------------------------------------------

/// Pushes `items` separated by commas.
fn push_comma_separated(tokens: &mut Vec<TokenTreeIr>, items: &Vec<Vec<TokenTreeIr>>)
    ensures
        tokens_view(final(tokens)@) == tokens_view(old(tokens)@) + comma_separated(token_lists_view(items@)),
{
    let ghost start = tokens_view(tokens@);
    let ghost lists = token_lists_view(items@);
    let mut index: usize = 0;
    assert(lists.take(0) =~= Seq::<Seq<TokenView>>::empty());
    assert(start + Seq::<TokenView>::empty() =~= start);
    while index < items.len()
        invariant
            index <= items@.len(),
            lists == token_lists_view(items@),
            lists.len() == items@.len(),
            tokens_view(tokens@) == start + comma_separated(lists.take(index as int)),
        decreases items.len() - index,
    {
        let ghost before = tokens_view(tokens@);
        if index > 0 {
            push_punct(tokens, ',', false);
        }
        append_tokens(tokens, &items[index]);
        proof {
            let taken = lists.take(index + 1);
            assert(taken.drop_last() =~= lists.take(index as int));
            assert(taken.last() == tokens_view(items@[index as int]@));
            if index == 0 {
                assert(tokens_view(tokens@) =~= start + comma_separated(taken));
            } else {
                assert(tokens_view(tokens@) =~= start + comma_separated(taken));
            }
        }
        index += 1;
    }
    assert(lists.take(index as int) =~= lists);
}

/// The runtime expectations of the positional parameters.
pub open spec fn expectations_view(facade: Seq<TokenView>, parameters: Seq<ParameterIr>) -> Seq<TokenView> {
    comma_separated(parameters.map_values(|parameter: ParameterIr| argument_expectation_view(facade, parameter)))
}

/// `invocation.validate(&identity, receiver, &[expectations],)?`, or
/// `invocation.validate_arguments(&identity, &[expectations])?` when a
/// registered receiver adapter takes the receiver.
pub open spec fn validation_view(
    facade: Seq<TokenView>,
    method: MethodIr,
    target: Seq<TokenView>,
    owned: Option<Seq<TokenView>>,
    extension: bool,
) -> Seq<TokenView> {
    let expectations = group_view(DelimiterIr::Bracket, expectations_view(facade, method.parameters@));
    seq![ident_view("invocation"@), punct_view('.', false)] + if extension {
        seq![
            ident_view("validate_arguments"@),
            group_view(
                DelimiterIr::Parenthesis,
                seq![
                    punct_view('&', false),
                    ident_view("identity"@),
                    punct_view(',', false),
                    punct_view('&', false),
                    expectations,
                ],
            ),
        ]
    } else {
        seq![
            ident_view("validate"@),
            group_view(
                DelimiterIr::Parenthesis,
                seq![punct_view('&', false), ident_view("identity"@), punct_view(',', false)]
                    + receiver_expectation_view(facade, method, target, owned) + seq![
                    punct_view(',', false),
                    punct_view('&', false),
                    expectations,
                    punct_view(',', false),
                ],
            ),
        ]
    } + seq![punct_view('?', false)]
}

fn expectations(facade: &Vec<TokenTreeIr>, parameters: &Vec<ParameterIr>) -> (tokens: Vec<TokenTreeIr>)
    ensures
        tokens_view(tokens@) == expectations_view(tokens_view(facade@), parameters@),
{
    let mut items: Vec<Vec<TokenTreeIr>> = Vec::new();
    let ghost wanted = parameters@.map_values(
        |parameter: ParameterIr| argument_expectation_view(tokens_view(facade@), parameter),
    );
    let mut index: usize = 0;
    while index < parameters.len()
        invariant
            index <= parameters@.len(),
            wanted == parameters@.map_values(
                |parameter: ParameterIr| argument_expectation_view(tokens_view(facade@), parameter),
            ),
            token_lists_view(items@) == wanted.take(index as int),
        decreases parameters.len() - index,
    {
        let item = argument_expectation(&parameters[index], facade);
        let ghost before = items@;
        items.push(item);
        proof {
            assert(token_lists_view(items@) =~= token_lists_view(before).push(tokens_view(items@[index as int]@)));
            assert(wanted.take(index + 1) =~= wanted.take(index as int).push(wanted[index as int]));
        }
        index += 1;
    }
    assert(wanted.take(index as int) =~= wanted);
    let mut tokens = empty_tokens();
    push_comma_separated(&mut tokens, &items);
    assert(tokens_view(tokens@) =~= expectations_view(tokens_view(facade@), parameters@));
    tokens
}

#[verifier::rlimit(60)]
fn push_validation(
    tokens: &mut Vec<TokenTreeIr>,
    facade: &Vec<TokenTreeIr>,
    method: &MethodIr,
    target: &Vec<TokenTreeIr>,
    owned: Option<&Vec<TokenTreeIr>>,
    extension: bool,
)
    ensures
        tokens_view(final(tokens)@) == tokens_view(old(tokens)@) + validation_view(
            tokens_view(facade@),
            *method,
            tokens_view(target@),
            match owned {
                Some(owned) => Some(tokens_view(owned@)),
                None => None,
            },
            extension,
        ),
{
    let ghost start = tokens_view(tokens@);
    let ghost owned_view = match owned {
        Some(owned) => Some(tokens_view(owned@)),
        None => None::<Seq<TokenView>>,
    };
    let listed = expectations(facade, &method.parameters);
    let ghost expectations_group = group_view(DelimiterIr::Bracket, tokens_view(listed@));
    push_ident(tokens, "invocation");
    push_punct(tokens, '.', false);
    let ghost called = tokens_view(tokens@);
    let mut inner = empty_tokens();
    push_punct(&mut inner, '&', false);
    push_ident(&mut inner, "identity");
    push_punct(&mut inner, ',', false);
    if extension {
        push_ident(tokens, "validate_arguments");
        push_punct(&mut inner, '&', false);
        push_group(&mut inner, DelimiterIr::Bracket, listed);
        assert(tokens_view(inner@) =~= seq![
            punct_view('&', false),
            ident_view("identity"@),
            punct_view(',', false),
            punct_view('&', false),
            expectations_group,
        ]);
        push_group(tokens, DelimiterIr::Parenthesis, inner);
    } else {
        push_ident(tokens, "validate");
        let ghost opened = tokens_view(inner@);
        push_receiver_expectation(&mut inner, facade, method, target, owned);
        push_punct(&mut inner, ',', false);
        push_punct(&mut inner, '&', false);
        push_group(&mut inner, DelimiterIr::Bracket, listed);
        push_punct(&mut inner, ',', false);
        assert(tokens_view(inner@) =~= seq![punct_view('&', false), ident_view("identity"@), punct_view(',', false)]
            + receiver_expectation_view(tokens_view(facade@), *method, tokens_view(target@), owned_view) + seq![
            punct_view(',', false),
            punct_view('&', false),
            expectations_group,
            punct_view(',', false),
        ]);
        push_group(tokens, DelimiterIr::Parenthesis, inner);
    }
    push_punct(tokens, '?', false);
    assert(tokens_view(tokens@) =~= start + validation_view(
        tokens_view(facade@),
        *method,
        tokens_view(target@),
        owned_view,
        extension,
    ));
}

/// The locals that hold the positional arguments, one item each.
pub open spec fn argument_items(parameters: Seq<ParameterIr>) -> Seq<Seq<TokenView>> {
    parameters.map_values(|parameter: ParameterIr| seq![ident_view(argument_name(parameter.index))])
}

/// `::<arguments>` after the method name, when the call names concrete
/// generic arguments.
pub open spec fn generic_call_view(arguments: Seq<Seq<TokenView>>) -> Seq<TokenView> {
    if arguments.len() == 0 {
        Seq::empty()
    } else {
        colons_view() + seq![punct_view('<', false)] + comma_separated(arguments) + seq![punct_view('>', false)]
    }
}

/// `<target as trait>::name::<generics>(receiver, arguments...)`: the call of
/// the method, through the trait when it implements one, with the method
/// name at its own span.
pub open spec fn call_view(
    method: MethodIr,
    target: Seq<TokenView>,
    trait_path: Option<Seq<TokenView>>,
    generics: Seq<Seq<TokenView>>,
    with_receiver: bool,
) -> Seq<TokenView> {
    seq![punct_view('<', false)] + target + match trait_path {
        Some(path) => seq![ident_view("as"@)] + path,
        None => Seq::empty(),
    } + seq![punct_view('>', false)] + colons_view() + seq![TokenView::Ident(method.name@, method.span)]
        + generic_call_view(generics) + seq![
        group_view(
            DelimiterIr::Parenthesis,
            if with_receiver {
                seq![ident_view("receiver"@), punct_view(',', false)]
            } else {
                Seq::empty()
            } + comma_separated(argument_items(method.parameters@)),
        ),
    ]
}

fn argument_locals(parameters: &Vec<ParameterIr>) -> (items: Vec<Vec<TokenTreeIr>>)
    ensures
        token_lists_view(items@) == argument_items(parameters@),
{
    let mut items: Vec<Vec<TokenTreeIr>> = Vec::new();
    let mut index: usize = 0;
    while index < parameters.len()
        invariant
            index <= parameters@.len(),
            token_lists_view(items@) == argument_items(parameters@).take(index as int),
        decreases parameters.len() - index,
    {
        let mut item = empty_tokens();
        let name = argument_name_of(parameters[index].index);
        push_token(&mut item, TokenTreeIr::Ident { name, span: crate::ir::CALL_SITE_SPAN });
        assert(tokens_view(item@) =~= seq![ident_view(argument_name(parameters@[index as int].index))]);
        let ghost before = items@;
        items.push(item);
        proof {
            assert(token_lists_view(items@) =~= token_lists_view(before).push(tokens_view(items@[index as int]@)));
            assert(argument_items(parameters@).take(index + 1) =~= argument_items(parameters@).take(index as int).push(
                argument_items(parameters@)[index as int],
            ));
        }
        index += 1;
    }
    assert(argument_items(parameters@).take(index as int) =~= argument_items(parameters@));
    items
}

/// Returns the call of a method.
pub fn method_call(
    method: &MethodIr,
    target: &Vec<TokenTreeIr>,
    trait_path: &Option<Vec<TokenTreeIr>>,
    generics: &Vec<Vec<TokenTreeIr>>,
    with_receiver: bool,
) -> (tokens: Vec<TokenTreeIr>)
    ensures
        tokens_view(tokens@) == call_view(
            *method,
            tokens_view(target@),
            match trait_path {
                Some(path) => Some(tokens_view(path@)),
                None => None,
            },
            token_lists_view(generics@),
            with_receiver,
        ),
{
    let mut tokens = empty_tokens();
    push_punct(&mut tokens, '<', false);
    append_tokens(&mut tokens, target);
    let ghost head = tokens_view(tokens@);
    match trait_path {
        Some(path) => {
            push_ident(&mut tokens, "as");
            append_tokens(&mut tokens, path);
            assert(tokens_view(tokens@) =~= head + (seq![ident_view("as"@)] + tokens_view(path@)));
        },
        None => {
            assert(tokens_view(tokens@) =~= head + Seq::<TokenView>::empty());
        },
    }
    push_punct(&mut tokens, '>', false);
    push_colons(&mut tokens);
    push_token(&mut tokens, TokenTreeIr::Ident { name: method.name.clone(), span: method.span });
    let ghost named = tokens_view(tokens@);
    if generics.len() > 0 {
        push_colons(&mut tokens);
        push_punct(&mut tokens, '<', false);
        push_comma_separated(&mut tokens, generics);
        push_punct(&mut tokens, '>', false);
        assert(tokens_view(tokens@) =~= named + generic_call_view(token_lists_view(generics@)));
    } else {
        assert(tokens_view(tokens@) =~= named + generic_call_view(token_lists_view(generics@)));
    }
    let mut arguments = empty_tokens();
    if with_receiver {
        push_ident(&mut arguments, "receiver");
        push_punct(&mut arguments, ',', false);
    }
    let ghost receiver_part = tokens_view(arguments@);
    push_comma_separated(&mut arguments, &argument_locals(&method.parameters));
    assert(receiver_part =~= if with_receiver {
        seq![ident_view("receiver"@), punct_view(',', false)]
    } else {
        Seq::<TokenView>::empty()
    });
    push_group(&mut tokens, DelimiterIr::Parenthesis, arguments);
    assert(tokens_view(tokens@) =~= call_view(
        *method,
        tokens_view(target@),
        match trait_path {
            Some(path) => Some(tokens_view(path@)),
            None => None,
        },
        token_lists_view(generics@),
        with_receiver,
    ));
    tokens
}

// ---------------------------------------------------------------------------
// What the call returns
// ---------------------------------------------------------------------------

/// `facade::__private::codegen_v2::invoke::InvocationOutput::variant`.
pub open spec fn output_path_view(facade: Seq<TokenView>, variant: Seq<char>) -> Seq<TokenView> {
    private_view(facade, seq!["invoke"@, "InvocationOutput"@, variant])
}

/// `facade::__private::codegen_v2::value::family::<mode>::function(inner)`.
pub open spec fn wrapped_view(
    facade: Seq<TokenView>,
    thread_safe: bool,
    family: Seq<char>,
    function: Seq<char>,
    inner: Seq<TokenView>,
) -> Seq<TokenView> {
    private_view(facade, seq!["value"@, family]) + colons_view() + seq![punct_view('<', false)] + mode_view(
        facade,
        thread_safe,
    ) + seq![punct_view('>', false)] + colons_view() + seq![
        ident_view(function),
        group_view(DelimiterIr::Parenthesis, inner),
    ]
}

/// `InvocationOutput::Owned(DynamicOwned::<mode>::new(inner),)`.
pub open spec fn owned_output_view(facade: Seq<TokenView>, thread_safe: bool, inner: Seq<TokenView>) -> Seq<TokenView> {
    output_path_view(facade, "Owned"@) + seq![
        group_view(
            DelimiterIr::Parenthesis,
            wrapped_view(facade, thread_safe, "DynamicOwned"@, "new"@, inner) + seq![punct_view(',', false)],
        ),
    ]
}

/// `facade::__private::codegen_v2::invoke::BorrowOrigin::variant`.
pub open spec fn borrow_origin_view(facade: Seq<TokenView>, variant: Seq<char>) -> Seq<TokenView> {
    private_view(facade, seq!["invoke"@, "BorrowOrigin"@, variant])
}

/// A `usize` literal.
pub open spec fn usize_literal(value: usize) -> Seq<char> {
    decimal(value as nat) + "usize"@
}

/// The borrow origins of the parameters passed by reference, in order.
pub open spec fn parameter_origins(facade: Seq<TokenView>, parameters: Seq<ParameterIr>) -> Seq<Seq<TokenView>>
    decreases parameters.len(),
{
    if parameters.len() == 0 {
        Seq::empty()
    } else {
        parameter_origins(facade, parameters.drop_last()) + if parameters.last().ty.kind is Reference {
            seq![
                borrow_origin_view(facade, "Parameter"@) + seq![
                    group_view(DelimiterIr::Parenthesis, seq![literal_view(usize_literal(parameters.last().index))]),
                ],
            ]
        } else {
            Seq::empty()
        }
    }
}

/// Where a returned shared borrow may come from: the receiver, then each
/// parameter passed by reference.
pub open spec fn origin_items(facade: Seq<TokenView>, method: MethodIr) -> Seq<Seq<TokenView>> {
    let receiver = if method.receiver is Some {
        seq![borrow_origin_view(facade, "Receiver"@)]
    } else {
        Seq::empty()
    };
    receiver + parameter_origins(facade, method.parameters@)
}

/// What a synchronous call completes with: unit, a shared borrow with its
/// origins, a mutable borrow of the receiver, nothing for `!`, or an owned
/// value (`comma` adds a comma after the call inside the constructor).
pub open spec fn completion_view(
    facade: Seq<TokenView>,
    thread_safe: bool,
    method: MethodIr,
    call: Seq<TokenView>,
    comma: bool,
) -> Seq<TokenView> {
    match method.return_type {
        ReturnTypeIr::Unit => call + seq![punct_view(';', false)] + output_path_view(facade, "Unit"@),
        ReturnTypeIr::Type(ty) => match ty.kind {
            TypeKindIr::Reference { mutable, element, .. } => if !mutable {
                output_path_view(facade, "Ref"@) + seq![
                    group_view(
                        DelimiterIr::Brace,
                        seq![ident_view("value"@), punct_view(':', false)] + wrapped_view(
                            facade,
                            thread_safe,
                            "DynamicRef"@,
                            if str_type(*element) { "new_str"@ } else { "new"@ },
                            call,
                        ) + seq![punct_view(',', false), ident_view("origins"@), punct_view(':', false)]
                            + std_path_view(seq!["std"@, "boxed"@, "Box"@]) + colons_view() + seq![
                            ident_view("new"@),
                            group_view(
                                DelimiterIr::Parenthesis,
                                seq![group_view(DelimiterIr::Bracket, comma_separated(origin_items(facade, method)))],
                            ),
                            punct_view(',', false),
                        ],
                    ),
                ]
            } else {
                output_path_view(facade, "Mut"@) + seq![
                    group_view(
                        DelimiterIr::Brace,
                        seq![ident_view("value"@), punct_view(':', false)] + wrapped_view(
                            facade,
                            thread_safe,
                            "DynamicMut"@,
                            if str_type(*element) { "new_str_mut"@ } else { "new"@ },
                            call,
                        ) + seq![punct_view(',', false), ident_view("origin"@), punct_view(':', false)]
                            + borrow_origin_view(facade, "Receiver"@) + seq![punct_view(',', false)],
                    ),
                ]
            },
            TypeKindIr::Never => seq![ident_view("match"@)] + call + seq![group_view(DelimiterIr::Brace, Seq::empty())],
            _ => owned_output_view(
                facade,
                thread_safe,
                call + if comma { seq![punct_view(',', false)] } else { Seq::empty() },
            ),
        },
    }
}

/// What an `async` call completes with: a reflected future that awaits the
/// call.
pub open spec fn future_view(facade: Seq<TokenView>, thread_safe: bool, method: MethodIr, call: Seq<TokenView>) -> Seq<
    TokenView,
> {
    let awaited = call + seq![punct_view('.', false), ident_view("await"@)];
    let inner = match method.return_type {
        ReturnTypeIr::Unit => awaited + seq![punct_view(';', false)] + output_path_view(facade, "Unit"@),
        ReturnTypeIr::Type(ty) => if ty.kind is Never {
            seq![ident_view("match"@)] + awaited + seq![group_view(DelimiterIr::Brace, Seq::empty())]
        } else {
            owned_output_view(facade, thread_safe, awaited)
        },
    };
    output_path_view(facade, "Future"@) + seq![
        group_view(
            DelimiterIr::Parenthesis,
            private_view(facade, seq!["invoke"@, "ReflectedFuture"@]) + colons_view() + seq![punct_view('<', false)]
                + mode_view(facade, thread_safe) + seq![punct_view('>', false)] + colons_view() + seq![
                ident_view("new"@),
                group_view(
                    DelimiterIr::Parenthesis,
                    seq![ident_view("async"@), ident_view("move"@), group_view(DelimiterIr::Brace, inner)],
                ),
                punct_view(',', false),
            ],
        ),
    ]
}

/// `let mut arguments = arguments.into_vec().into_iter();`.
pub open spec fn arguments_iter_view() -> Seq<TokenView> {
    seq![
        ident_view("let"@),
        ident_view("mut"@),
        ident_view("arguments"@),
        punct_view('=', false),
        ident_view("arguments"@),
        punct_view('.', false),
        ident_view("into_vec"@),
        group_view(DelimiterIr::Parenthesis, Seq::empty()),
        punct_view('.', false),
        ident_view("into_iter"@),
        group_view(DelimiterIr::Parenthesis, Seq::empty()),
        punct_view(';', false),
    ]
}

fn push_output_path(tokens: &mut Vec<TokenTreeIr>, facade: &Vec<TokenTreeIr>, variant: &str)
    ensures
        tokens_view(final(tokens)@) == tokens_view(old(tokens)@) + output_path_view(tokens_view(facade@), variant@),
{
    push_private3(tokens, facade, "invoke", "InvocationOutput", variant);
}

fn push_wrapped(
    tokens: &mut Vec<TokenTreeIr>,
    facade: &Vec<TokenTreeIr>,
    thread_safe: bool,
    family: &str,
    function: &str,
    inner: Vec<TokenTreeIr>,
)
    ensures
        tokens_view(final(tokens)@) == tokens_view(old(tokens)@) + wrapped_view(
            tokens_view(facade@),
            thread_safe,
            family@,
            function@,
            tokens_view(inner@),
        ),
{
    let ghost start = tokens_view(tokens@);
    let ghost inner_view = tokens_view(inner@);
    push_private2(tokens, facade, "value", family);
    push_colons(tokens);
    push_punct(tokens, '<', false);
    push_mode(tokens, facade, thread_safe);
    push_punct(tokens, '>', false);
    push_colons(tokens);
    push_ident(tokens, function);
    push_group(tokens, DelimiterIr::Parenthesis, inner);
    assert(tokens_view(tokens@) =~= start + wrapped_view(tokens_view(facade@), thread_safe, family@, function@, inner_view));
}

fn push_owned_output(tokens: &mut Vec<TokenTreeIr>, facade: &Vec<TokenTreeIr>, thread_safe: bool, inner: Vec<TokenTreeIr>)
    ensures
        tokens_view(final(tokens)@) == tokens_view(old(tokens)@) + owned_output_view(
            tokens_view(facade@),
            thread_safe,
            tokens_view(inner@),
        ),
{
    let ghost start = tokens_view(tokens@);
    let ghost inner_view = tokens_view(inner@);
    push_output_path(tokens, facade, "Owned");
    let mut body = empty_tokens();
    push_wrapped(&mut body, facade, thread_safe, "DynamicOwned", "new", inner);
    push_punct(&mut body, ',', false);
    assert(tokens_view(body@) =~= wrapped_view(tokens_view(facade@), thread_safe, "DynamicOwned"@, "new"@, inner_view)
        + seq![punct_view(',', false)]);
    push_group(tokens, DelimiterIr::Parenthesis, body);
    assert(tokens_view(tokens@) =~= start + owned_output_view(tokens_view(facade@), thread_safe, inner_view));
}

fn usize_literal_of(value: usize) -> (text: String)
    ensures
        text@ == usize_literal(value),
{
    let digits = decimal_string(value);
    crate::text::join2(digits.as_str(), "usize")
}

fn origins(facade: &Vec<TokenTreeIr>, method: &MethodIr) -> (items: Vec<Vec<TokenTreeIr>>)
    ensures
        token_lists_view(items@) == origin_items(tokens_view(facade@), *method),
{
    let mut items: Vec<Vec<TokenTreeIr>> = Vec::new();
    if method.receiver.is_some() {
        let mut item = empty_tokens();
        push_private3(&mut item, facade, "invoke", "BorrowOrigin", "Receiver");
        assert(tokens_view(item@) =~= borrow_origin_view(tokens_view(facade@), "Receiver"@));
        items.push(item);
    }
    let ghost head = token_lists_view(items@);
    assert(head =~= if method.receiver is Some {
        seq![borrow_origin_view(tokens_view(facade@), "Receiver"@)]
    } else {
        Seq::<Seq<TokenView>>::empty()
    });
    let mut index: usize = 0;
    assert(method.parameters@.take(0) =~= Seq::<ParameterIr>::empty());
    assert(head + Seq::<Seq<TokenView>>::empty() =~= head);
    while index < method.parameters.len()
        invariant
            index <= method.parameters@.len(),
            token_lists_view(items@) == head + parameter_origins(
                tokens_view(facade@),
                method.parameters@.take(index as int),
            ),
        decreases method.parameters.len() - index,
    {
        let parameter = &method.parameters[index];
        let ghost before = token_lists_view(items@);
        let reference = match &parameter.ty.kind {
            TypeKindIr::Reference { .. } => true,
            _ => false,
        };
        if reference {
            let mut item = empty_tokens();
            push_private3(&mut item, facade, "invoke", "BorrowOrigin", "Parameter");
            let mut inner = empty_tokens();
            push_literal(&mut inner, usize_literal_of(parameter.index));
            push_group(&mut item, DelimiterIr::Parenthesis, inner);
            assert(tokens_view(item@) =~= borrow_origin_view(tokens_view(facade@), "Parameter"@) + seq![
                group_view(DelimiterIr::Parenthesis, seq![literal_view(usize_literal(parameter.index))]),
            ]);
            let ghost listed = items@;
            items.push(item);
            assert(token_lists_view(items@) =~= token_lists_view(listed).push(tokens_view(items@[items@.len() - 1]@)));
        }
        proof {
            let taken = method.parameters@.take(index + 1);
            assert(taken.drop_last() =~= method.parameters@.take(index as int));
            assert(taken.last() == *parameter);
            assert(token_lists_view(items@) =~= head + parameter_origins(tokens_view(facade@), taken));
        }
        index += 1;
    }
    assert(method.parameters@.take(index as int) =~= method.parameters@);
    items
}

fn push_shared_output(
    tokens: &mut Vec<TokenTreeIr>,
    facade: &Vec<TokenTreeIr>,
    thread_safe: bool,
    method: &MethodIr,
    function: &str,
    call: &Vec<TokenTreeIr>,
)
    ensures
        tokens_view(final(tokens)@) == tokens_view(old(tokens)@) + output_path_view(tokens_view(facade@), "Ref"@) + seq![
            group_view(
                DelimiterIr::Brace,
                seq![ident_view("value"@), punct_view(':', false)] + wrapped_view(
                    tokens_view(facade@),
                    thread_safe,
                    "DynamicRef"@,
                    function@,
                    tokens_view(call@),
                ) + seq![punct_view(',', false), ident_view("origins"@), punct_view(':', false)] + std_path_view(
                    seq!["std"@, "boxed"@, "Box"@],
                ) + colons_view() + seq![
                    ident_view("new"@),
                    group_view(
                        DelimiterIr::Parenthesis,
                        seq![
                            group_view(
                                DelimiterIr::Bracket,
                                comma_separated(origin_items(tokens_view(facade@), *method)),
                            ),
                        ],
                    ),
                    punct_view(',', false),
                ],
            ),
        ],
{
    push_output_path(tokens, facade, "Ref");
    let mut body = empty_tokens();
    push_ident(&mut body, "value");
    push_punct(&mut body, ':', false);
    push_wrapped(&mut body, facade, thread_safe, "DynamicRef", function, crate::codegen::copy_tokens(call));
    push_punct(&mut body, ',', false);
    push_ident(&mut body, "origins");
    push_punct(&mut body, ':', false);
    append_tokens(&mut body, &std_path3("std", "boxed", "Box"));
    push_colons(&mut body);
    push_ident(&mut body, "new");
    let mut list = empty_tokens();
    push_comma_separated(&mut list, &origins(facade, method));
    let mut bracketed = empty_tokens();
    push_group(&mut bracketed, DelimiterIr::Bracket, list);
    push_group(&mut body, DelimiterIr::Parenthesis, bracketed);
    push_punct(&mut body, ',', false);
    assert(tokens_view(body@) =~= seq![ident_view("value"@), punct_view(':', false)] + wrapped_view(
        tokens_view(facade@),
        thread_safe,
        "DynamicRef"@,
        function@,
        tokens_view(call@),
    ) + seq![punct_view(',', false), ident_view("origins"@), punct_view(':', false)] + std_path_view(
        seq!["std"@, "boxed"@, "Box"@],
    ) + colons_view() + seq![
        ident_view("new"@),
        group_view(
            DelimiterIr::Parenthesis,
            seq![group_view(DelimiterIr::Bracket, comma_separated(origin_items(tokens_view(facade@), *method)))],
        ),
        punct_view(',', false),
    ]);
    push_group(tokens, DelimiterIr::Brace, body);
}

fn push_mutable_output(
    tokens: &mut Vec<TokenTreeIr>,
    facade: &Vec<TokenTreeIr>,
    thread_safe: bool,
    function: &str,
    call: &Vec<TokenTreeIr>,
)
    ensures
        tokens_view(final(tokens)@) == tokens_view(old(tokens)@) + output_path_view(tokens_view(facade@), "Mut"@) + seq![
            group_view(
                DelimiterIr::Brace,
                seq![ident_view("value"@), punct_view(':', false)] + wrapped_view(
                    tokens_view(facade@),
                    thread_safe,
                    "DynamicMut"@,
                    function@,
                    tokens_view(call@),
                ) + seq![punct_view(',', false), ident_view("origin"@), punct_view(':', false)] + borrow_origin_view(
                    tokens_view(facade@),
                    "Receiver"@,
                ) + seq![punct_view(',', false)],
            ),
        ],
{
    push_output_path(tokens, facade, "Mut");
    let mut body = empty_tokens();
    push_ident(&mut body, "value");
    push_punct(&mut body, ':', false);
    push_wrapped(&mut body, facade, thread_safe, "DynamicMut", function, crate::codegen::copy_tokens(call));
    push_punct(&mut body, ',', false);
    push_ident(&mut body, "origin");
    push_punct(&mut body, ':', false);
    push_private3(&mut body, facade, "invoke", "BorrowOrigin", "Receiver");
    push_punct(&mut body, ',', false);
    assert(tokens_view(body@) =~= seq![ident_view("value"@), punct_view(':', false)] + wrapped_view(
        tokens_view(facade@),
        thread_safe,
        "DynamicMut"@,
        function@,
        tokens_view(call@),
    ) + seq![punct_view(',', false), ident_view("origin"@), punct_view(':', false)] + borrow_origin_view(
        tokens_view(facade@),
        "Receiver"@,
    ) + seq![punct_view(',', false)]);
    push_group(tokens, DelimiterIr::Brace, body);
}

fn push_never_match(tokens: &mut Vec<TokenTreeIr>, call: &Vec<TokenTreeIr>)
    ensures
        tokens_view(final(tokens)@) == tokens_view(old(tokens)@) + (seq![ident_view("match"@)] + tokens_view(call@)
            + seq![group_view(DelimiterIr::Brace, Seq::empty())]),
{
    let ghost start = tokens_view(tokens@);
    push_ident(tokens, "match");
    append_tokens(tokens, call);
    push_group(tokens, DelimiterIr::Brace, empty_tokens());
    assert(tokens_view(tokens@) =~= start + (seq![ident_view("match"@)] + tokens_view(call@) + seq![
        group_view(DelimiterIr::Brace, Seq::empty()),
    ]));
}

fn push_unit_completion(tokens: &mut Vec<TokenTreeIr>, facade: &Vec<TokenTreeIr>, call: &Vec<TokenTreeIr>)
    ensures
        tokens_view(final(tokens)@) == tokens_view(old(tokens)@) + (tokens_view(call@) + seq![punct_view(';', false)]
            + output_path_view(tokens_view(facade@), "Unit"@)),
{
    let ghost start = tokens_view(tokens@);
    append_tokens(tokens, call);
    push_punct(tokens, ';', false);
    push_output_path(tokens, facade, "Unit");
    assert(tokens_view(tokens@) =~= start + (tokens_view(call@) + seq![punct_view(';', false)] + output_path_view(
        tokens_view(facade@),
        "Unit"@,
    )));
}

#[verifier::rlimit(50)]
fn push_completion(
    tokens: &mut Vec<TokenTreeIr>,
    facade: &Vec<TokenTreeIr>,
    thread_safe: bool,
    method: &MethodIr,
    call: &Vec<TokenTreeIr>,
    comma: bool,
)
    ensures
        tokens_view(final(tokens)@) == tokens_view(old(tokens)@) + completion_view(
            tokens_view(facade@),
            thread_safe,
            *method,
            tokens_view(call@),
            comma,
        ),
{
    let ghost start = tokens_view(tokens@);
    match &method.return_type {
        ReturnTypeIr::Unit => push_unit_completion(tokens, facade, call),
        ReturnTypeIr::Type(ty) => match &ty.kind {
            TypeKindIr::Reference { mutable, element, .. } => if !*mutable {
                let function = if is_str_type(element) { "new_str" } else { "new" };
                push_shared_output(tokens, facade, thread_safe, method, function, call);
            } else {
                let function = if is_str_type(element) { "new_str_mut" } else { "new" };
                push_mutable_output(tokens, facade, thread_safe, function, call);
            },
            TypeKindIr::Never => push_never_match(tokens, call),
            _ => {
                let mut inner = crate::codegen::copy_tokens(call);
                if comma {
                    push_punct(&mut inner, ',', false);
                }
                assert(tokens_view(inner@) =~= tokens_view(call@) + if comma {
                    seq![punct_view(',', false)]
                } else {
                    Seq::<TokenView>::empty()
                });
                push_owned_output(tokens, facade, thread_safe, inner);
            },
        },
    }
    assert(tokens_view(tokens@) =~= start + completion_view(
        tokens_view(facade@),
        thread_safe,
        *method,
        tokens_view(call@),
        comma,
    ));
}

fn push_future(
    tokens: &mut Vec<TokenTreeIr>,
    facade: &Vec<TokenTreeIr>,
    thread_safe: bool,
    method: &MethodIr,
    call: &Vec<TokenTreeIr>,
)
    ensures
        tokens_view(final(tokens)@) == tokens_view(old(tokens)@) + future_view(
            tokens_view(facade@),
            thread_safe,
            *method,
            tokens_view(call@),
        ),
{
    let ghost start = tokens_view(tokens@);
    let mut awaited = crate::codegen::copy_tokens(call);
    push_punct(&mut awaited, '.', false);
    push_ident(&mut awaited, "await");
    let ghost awaited_view = tokens_view(awaited@);
    assert(awaited_view =~= tokens_view(call@) + seq![punct_view('.', false), ident_view("await"@)]);
    let mut inner = empty_tokens();
    match &method.return_type {
        ReturnTypeIr::Unit => push_unit_completion(&mut inner, facade, &awaited),
        ReturnTypeIr::Type(ty) => match &ty.kind {
            TypeKindIr::Never => push_never_match(&mut inner, &awaited),
            _ => push_owned_output(&mut inner, facade, thread_safe, awaited),
        },
    }
    let ghost inner_view = tokens_view(inner@);
    assert(inner_view =~= match method.return_type {
        ReturnTypeIr::Unit => awaited_view + seq![punct_view(';', false)] + output_path_view(tokens_view(facade@), "Unit"@),
        ReturnTypeIr::Type(ty) => if ty.kind is Never {
            seq![ident_view("match"@)] + awaited_view + seq![group_view(DelimiterIr::Brace, Seq::empty())]
        } else {
            owned_output_view(tokens_view(facade@), thread_safe, awaited_view)
        },
    });
    let mut block = empty_tokens();
    push_ident(&mut block, "async");
    push_ident(&mut block, "move");
    push_group(&mut block, DelimiterIr::Brace, inner);
    assert(tokens_view(block@) =~= seq![ident_view("async"@), ident_view("move"@), group_view(DelimiterIr::Brace, inner_view)]);
    let mut body = empty_tokens();
    push_private2(&mut body, facade, "invoke", "ReflectedFuture");
    push_colons(&mut body);
    push_punct(&mut body, '<', false);
    push_mode(&mut body, facade, thread_safe);
    push_punct(&mut body, '>', false);
    push_colons(&mut body);
    push_ident(&mut body, "new");
    push_group(&mut body, DelimiterIr::Parenthesis, block);
    push_punct(&mut body, ',', false);
    let ghost body_view = tokens_view(body@);
    assert(body_view =~= private_view(tokens_view(facade@), seq!["invoke"@, "ReflectedFuture"@]) + colons_view() + seq![
        punct_view('<', false),
    ] + mode_view(tokens_view(facade@), thread_safe) + seq![punct_view('>', false)] + colons_view() + seq![
        ident_view("new"@),
        group_view(
            DelimiterIr::Parenthesis,
            seq![ident_view("async"@), ident_view("move"@), group_view(DelimiterIr::Brace, inner_view)],
        ),
        punct_view(',', false),
    ]);
    push_output_path(tokens, facade, "Future");
    push_group(tokens, DelimiterIr::Parenthesis, body);
    assert(tokens_view(tokens@) =~= start + future_view(tokens_view(facade@), thread_safe, *method, tokens_view(call@)));
}

fn push_arguments_iter(tokens: &mut Vec<TokenTreeIr>)
    ensures
        tokens_view(final(tokens)@) == tokens_view(old(tokens)@) + arguments_iter_view(),
{
    let ghost start = tokens_view(tokens@);
    push_ident(tokens, "let");
    push_ident(tokens, "mut");
    push_ident(tokens, "arguments");
    push_punct(tokens, '=', false);
    push_ident(tokens, "arguments");
    push_empty_call(tokens, "into_vec");
    push_empty_call(tokens, "into_iter");
    push_punct(tokens, ';', false);
    assert(tokens_view(tokens@) =~= start + arguments_iter_view());
}

// ---------------------------------------------------------------------------
// The adapter functions
// ---------------------------------------------------------------------------

/// Whether the method returns `!`.
pub open spec fn returns_never(method: MethodIr) -> bool {
    match method.return_type {
        ReturnTypeIr::Type(ty) => ty.kind is Never,
        ReturnTypeIr::Unit => false,
    }
}

/// The statements after validation: the receiver and argument bindings,
/// then the call's completion or, for an `async` method, its future.
pub open spec fn output_view(
    facade: Seq<TokenView>,
    thread_safe: bool,
    method: MethodIr,
    binding: Seq<TokenView>,
    call: Seq<TokenView>,
) -> Seq<TokenView> {
    binding + arguments_iter_view() + argument_bindings_view(facade, thread_safe, method.parameters@) + if !method.qualifiers.is_async {
        completion_view(facade, thread_safe, method, call, false)
    } else {
        future_view(facade, thread_safe, method, call)
    }
}

/// `{ output }` for a synchronous method that returns `!`, `Ok({ output })`
/// otherwise.
pub open spec fn adapter_result_view(method: MethodIr, output: Seq<TokenView>) -> Seq<TokenView> {
    if !method.qualifiers.is_async && returns_never(method) {
        seq![group_view(DelimiterIr::Brace, output)]
    } else {
        seq![
            ident_view("Ok"@),
            group_view(DelimiterIr::Parenthesis, seq![group_view(DelimiterIr::Brace, output)]),
        ]
    }
}

/// `let identity = facade::..::identity::MemberId::new(source, "method", index, fragment_identity(),);`.
pub open spec fn identity_view(facade: Seq<TokenView>, source: Seq<char>, index: usize) -> Seq<TokenView> {
    seq![ident_view("let"@), ident_view("identity"@), punct_view('=', false)] + private_view(
        facade,
        seq!["identity"@, "MemberId"@],
    ) + colons_view() + seq![
        ident_view("new"@),
        group_view(
            DelimiterIr::Parenthesis,
            seq![
                literal_view(string_literal(source)),
                punct_view(',', false),
                literal_view("\"method\""@),
                punct_view(',', false),
                literal_view(usize_literal(index)),
                punct_view(',', false),
                ident_view("fragment_identity"@),
                group_view(DelimiterIr::Parenthesis, Seq::empty()),
                punct_view(',', false),
            ],
        ),
        punct_view(';', false),
    ]
}

/// `fn name<'call>(invocation: parameter,) -> ::core::result::Result<ok, error,>`.
pub open spec fn signature_view(
    name: Seq<char>,
    parameter: Seq<TokenView>,
    ok: Seq<TokenView>,
    error: Seq<TokenView>,
) -> Seq<TokenView> {
    seq![ident_view("fn"@), ident_view(name), punct_view('<', false)] + call_lifetime_view() + seq![
        punct_view('>', false),
        group_view(
            DelimiterIr::Parenthesis,
            seq![ident_view("invocation"@), punct_view(':', false)] + parameter + seq![punct_view(',', false)],
        ),
        punct_view('-', true),
        punct_view('>', false),
    ] + std_path_view(seq!["core"@, "result"@, "Result"@]) + seq![punct_view('<', false)] + ok + seq![
        punct_view(',', false),
    ] + error + seq![punct_view(',', false), punct_view('>', false)]
}

/// `facade::__private::codegen_v2::invoke::name<'call, mode>`.
pub open spec fn invoke_generic_view(facade: Seq<TokenView>, name: Seq<char>, thread_safe: bool) -> Seq<TokenView> {
    call_generic_view(private_view(facade, seq!["invoke"@, name]), mode_view(facade, thread_safe))
}

/// The adapter function: its bound assertions when thread-safe, the member
/// identity, the validation of the invocation, then the result.
pub open spec fn adapter_function_view(
    facade: Seq<TokenView>,
    thread_safe: bool,
    name: Seq<char>,
    method: MethodIr,
    target: Seq<TokenView>,
    own: Option<Seq<TokenView>>,
    source: Seq<char>,
    index: usize,
    validation: Seq<TokenView>,
    output: Seq<TokenView>,
) -> Seq<TokenView> {
    signature_view(
        name,
        invoke_generic_view(facade, "Invocation"@, thread_safe),
        invoke_generic_view(facade, "InvocationOutput"@, thread_safe),
        invoke_generic_view(facade, "InvocationFailure"@, thread_safe),
    ) + seq![
        group_view(
            DelimiterIr::Brace,
            if thread_safe {
                assertions_view(method, target, own, false)
            } else {
                Seq::empty()
            } + identity_view(facade, source, index) + seq![
                ident_view("let"@),
                ident_view("validated"@),
                punct_view('=', false),
            ] + validation + seq![punct_view(';', false)] + adapter_result_view(method, output),
        ),
    ]
}

fn push_identity(tokens: &mut Vec<TokenTreeIr>, facade: &Vec<TokenTreeIr>, source: &str, index: usize)
    ensures
        tokens_view(final(tokens)@) == tokens_view(old(tokens)@) + identity_view(tokens_view(facade@), source@, index),
{
    let ghost start = tokens_view(tokens@);
    push_ident(tokens, "let");
    push_ident(tokens, "identity");
    push_punct(tokens, '=', false);
    push_private2(tokens, facade, "identity", "MemberId");
    push_colons(tokens);
    push_ident(tokens, "new");
    let mut arguments = empty_tokens();
    push_literal(&mut arguments, string_literal_of(source));
    push_punct(&mut arguments, ',', false);
    push_literal(&mut arguments, String::from_str("\"method\""));
    push_punct(&mut arguments, ',', false);
    push_literal(&mut arguments, usize_literal_of(index));
    push_punct(&mut arguments, ',', false);
    push_ident(&mut arguments, "fragment_identity");
    push_group(&mut arguments, DelimiterIr::Parenthesis, empty_tokens());
    push_punct(&mut arguments, ',', false);
    assert(tokens_view(arguments@) =~= seq![
        literal_view(string_literal(source@)),
        punct_view(',', false),
        literal_view("\"method\""@),
        punct_view(',', false),
        literal_view(usize_literal(index)),
        punct_view(',', false),
        ident_view("fragment_identity"@),
        group_view(DelimiterIr::Parenthesis, Seq::empty()),
        punct_view(',', false),
    ]);
    push_group(tokens, DelimiterIr::Parenthesis, arguments);
    push_punct(tokens, ';', false);
    assert(tokens_view(tokens@) =~= start + identity_view(tokens_view(facade@), source@, index));
}

#[verifier::rlimit(60)]
fn push_signature(
    tokens: &mut Vec<TokenTreeIr>,
    name: &str,
    parameter: &Vec<TokenTreeIr>,
    ok: &Vec<TokenTreeIr>,
    error: &Vec<TokenTreeIr>,
)
    ensures
        tokens_view(final(tokens)@) == tokens_view(old(tokens)@) + signature_view(
            name@,
            tokens_view(parameter@),
            tokens_view(ok@),
            tokens_view(error@),
        ),
{
    let ghost start = tokens_view(tokens@);
    push_ident(tokens, "fn");
    push_ident(tokens, name);
    push_punct(tokens, '<', false);
    push_call_lifetime(tokens);
    push_punct(tokens, '>', false);
    let mut inner = empty_tokens();
    push_ident(&mut inner, "invocation");
    push_punct(&mut inner, ':', false);
    append_tokens(&mut inner, parameter);
    push_punct(&mut inner, ',', false);
    assert(tokens_view(inner@) =~= seq![ident_view("invocation"@), punct_view(':', false)] + tokens_view(parameter@)
        + seq![punct_view(',', false)]);
    push_group(tokens, DelimiterIr::Parenthesis, inner);
    push_punct(tokens, '-', true);
    push_punct(tokens, '>', false);
    append_tokens(tokens, &std_path3("core", "result", "Result"));
    push_punct(tokens, '<', false);
    append_tokens(tokens, ok);
    push_punct(tokens, ',', false);
    append_tokens(tokens, error);
    push_punct(tokens, ',', false);
    push_punct(tokens, '>', false);
    assert(tokens_view(tokens@) =~= start + signature_view(
        name@,
        tokens_view(parameter@),
        tokens_view(ok@),
        tokens_view(error@),
    ));
}

fn invoke_generic(facade: &Vec<TokenTreeIr>, name: &str, thread_safe: bool) -> (tokens: Vec<TokenTreeIr>)
    ensures
        tokens_view(tokens@) == invoke_generic_view(tokens_view(facade@), name@, thread_safe),
{
    let mut tokens = empty_tokens();
    push_call_generic(&mut tokens, facade, "invoke", name, thread_safe);
    assert(tokens_view(tokens@) =~= invoke_generic_view(tokens_view(facade@), name@, thread_safe));
    tokens
}

#[verifier::rlimit(50)]
fn push_adapter_function(
    tokens: &mut Vec<TokenTreeIr>,
    facade: &Vec<TokenTreeIr>,
    thread_safe: bool,
    name: &str,
    method: &MethodIr,
    target: &Vec<TokenTreeIr>,
    own: Option<&Vec<TokenTreeIr>>,
    source: &str,
    index: usize,
    validation: &Vec<TokenTreeIr>,
    output: Vec<TokenTreeIr>,
)
    ensures
        tokens_view(final(tokens)@) == tokens_view(old(tokens)@) + adapter_function_view(
            tokens_view(facade@),
            thread_safe,
            name@,
            *method,
            tokens_view(target@),
            match own {
                Some(own) => Some(tokens_view(own@)),
                None => None,
            },
            source@,
            index,
            tokens_view(validation@),
            tokens_view(output@),
        ),
{
    let ghost start = tokens_view(tokens@);
    let ghost own_view = match own {
        Some(own) => Some(tokens_view(own@)),
        None => None::<Seq<TokenView>>,
    };
    let ghost output_view = tokens_view(output@);
    push_signature(
        tokens,
        name,
        &invoke_generic(facade, "Invocation", thread_safe),
        &invoke_generic(facade, "InvocationOutput", thread_safe),
        &invoke_generic(facade, "InvocationFailure", thread_safe),
    );
    let mut body = empty_tokens();
    if thread_safe {
        push_assertions(&mut body, method, target, own, false);
    }
    assert(tokens_view(body@) =~= if thread_safe {
        assertions_view(*method, tokens_view(target@), own_view, false)
    } else {
        Seq::<TokenView>::empty()
    });
    let ghost asserted = tokens_view(body@);
    push_identity(&mut body, facade, source, index);
    push_ident(&mut body, "let");
    push_ident(&mut body, "validated");
    push_punct(&mut body, '=', false);
    append_tokens(&mut body, validation);
    push_punct(&mut body, ';', false);
    let ghost validated = tokens_view(body@);
    if !method.qualifiers.is_async && returns_never_of(method) {
        push_group(&mut body, DelimiterIr::Brace, output);
    } else {
        push_ident(&mut body, "Ok");
        let mut wrapped = empty_tokens();
        push_group(&mut wrapped, DelimiterIr::Brace, output);
        push_group(&mut body, DelimiterIr::Parenthesis, wrapped);
    }
    assert(tokens_view(body@) =~= validated + adapter_result_view(*method, output_view));
    assert(tokens_view(body@) =~= asserted + identity_view(tokens_view(facade@), source@, index) + seq![
        ident_view("let"@),
        ident_view("validated"@),
        punct_view('=', false),
    ] + tokens_view(validation@) + seq![punct_view(';', false)] + adapter_result_view(*method, output_view));
    push_group(tokens, DelimiterIr::Brace, body);
    assert(tokens_view(tokens@) =~= start + adapter_function_view(
        tokens_view(facade@),
        thread_safe,
        name@,
        *method,
        tokens_view(target@),
        own_view,
        source@,
        index,
        tokens_view(validation@),
        output_view,
    ));
}

fn returns_never_of(method: &MethodIr) -> (never: bool)
    ensures
        never == returns_never(*method),
{
    match &method.return_type {
        ReturnTypeIr::Type(ty) => match &ty.kind {
            TypeKindIr::Never => true,
            _ => false,
        },
        ReturnTypeIr::Unit => false,
    }
}

/// The statements of an adapter after validation.
fn output(
    facade: &Vec<TokenTreeIr>,
    thread_safe: bool,
    method: &MethodIr,
    binding: &Vec<TokenTreeIr>,
    call: &Vec<TokenTreeIr>,
) -> (tokens: Vec<TokenTreeIr>)
    ensures
        tokens_view(tokens@) == output_view(tokens_view(facade@), thread_safe, *method, tokens_view(binding@), tokens_view(call@)),
{
    let mut tokens = crate::codegen::copy_tokens(binding);
    push_arguments_iter(&mut tokens);
    push_argument_bindings(&mut tokens, facade, thread_safe, &method.parameters);
    let ghost bound = tokens_view(tokens@);
    if !method.qualifiers.is_async {
        push_completion(&mut tokens, facade, thread_safe, method, call, false);
    } else {
        push_future(&mut tokens, facade, thread_safe, method, call);
    }
    assert(tokens_view(tokens@) =~= output_view(tokens_view(facade@), thread_safe, *method, tokens_view(binding@), tokens_view(call@)));
    tokens
}

/// `match ::std::panic::catch_unwind(|| { completion }) { .. }`: a caught
/// panic becomes an invocation panic of this member.
pub open spec fn catch_match_view(facade: Seq<TokenView>, completion: Seq<TokenView>) -> Seq<TokenView> {
    seq![ident_view("match"@)] + std_path_view(seq!["std"@, "panic"@, "catch_unwind"@]) + seq![
        group_view(
            DelimiterIr::Parenthesis,
            seq![punct_view('|', true), punct_view('|', false), group_view(DelimiterIr::Brace, completion)],
        ),
        group_view(
            DelimiterIr::Brace,
            seq![
                ident_view("Ok"@),
                group_view(DelimiterIr::Parenthesis, seq![ident_view("output"@)]),
                punct_view('=', true),
                punct_view('>', false),
                ident_view("Ok"@),
                group_view(
                    DelimiterIr::Parenthesis,
                    seq![ident_view("Ok"@), group_view(DelimiterIr::Parenthesis, seq![ident_view("output"@)])],
                ),
                punct_view(',', false),
                ident_view("Err"@),
                group_view(DelimiterIr::Parenthesis, seq![ident_view("payload"@)]),
                punct_view('=', true),
                punct_view('>', false),
                ident_view("Ok"@),
                group_view(
                    DelimiterIr::Parenthesis,
                    seq![
                        ident_view("Err"@),
                        group_view(
                            DelimiterIr::Parenthesis,
                            private_view(facade, seq!["invoke"@, "InvocationPanic"@]) + colons_view() + seq![
                                ident_view("new"@),
                                group_view(
                                    DelimiterIr::Parenthesis,
                                    seq![ident_view("identity"@), punct_view(',', false), ident_view("payload"@)],
                                ),
                            ],
                        ),
                    ],
                ),
                punct_view(',', false),
            ],
        ),
    ]
}

/// `#[cfg(panic = value)]`.
pub open spec fn cfg_view(value: Seq<char>) -> Seq<TokenView> {
    seq![
        punct_view('#', false),
        group_view(
            DelimiterIr::Bracket,
            seq![
                ident_view("cfg"@),
                group_view(
                    DelimiterIr::Parenthesis,
                    seq![ident_view("panic"@), punct_view('=', false), literal_view(value)],
                ),
            ],
        ),
    ]
}

/// The panic-catching adapter, compiled only where panics unwind.
pub open spec fn catching_function_view(
    facade: Seq<TokenView>,
    thread_safe: bool,
    name: Seq<char>,
    method: MethodIr,
    target: Seq<TokenView>,
    own: Option<Seq<TokenView>>,
    source: Seq<char>,
    index: usize,
    validation: Seq<TokenView>,
    binding: Seq<TokenView>,
    call: Seq<TokenView>,
) -> Seq<TokenView> {
    cfg_view("\"unwind\""@) + signature_view(
        name,
        invoke_generic_view(facade, "Invocation"@, thread_safe),
        std_path_view(seq!["core"@, "result"@, "Result"@]) + seq![punct_view('<', false)] + invoke_generic_view(
            facade,
            "InvocationOutput"@,
            thread_safe,
        ) + seq![punct_view(',', false)] + private_view(facade, seq!["invoke"@, "InvocationPanic"@]) + seq![
            punct_view(',', false),
            punct_view('>', false),
        ],
        invoke_generic_view(facade, "InvocationFailure"@, thread_safe),
    ) + seq![
        group_view(
            DelimiterIr::Brace,
            assertions_view(method, target, own, true) + identity_view(facade, source, index) + seq![
                ident_view("let"@),
                ident_view("validated"@),
                punct_view('=', false),
            ] + validation + seq![punct_view(';', false)] + binding + arguments_iter_view() + argument_bindings_view(
                facade,
                thread_safe,
                method.parameters@,
            ) + catch_match_view(facade, completion_view(facade, thread_safe, method, call, true)),
        ),
    ]
}

/// The name of the descriptor constructor for an adapter's modes.
pub open spec fn constructor_name(thread_safe: bool, catching: bool) -> Seq<char> {
    if catching && thread_safe {
        "thread_safe_with_catching"@
    } else if catching {
        "local_with_catching"@
    } else if thread_safe {
        "thread_safe"@
    } else {
        "local"@
    }
}

/// `static descriptor: facade::..::descriptor::InvocationAdapter = constructor(..);`.
pub open spec fn descriptor_static_view(
    facade: Seq<TokenView>,
    descriptor: Seq<char>,
    constructor: Seq<char>,
    arguments: Seq<TokenView>,
) -> Seq<TokenView> {
    seq![ident_view("static"@), ident_view(descriptor), punct_view(':', false)] + private_view(
        facade,
        seq!["descriptor"@, "InvocationAdapter"@],
    ) + seq![punct_view('=', false)] + private_view(facade, seq!["descriptor"@, "InvocationAdapter"@, constructor])
        + seq![group_view(DelimiterIr::Parenthesis, arguments), punct_view(';', false)]
}

/// The descriptor that registers the adapter; a panic-catching one falls
/// back, where panics abort, to a descriptor whose catching form is
/// unavailable.
pub open spec fn adapter_definition_view(
    facade: Seq<TokenView>,
    thread_safe: bool,
    catching: bool,
    descriptor: Seq<char>,
    name: Seq<char>,
    catching_name: Seq<char>,
) -> Seq<TokenView> {
    if catching {
        cfg_view("\"unwind\""@) + descriptor_static_view(
            facade,
            descriptor,
            constructor_name(thread_safe, true),
            seq![ident_view(name), punct_view(',', false), ident_view(catching_name), punct_view(',', false)],
        ) + cfg_view("\"abort\""@) + descriptor_static_view(
            facade,
            descriptor,
            if thread_safe {
                "thread_safe_with_unavailable_catching"@
            } else {
                "local_with_unavailable_catching"@
            },
            seq![ident_view(name), punct_view(',', false)],
        )
    } else {
        descriptor_static_view(facade, descriptor, constructor_name(thread_safe, false), seq![ident_view(name)])
    }
}

fn push_catch_match(tokens: &mut Vec<TokenTreeIr>, facade: &Vec<TokenTreeIr>, completion: Vec<TokenTreeIr>)
    ensures
        tokens_view(final(tokens)@) == tokens_view(old(tokens)@) + catch_match_view(
            tokens_view(facade@),
            tokens_view(completion@),
        ),
{
    let ghost start = tokens_view(tokens@);
    let ghost completion_view = tokens_view(completion@);
    push_ident(tokens, "match");
    append_tokens(tokens, &std_path3("std", "panic", "catch_unwind"));
    let mut closure = empty_tokens();
    push_punct(&mut closure, '|', true);
    push_punct(&mut closure, '|', false);
    push_group(&mut closure, DelimiterIr::Brace, completion);
    assert(tokens_view(closure@) =~= seq![punct_view('|', true), punct_view('|', false), group_view(DelimiterIr::Brace, completion_view)]);
    push_group(tokens, DelimiterIr::Parenthesis, closure);
    let ghost opened = tokens_view(tokens@);
    assert(opened =~= start + seq![ident_view("match"@)] + std_path_view(seq!["std"@, "panic"@, "catch_unwind"@]) + seq![
        group_view(
            DelimiterIr::Parenthesis,
            seq![punct_view('|', true), punct_view('|', false), group_view(DelimiterIr::Brace, completion_view)],
        ),
    ]);
    let mut output = empty_tokens();
    push_ident(&mut output, "output");
    assert(tokens_view(output@) =~= seq![ident_view("output"@)]);
    let mut output2 = empty_tokens();
    push_ident(&mut output2, "output");
    assert(tokens_view(output2@) =~= seq![ident_view("output"@)]);
    let mut payload = empty_tokens();
    push_ident(&mut payload, "payload");
    assert(tokens_view(payload@) =~= seq![ident_view("payload"@)]);
    let mut inner_ok = empty_tokens();
    push_ident(&mut inner_ok, "Ok");
    push_group(&mut inner_ok, DelimiterIr::Parenthesis, output2);
    assert(tokens_view(inner_ok@) =~= seq![ident_view("Ok"@), group_view(DelimiterIr::Parenthesis, seq![ident_view("output"@)])]);
    let mut panic_arguments = empty_tokens();
    push_ident(&mut panic_arguments, "identity");
    push_punct(&mut panic_arguments, ',', false);
    push_ident(&mut panic_arguments, "payload");
    assert(tokens_view(panic_arguments@) =~= seq![ident_view("identity"@), punct_view(',', false), ident_view("payload"@)]);
    let mut panic = empty_tokens();
    push_private2(&mut panic, facade, "invoke", "InvocationPanic");
    push_colons(&mut panic);
    push_ident(&mut panic, "new");
    push_group(&mut panic, DelimiterIr::Parenthesis, panic_arguments);
    let ghost panic_view = private_view(tokens_view(facade@), seq!["invoke"@, "InvocationPanic"@]) + colons_view() + seq![
        ident_view("new"@),
        group_view(
            DelimiterIr::Parenthesis,
            seq![ident_view("identity"@), punct_view(',', false), ident_view("payload"@)],
        ),
    ];
    assert(tokens_view(panic@) =~= panic_view);
    let mut err = empty_tokens();
    push_ident(&mut err, "Err");
    push_group(&mut err, DelimiterIr::Parenthesis, panic);
    assert(tokens_view(err@) =~= seq![ident_view("Err"@), group_view(DelimiterIr::Parenthesis, panic_view)]);
    let mut arms = empty_tokens();
    push_ident(&mut arms, "Ok");
    push_group(&mut arms, DelimiterIr::Parenthesis, output);
    push_fat_arrow(&mut arms);
    push_ident(&mut arms, "Ok");
    push_group(&mut arms, DelimiterIr::Parenthesis, inner_ok);
    push_punct(&mut arms, ',', false);
    push_ident(&mut arms, "Err");
    push_group(&mut arms, DelimiterIr::Parenthesis, payload);
    push_fat_arrow(&mut arms);
    push_ident(&mut arms, "Ok");
    push_group(&mut arms, DelimiterIr::Parenthesis, err);
    push_punct(&mut arms, ',', false);
    assert(tokens_view(arms@) =~= seq![
        ident_view("Ok"@),
        group_view(DelimiterIr::Parenthesis, seq![ident_view("output"@)]),
        punct_view('=', true),
        punct_view('>', false),
        ident_view("Ok"@),
        group_view(
            DelimiterIr::Parenthesis,
            seq![ident_view("Ok"@), group_view(DelimiterIr::Parenthesis, seq![ident_view("output"@)])],
        ),
        punct_view(',', false),
        ident_view("Err"@),
        group_view(DelimiterIr::Parenthesis, seq![ident_view("payload"@)]),
        punct_view('=', true),
        punct_view('>', false),
        ident_view("Ok"@),
        group_view(
            DelimiterIr::Parenthesis,
            seq![ident_view("Err"@), group_view(DelimiterIr::Parenthesis, panic_view)],
        ),
        punct_view(',', false),
    ]);
    push_group(tokens, DelimiterIr::Brace, arms);
    assert(tokens_view(tokens@) =~= start + catch_match_view(tokens_view(facade@), completion_view));
}

fn push_cfg(tokens: &mut Vec<TokenTreeIr>, value: &str)
    ensures
        tokens_view(final(tokens)@) == tokens_view(old(tokens)@) + cfg_view(value@),
{
    let ghost start = tokens_view(tokens@);
    push_punct(tokens, '#', false);
    let mut condition = empty_tokens();
    push_ident(&mut condition, "panic");
    push_punct(&mut condition, '=', false);
    push_literal(&mut condition, String::from_str(value));
    assert(tokens_view(condition@) =~= seq![ident_view("panic"@), punct_view('=', false), literal_view(value@)]);
    let mut attribute = empty_tokens();
    push_ident(&mut attribute, "cfg");
    push_group(&mut attribute, DelimiterIr::Parenthesis, condition);
    assert(tokens_view(attribute@) =~= seq![
        ident_view("cfg"@),
        group_view(
            DelimiterIr::Parenthesis,
            seq![ident_view("panic"@), punct_view('=', false), literal_view(value@)],
        ),
    ]);
    push_group(tokens, DelimiterIr::Bracket, attribute);
    assert(tokens_view(tokens@) =~= start + cfg_view(value@));
}

#[verifier::rlimit(60)]
fn push_catching_function(
    tokens: &mut Vec<TokenTreeIr>,
    facade: &Vec<TokenTreeIr>,
    thread_safe: bool,
    name: &str,
    method: &MethodIr,
    target: &Vec<TokenTreeIr>,
    own: Option<&Vec<TokenTreeIr>>,
    source: &str,
    index: usize,
    validation: &Vec<TokenTreeIr>,
    binding: &Vec<TokenTreeIr>,
    call: &Vec<TokenTreeIr>,
)
    ensures
        tokens_view(final(tokens)@) == tokens_view(old(tokens)@) + catching_function_view(
            tokens_view(facade@),
            thread_safe,
            name@,
            *method,
            tokens_view(target@),
            match own {
                Some(own) => Some(tokens_view(own@)),
                None => None,
            },
            source@,
            index,
            tokens_view(validation@),
            tokens_view(binding@),
            tokens_view(call@),
        ),
{
    let ghost start = tokens_view(tokens@);
    let ghost own_view = match own {
        Some(own) => Some(tokens_view(own@)),
        None => None::<Seq<TokenView>>,
    };
    push_cfg(tokens, "\"unwind\"");
    let mut ok = std_path3("core", "result", "Result");
    push_punct(&mut ok, '<', false);
    push_call_generic(&mut ok, facade, "invoke", "InvocationOutput", thread_safe);
    push_punct(&mut ok, ',', false);
    push_private2(&mut ok, facade, "invoke", "InvocationPanic");
    push_punct(&mut ok, ',', false);
    push_punct(&mut ok, '>', false);
    assert(tokens_view(ok@) =~= std_path_view(seq!["core"@, "result"@, "Result"@]) + seq![punct_view('<', false)]
        + invoke_generic_view(tokens_view(facade@), "InvocationOutput"@, thread_safe) + seq![punct_view(',', false)]
        + private_view(tokens_view(facade@), seq!["invoke"@, "InvocationPanic"@]) + seq![
        punct_view(',', false),
        punct_view('>', false),
    ]);
    push_signature(
        tokens,
        name,
        &invoke_generic(facade, "Invocation", thread_safe),
        &ok,
        &invoke_generic(facade, "InvocationFailure", thread_safe),
    );
    let mut body = empty_tokens();
    push_assertions(&mut body, method, target, own, true);
    push_identity(&mut body, facade, source, index);
    push_ident(&mut body, "let");
    push_ident(&mut body, "validated");
    push_punct(&mut body, '=', false);
    append_tokens(&mut body, validation);
    push_punct(&mut body, ';', false);
    append_tokens(&mut body, binding);
    push_arguments_iter(&mut body);
    push_argument_bindings(&mut body, facade, thread_safe, &method.parameters);
    let mut completion = empty_tokens();
    push_completion(&mut completion, facade, thread_safe, method, call, true);
    assert(tokens_view(completion@) =~= completion_view(tokens_view(facade@), thread_safe, *method, tokens_view(call@), true));
    push_catch_match(&mut body, facade, completion);
    assert(tokens_view(body@) =~= assertions_view(*method, tokens_view(target@), own_view, true) + identity_view(
        tokens_view(facade@),
        source@,
        index,
    ) + seq![ident_view("let"@), ident_view("validated"@), punct_view('=', false)] + tokens_view(validation@) + seq![
        punct_view(';', false),
    ] + tokens_view(binding@) + arguments_iter_view() + argument_bindings_view(
        tokens_view(facade@),
        thread_safe,
        method.parameters@,
    ) + catch_match_view(
        tokens_view(facade@),
        completion_view(tokens_view(facade@), thread_safe, *method, tokens_view(call@), true),
    ));
    push_group(tokens, DelimiterIr::Brace, body);
    assert(tokens_view(tokens@) =~= start + catching_function_view(
        tokens_view(facade@),
        thread_safe,
        name@,
        *method,
        tokens_view(target@),
        own_view,
        source@,
        index,
        tokens_view(validation@),
        tokens_view(binding@),
        tokens_view(call@),
    ));
}

fn push_descriptor_static(
    tokens: &mut Vec<TokenTreeIr>,
    facade: &Vec<TokenTreeIr>,
    descriptor: &str,
    constructor: &str,
    arguments: Vec<TokenTreeIr>,
)
    ensures
        tokens_view(final(tokens)@) == tokens_view(old(tokens)@) + descriptor_static_view(
            tokens_view(facade@),
            descriptor@,
            constructor@,
            tokens_view(arguments@),
        ),
{
    let ghost start = tokens_view(tokens@);
    let ghost arguments_view = tokens_view(arguments@);
    push_ident(tokens, "static");
    push_ident(tokens, descriptor);
    push_punct(tokens, ':', false);
    push_private2(tokens, facade, "descriptor", "InvocationAdapter");
    push_punct(tokens, '=', false);
    push_private3(tokens, facade, "descriptor", "InvocationAdapter", constructor);
    push_group(tokens, DelimiterIr::Parenthesis, arguments);
    push_punct(tokens, ';', false);
    assert(tokens_view(tokens@) =~= start + descriptor_static_view(
        tokens_view(facade@),
        descriptor@,
        constructor@,
        arguments_view,
    ));
}

fn constructor_name_of(thread_safe: bool, catching: bool) -> (name: &'static str)
    ensures
        name@ == constructor_name(thread_safe, catching),
{
    if catching && thread_safe {
        "thread_safe_with_catching"
    } else if catching {
        "local_with_catching"
    } else if thread_safe {
        "thread_safe"
    } else {
        "local"
    }
}

fn push_adapter_definition(
    tokens: &mut Vec<TokenTreeIr>,
    facade: &Vec<TokenTreeIr>,
    thread_safe: bool,
    catching: bool,
    descriptor: &str,
    name: &str,
    catching_name: &str,
)
    ensures
        tokens_view(final(tokens)@) == tokens_view(old(tokens)@) + adapter_definition_view(
            tokens_view(facade@),
            thread_safe,
            catching,
            descriptor@,
            name@,
            catching_name@,
        ),
{
    let ghost start = tokens_view(tokens@);
    if catching {
        push_cfg(tokens, "\"unwind\"");
        let mut arguments = empty_tokens();
        push_ident(&mut arguments, name);
        push_punct(&mut arguments, ',', false);
        push_ident(&mut arguments, catching_name);
        push_punct(&mut arguments, ',', false);
        assert(tokens_view(arguments@) =~= seq![
            ident_view(name@),
            punct_view(',', false),
            ident_view(catching_name@),
            punct_view(',', false),
        ]);
        push_descriptor_static(tokens, facade, descriptor, constructor_name_of(thread_safe, true), arguments);
        push_cfg(tokens, "\"abort\"");
        let mut fallback = empty_tokens();
        push_ident(&mut fallback, name);
        push_punct(&mut fallback, ',', false);
        assert(tokens_view(fallback@) =~= seq![ident_view(name@), punct_view(',', false)]);
        let unavailable = if thread_safe {
            "thread_safe_with_unavailable_catching"
        } else {
            "local_with_unavailable_catching"
        };
        push_descriptor_static(tokens, facade, descriptor, unavailable, fallback);
    } else {
        let mut arguments = empty_tokens();
        push_ident(&mut arguments, name);
        assert(tokens_view(arguments@) =~= seq![ident_view(name@)]);
        push_descriptor_static(tokens, facade, descriptor, constructor_name_of(thread_safe, false), arguments);
    }
    assert(tokens_view(tokens@) =~= start + adapter_definition_view(
        tokens_view(facade@),
        thread_safe,
        catching,
        descriptor@,
        name@,
        catching_name@,
    ));
}

// ---------------------------------------------------------------------------
// Pinned receivers
// ---------------------------------------------------------------------------

/// `facade::..::invoke::name<['call,] target, facade::..::value::Local>`.
pub open spec fn pinned_type_view(facade: Seq<TokenView>, name: Seq<char>, target: Seq<TokenView>, with_call: bool) -> Seq<
    TokenView,
> {
    private_view(facade, seq!["invoke"@, name]) + seq![punct_view('<', false)] + if with_call {
        call_lifetime_view() + seq![punct_view(',', false)]
    } else {
        Seq::empty()
    } + target + seq![punct_view(',', false)] + mode_view(facade, false) + seq![punct_view('>', false)]
}

/// What a pinned call completes with.
pub open spec fn pinned_output_view(facade: Seq<TokenView>, method: MethodIr, call: Seq<TokenView>) -> Seq<TokenView> {
    match method.return_type {
        ReturnTypeIr::Unit => call + seq![punct_view(';', false)] + output_path_view(facade, "Unit"@),
        ReturnTypeIr::Type(ty) => if ty.kind is Never {
            seq![ident_view("match"@)] + call + seq![group_view(DelimiterIr::Brace, Seq::empty())]
        } else {
            owned_output_view(facade, false, call + seq![punct_view(',', false)])
        },
    }
}

/// The body of a pinned adapter.
pub open spec fn pinned_body_view(
    facade: Seq<TokenView>,
    method: MethodIr,
    source: Seq<char>,
    index: usize,
    call: Seq<TokenView>,
) -> Seq<TokenView> {
    let output = pinned_output_view(facade, method, call);
    identity_view(facade, source, index) + seq![
        ident_view("let"@),
        ident_view("validated"@),
        punct_view('=', false),
        ident_view("invocation"@),
        punct_view('.', false),
        ident_view("validate"@),
        group_view(
            DelimiterIr::Parenthesis,
            seq![
                punct_view('&', false),
                ident_view("identity"@),
                punct_view(',', false),
                punct_view('&', false),
                group_view(DelimiterIr::Bracket, expectations_view(facade, method.parameters@)),
            ],
        ),
        punct_view('?', false),
        punct_view(';', false),
    ] + into_parts_view("receiver"@) + arguments_iter_view() + argument_bindings_view(facade, false, method.parameters@)
        + if returns_never(method) {
        output
    } else {
        seq![ident_view("Ok"@), group_view(DelimiterIr::Parenthesis, output)]
    }
}

/// The adapter of a method with a `Pin<&Self>` or `Pin<&mut Self>`
/// receiver: a local function over a pinned invocation, a static adapter
/// token that names it, and the descriptor built from that token.
pub open spec fn pinned_adapter_view(
    facade: Seq<TokenView>,
    mutable: bool,
    method: MethodIr,
    target: Seq<TokenView>,
    source: Seq<char>,
    index: usize,
    call: Seq<TokenView>,
    suffix: Seq<char>,
    descriptor: Seq<char>,
) -> Seq<TokenView> {
    let name = "__qubit_reflect_invoke_pinned_"@ + suffix;
    let token = "__QUBIT_REFLECT_PINNED_ADAPTER_"@ + suffix;
    signature_view(
        name,
        pinned_type_view(facade, if mutable { "PinnedMutInvocation"@ } else { "PinnedRefInvocation"@ }, target, true),
        invoke_generic_view(facade, "InvocationOutput"@, false),
        pinned_type_view(
            facade,
            if mutable { "PinnedMutInvocationFailure"@ } else { "PinnedRefInvocationFailure"@ },
            target,
            true,
        ),
    ) + seq![group_view(DelimiterIr::Brace, pinned_body_view(facade, method, source, index, call))] + seq![
        ident_view("static"@),
        ident_view(token),
        punct_view(':', false),
    ] + pinned_type_view(facade, if mutable { "PinnedMutAdapter"@ } else { "PinnedRefAdapter"@ }, target, false) + seq![
        punct_view('=', false),
        ident_view(name),
        punct_view(';', false),
    ] + descriptor_static_view(
        facade,
        descriptor,
        if mutable { "pinned_mut_local"@ } else { "pinned_ref_local"@ },
        seq![punct_view('&', false), ident_view(token)],
    )
}

fn pinned_type(facade: &Vec<TokenTreeIr>, name: &str, target: &Vec<TokenTreeIr>, with_call: bool) -> (tokens: Vec<
    TokenTreeIr,
>)
    ensures
        tokens_view(tokens@) == pinned_type_view(tokens_view(facade@), name@, tokens_view(target@), with_call),
{
    let mut tokens = empty_tokens();
    push_private2(&mut tokens, facade, "invoke", name);
    push_punct(&mut tokens, '<', false);
    let ghost opened = tokens_view(tokens@);
    if with_call {
        push_call_lifetime(&mut tokens);
        push_punct(&mut tokens, ',', false);
    }
    assert(tokens_view(tokens@) =~= opened + if with_call {
        call_lifetime_view() + seq![punct_view(',', false)]
    } else {
        Seq::<TokenView>::empty()
    });
    append_tokens(&mut tokens, target);
    push_punct(&mut tokens, ',', false);
    push_mode(&mut tokens, facade, false);
    push_punct(&mut tokens, '>', false);
    assert(tokens_view(tokens@) =~= pinned_type_view(tokens_view(facade@), name@, tokens_view(target@), with_call));
    tokens
}

#[verifier::rlimit(60)]
fn pinned_body(
    facade: &Vec<TokenTreeIr>,
    method: &MethodIr,
    source: &str,
    index: usize,
    call: &Vec<TokenTreeIr>,
) -> (tokens: Vec<TokenTreeIr>)
    ensures
        tokens_view(tokens@) == pinned_body_view(tokens_view(facade@), *method, source@, index, tokens_view(call@)),
{
    let mut output = empty_tokens();
    match &method.return_type {
        ReturnTypeIr::Unit => push_unit_completion(&mut output, facade, call),
        ReturnTypeIr::Type(ty) => match &ty.kind {
            TypeKindIr::Never => push_never_match(&mut output, call),
            _ => {
                let mut inner = crate::codegen::copy_tokens(call);
                push_punct(&mut inner, ',', false);
                assert(tokens_view(inner@) =~= tokens_view(call@) + seq![punct_view(',', false)]);
                push_owned_output(&mut output, facade, false, inner);
            },
        },
    }
    let ghost output_view = tokens_view(output@);
    assert(output_view =~= pinned_output_view(tokens_view(facade@), *method, tokens_view(call@)));
    let mut tokens = empty_tokens();
    push_identity(&mut tokens, facade, source, index);
    let ghost identified = tokens_view(tokens@);
    push_ident(&mut tokens, "let");
    push_ident(&mut tokens, "validated");
    push_punct(&mut tokens, '=', false);
    push_ident(&mut tokens, "invocation");
    push_punct(&mut tokens, '.', false);
    push_ident(&mut tokens, "validate");
    let mut arguments = empty_tokens();
    push_punct(&mut arguments, '&', false);
    push_ident(&mut arguments, "identity");
    push_punct(&mut arguments, ',', false);
    push_punct(&mut arguments, '&', false);
    push_group(&mut arguments, DelimiterIr::Bracket, expectations(facade, &method.parameters));
    assert(tokens_view(arguments@) =~= seq![
        punct_view('&', false),
        ident_view("identity"@),
        punct_view(',', false),
        punct_view('&', false),
        group_view(DelimiterIr::Bracket, expectations_view(tokens_view(facade@), method.parameters@)),
    ]);
    push_group(&mut tokens, DelimiterIr::Parenthesis, arguments);
    push_punct(&mut tokens, '?', false);
    push_punct(&mut tokens, ';', false);
    push_into_parts(&mut tokens, "receiver");
    push_arguments_iter(&mut tokens);
    push_argument_bindings(&mut tokens, facade, false, &method.parameters);
    let ghost bound = tokens_view(tokens@);
    if returns_never_of(method) {
        append_tokens(&mut tokens, &output);
    } else {
        push_ident(&mut tokens, "Ok");
        push_group(&mut tokens, DelimiterIr::Parenthesis, output);
    }
    assert(tokens_view(tokens@) =~= pinned_body_view(tokens_view(facade@), *method, source@, index, tokens_view(call@)));
    tokens
}

#[verifier::rlimit(60)]
fn pinned_adapter(
    facade: &Vec<TokenTreeIr>,
    mutable: bool,
    method: &MethodIr,
    target: &Vec<TokenTreeIr>,
    source: &str,
    index: usize,
    call: &Vec<TokenTreeIr>,
    suffix: &str,
    descriptor: &str,
) -> (tokens: Vec<TokenTreeIr>)
    ensures
        tokens_view(tokens@) == pinned_adapter_view(
            tokens_view(facade@),
            mutable,
            *method,
            tokens_view(target@),
            source@,
            index,
            tokens_view(call@),
            suffix@,
            descriptor@,
        ),
{
    let name = crate::text::join2("__qubit_reflect_invoke_pinned_", suffix);
    let token = crate::text::join2("__QUBIT_REFLECT_PINNED_ADAPTER_", suffix);
    let mut tokens = empty_tokens();
    push_signature(
        &mut tokens,
        name.as_str(),
        &pinned_type(facade, if mutable { "PinnedMutInvocation" } else { "PinnedRefInvocation" }, target, true),
        &invoke_generic(facade, "InvocationOutput", false),
        &pinned_type(facade, if mutable { "PinnedMutInvocationFailure" } else { "PinnedRefInvocationFailure" }, target, true),
    );
    push_group(&mut tokens, DelimiterIr::Brace, pinned_body(facade, method, source, index, call));
    push_ident(&mut tokens, "static");
    push_ident(&mut tokens, token.as_str());
    push_punct(&mut tokens, ':', false);
    append_tokens(&mut tokens, &pinned_type(facade, if mutable { "PinnedMutAdapter" } else { "PinnedRefAdapter" }, target, false));
    push_punct(&mut tokens, '=', false);
    push_ident(&mut tokens, name.as_str());
    push_punct(&mut tokens, ';', false);
    let mut reference = empty_tokens();
    push_punct(&mut reference, '&', false);
    push_ident(&mut reference, token.as_str());
    assert(tokens_view(reference@) =~= seq![punct_view('&', false), ident_view(token@)]);
    push_descriptor_static(&mut tokens, facade, descriptor, if mutable { "pinned_mut_local" } else { "pinned_ref_local" }, reference);
    assert(tokens_view(tokens@) =~= pinned_adapter_view(
        tokens_view(facade@),
        mutable,
        *method,
        tokens_view(target@),
        source@,
        index,
        tokens_view(call@),
        suffix@,
        descriptor@,
    ));
    tokens
}

// ---------------------------------------------------------------------------
// The adapter of a concrete impl method
// ---------------------------------------------------------------------------

/// What distinguishes an adapter's names: the method index, and the
/// specialization index after `_` for a specialization.
pub open spec fn adapter_suffix(index: usize, specialization: Option<usize>) -> Seq<char> {
    match specialization {
        None => decimal(index as nat),
        Some(value) => decimal(index as nat) + "_"@ + decimal(value as nat),
    }
}

/// The static descriptor an adapter registers under.
pub open spec fn adapter_descriptor(index: usize, specialization: Option<usize>) -> Seq<char> {
    match specialization {
        None => "__QUBIT_REFLECT_INVOCATION_ADAPTER_"@ + decimal(index as nat),
        Some(value) => specialization_descriptor(index as nat, value as nat),
    }
}

/// The receiver plan a concrete impl method gets.
pub open spec fn planned_receiver(method: MethodIr, extension: Option<Vec<TokenTreeIr>>) -> Option<ReceiverPlan> {
    match method.receiver {
        Some(receiver) => Some(receiver_plan(receiver, extension)),
        None => None,
    }
}

/// The owned container type of the planned receiver, if it is one.
pub open spec fn owned_receiver_view(receiver: Option<ReceiverPlan>, target: Seq<TokenView>) -> Option<Seq<TokenView>> {
    match receiver {
        Some(ReceiverPlan::OwnedContainer(container)) => Some(owned_type_view(container, target)),
        _ => None,
    }
}

/// The receiver type a registered receiver adapter serves, if any.
pub open spec fn extension_receiver_view(receiver: Option<ReceiverPlan>) -> Option<Seq<TokenView>> {
    match receiver {
        Some(ReceiverPlan::Extension(tokens)) => Some(tokens_view(tokens@)),
        _ => None,
    }
}

/// The adapter of a method whose receiver is not pinned, around a given
/// call: the adapter function, its panic-catching twin when `catch_unwind`
/// is requested, and the descriptor.
pub open spec fn ordinary_adapter_view(
    facade: Seq<TokenView>,
    method: MethodIr,
    index: usize,
    target: Seq<TokenView>,
    source: Seq<char>,
    call: Seq<TokenView>,
    specialization: Option<usize>,
    receiver: Option<ReceiverPlan>,
) -> Seq<TokenView> {
    let thread_safe = modes_of(method).thread_safe;
    let catching = modes_of(method).catching;
    let owned = owned_receiver_view(receiver, target);
    let extension = extension_receiver_view(receiver);
    let own = match extension {
        Some(extension) => Some(extension),
        None => owned,
    };
    let validation = validation_view(facade, method, target, owned, extension is Some);
    let binding = receiver_binding_view(facade, thread_safe, method, target, owned, extension);
    let suffix = adapter_suffix(index, specialization);
    let name = "__qubit_reflect_invoke_"@ + suffix;
    let catching_name = "__qubit_reflect_invoke_catching_"@ + suffix;
    adapter_function_view(
        facade,
        thread_safe,
        name,
        method,
        target,
        own,
        source,
        index,
        validation,
        output_view(facade, thread_safe, method, binding, call),
    ) + if catching {
        catching_function_view(
            facade,
            thread_safe,
            catching_name,
            method,
            target,
            own,
            source,
            index,
            validation,
            binding,
            call,
        )
    } else {
        Seq::empty()
    } + adapter_definition_view(
        facade,
        thread_safe,
        catching,
        adapter_descriptor(index, specialization),
        name,
        catching_name,
    )
}

/// The adapter of an executable concrete impl method: the pinned form for a
/// pinned receiver, the ordinary one otherwise.
pub open spec fn invocation_adapter_view(
    facade: Seq<TokenView>,
    method: MethodIr,
    index: usize,
    target: Seq<TokenView>,
    trait_path: Option<Seq<TokenView>>,
    source: Seq<char>,
    generics: Seq<Seq<TokenView>>,
    specialization: Option<usize>,
    extension: Option<Vec<TokenTreeIr>>,
) -> Seq<TokenView> {
    let receiver = planned_receiver(method, extension);
    match receiver {
        Some(ReceiverPlan::Pinned { mutable }) => pinned_adapter_view(
            facade,
            mutable,
            method,
            target,
            source,
            index,
            call_view(method, target, trait_path, generics, true),
            adapter_suffix(index, specialization),
            adapter_descriptor(index, specialization),
        ),
        _ => ordinary_adapter_view(
            facade,
            method,
            index,
            target,
            source,
            call_view(method, target, trait_path, generics, method.receiver is Some),
            specialization,
            receiver,
        ),
    }
}

fn adapter_suffix_of(index: usize, specialization: Option<usize>) -> (suffix: String)
    ensures
        suffix@ == adapter_suffix(index, specialization),
{
    let digits = decimal_string(index);
    match specialization {
        None => digits,
        Some(value) => {
            let head = crate::text::join2(digits.as_str(), "_");
            let tail = decimal_string(value);
            crate::text::join2(head.as_str(), tail.as_str())
        },
    }
}

fn adapter_descriptor_of(index: usize, specialization: Option<usize>) -> (name: String)
    ensures
        name@ == adapter_descriptor(index, specialization),
{
    match specialization {
        None => {
            let digits = decimal_string(index);
            crate::text::join2("__QUBIT_REFLECT_INVOCATION_ADAPTER_", digits.as_str())
        },
        Some(value) => specialization_descriptor_name(index, value),
    }
}

#[verifier::rlimit(80)]
fn ordinary_adapter(
    facade: &Vec<TokenTreeIr>,
    method: &MethodIr,
    index: usize,
    target: &Vec<TokenTreeIr>,
    source: &str,
    call: &Vec<TokenTreeIr>,
    specialization: Option<usize>,
    receiver: &Option<ReceiverPlan>,
    thread_safe: bool,
    catching: bool,
) -> (tokens: Vec<TokenTreeIr>)
    requires
        thread_safe == modes_of(*method).thread_safe,
        catching == modes_of(*method).catching,
    ensures
        tokens_view(tokens@) == ordinary_adapter_view(
            tokens_view(facade@),
            *method,
            index,
            tokens_view(target@),
            source@,
            tokens_view(call@),
            specialization,
            *receiver,
        ),
{
    let owned: Option<Vec<TokenTreeIr>> = match receiver {
        Some(ReceiverPlan::OwnedContainer(container)) => Some(owned_type(*container, target)),
        _ => None,
    };
    let extension: Option<&Vec<TokenTreeIr>> = match receiver {
        Some(ReceiverPlan::Extension(tokens)) => Some(tokens),
        _ => None,
    };
    let owned_ref: Option<&Vec<TokenTreeIr>> = match &owned {
        Some(owned) => Some(owned),
        None => None,
    };
    let own: Option<&Vec<TokenTreeIr>> = match extension {
        Some(extension) => Some(extension),
        None => owned_ref,
    };
    let ghost owned_view = owned_receiver_view(*receiver, tokens_view(target@));
    assert(match owned_ref {
        Some(owned) => Some(tokens_view(owned@)),
        None => None,
    } == owned_view);
    assert(match extension {
        Some(extension) => Some(tokens_view(extension@)),
        None => None,
    } == extension_receiver_view(*receiver));
    let mut validation = empty_tokens();
    push_validation(&mut validation, facade, method, target, owned_ref, extension.is_some());
    let mut binding = empty_tokens();
    push_receiver_binding(&mut binding, facade, thread_safe, method, target, owned_ref, extension);
    assert(tokens_view(validation@) =~= validation_view(
        tokens_view(facade@),
        *method,
        tokens_view(target@),
        owned_view,
        extension is Some,
    ));
    assert(tokens_view(binding@) =~= receiver_binding_view(
        tokens_view(facade@),
        thread_safe,
        *method,
        tokens_view(target@),
        owned_view,
        extension_receiver_view(*receiver),
    ));
    let suffix = adapter_suffix_of(index, specialization);
    let name = crate::text::join2("__qubit_reflect_invoke_", suffix.as_str());
    let catching_name = crate::text::join2("__qubit_reflect_invoke_catching_", suffix.as_str());
    let descriptor = adapter_descriptor_of(index, specialization);
    let body = output(facade, thread_safe, method, &binding, call);
    let mut tokens = empty_tokens();
    push_adapter_function(&mut tokens, facade, thread_safe, name.as_str(), method, target, own, source, index, &validation, body);
    let ghost head = tokens_view(tokens@);
    if catching {
        push_catching_function(
            &mut tokens,
            facade,
            thread_safe,
            catching_name.as_str(),
            method,
            target,
            own,
            source,
            index,
            &validation,
            &binding,
            call,
        );
    }
    let ghost middle = tokens_view(tokens@);
    push_adapter_definition(&mut tokens, facade, thread_safe, catching, descriptor.as_str(), name.as_str(), catching_name.as_str());
    let ghost own_view = match extension_receiver_view(*receiver) {
        Some(extension) => Some(extension),
        None => owned_view,
    };
    assert(match own {
        Some(own) => Some(tokens_view(own@)),
        None => None,
    } == own_view);
    assert(tokens_view(tokens@) =~= ordinary_adapter_view(
        tokens_view(facade@),
        *method,
        index,
        tokens_view(target@),
        source@,
        tokens_view(call@),
        specialization,
        *receiver,
    ));
    tokens
}

/// Emits the executable invocation adapter of a concrete impl method, called
/// as `<target as trait>::name` (or `<target>::name` outside a trait impl)
/// with the given concrete generic arguments, or nothing when the method
/// cannot be invoked through one. `extension` is the receiver's declared type
/// with `Self` read as the target, which a registered receiver adapter serves
/// when the receiver is neither an owned container nor pinned.
pub fn definition_for_call(
    method: &MethodIr,
    index: usize,
    target: &Vec<TokenTreeIr>,
    trait_call_path: &Option<Vec<TokenTreeIr>>,
    target_source: &str,
    facade: &Vec<TokenTreeIr>,
    generic_arguments: &Vec<Vec<TokenTreeIr>>,
    specialization_index: Option<usize>,
    extension: Option<Vec<TokenTreeIr>>,
) -> (adapter: Option<Vec<TokenTreeIr>>)
    ensures
        adapter is Some <==> executable(*method, planned_receiver(*method, extension), false, false),
        adapter matches Some(tokens) ==> tokens_view(tokens@) == invocation_adapter_view(
            tokens_view(facade@),
            *method,
            index,
            tokens_view(target@),
            match trait_call_path {
                Some(path) => Some(tokens_view(path@)),
                None => None,
            },
            target_source@,
            token_lists_view(generic_arguments@),
            specialization_index,
            extension,
        ),
{
    let ghost extension_input = extension;
    let context = MethodContext { extension_receiver: extension, default_method: false, has_unproven_associated_type: false };
    let plan = analyze_method(method, context);
    assert(plan.receiver == planned_receiver(*method, extension_input));
    if !plan.is_executable() {
        return None;
    }
    let modes = plan.modes;
    match plan.pinned_receiver_mutability() {
        Some(mutable) => {
            let call = method_call(method, target, trait_call_path, generic_arguments, true);
            let suffix = adapter_suffix_of(index, specialization_index);
            let descriptor = adapter_descriptor_of(index, specialization_index);
            Some(pinned_adapter(facade, mutable, method, target, target_source, index, &call, suffix.as_str(), descriptor.as_str()))
        },
        None => {
            let call = method_call(method, target, trait_call_path, generic_arguments, method.receiver.is_some());
            Some(ordinary_adapter(
                facade,
                method,
                index,
                target,
                target_source,
                &call,
                specialization_index,
                &plan.receiver,
                modes.thread_safe,
                modes.catching,
            ))
        },
    }
}

/// Emits the adapter of an ordinary concrete impl method.
pub fn definition(
    method: &MethodIr,
    index: usize,
    target: &Vec<TokenTreeIr>,
    trait_call_path: &Option<Vec<TokenTreeIr>>,
    target_source: &str,
    facade: &Vec<TokenTreeIr>,
    extension: Option<Vec<TokenTreeIr>>,
) -> (adapter: Option<Vec<TokenTreeIr>>)
    ensures
        adapter is Some <==> executable(*method, planned_receiver(*method, extension), false, false),
        adapter matches Some(tokens) ==> tokens_view(tokens@) == invocation_adapter_view(
            tokens_view(facade@),
            *method,
            index,
            tokens_view(target@),
            match trait_call_path {
                Some(path) => Some(tokens_view(path@)),
                None => None,
            },
            target_source@,
            Seq::empty(),
            None,
            extension,
        ),
{
    let generic_arguments: Vec<Vec<TokenTreeIr>> = Vec::new();
    assert(token_lists_view(generic_arguments@) =~= Seq::<Seq<TokenView>>::empty());
    definition_for_call(method, index, target, trait_call_path, target_source, facade, &generic_arguments, None, extension)
}

/// Emits the adapter of one concrete specialization of a generic method,
/// through the same analysis and emission as ordinary methods.
pub fn specialization_definition(
    method: &MethodIr,
    method_index: usize,
    specialization_index: usize,
    generic_arguments: &Vec<Vec<TokenTreeIr>>,
    target: &Vec<TokenTreeIr>,
    trait_call_path: &Option<Vec<TokenTreeIr>>,
    target_source: &str,
    facade: &Vec<TokenTreeIr>,
    extension: Option<Vec<TokenTreeIr>>,
) -> (adapter: Option<Vec<TokenTreeIr>>)
    ensures
        adapter is Some <==> executable(*method, planned_receiver(*method, extension), false, false),
        adapter matches Some(tokens) ==> tokens_view(tokens@) == invocation_adapter_view(
            tokens_view(facade@),
            *method,
            method_index,
            tokens_view(target@),
            match trait_call_path {
                Some(path) => Some(tokens_view(path@)),
                None => None,
            },
            target_source@,
            token_lists_view(generic_arguments@),
            Some(specialization_index),
            extension,
        ),
{
    definition_for_call(
        method,
        method_index,
        target,
        trait_call_path,
        target_source,
        facade,
        generic_arguments,
        Some(specialization_index),
        extension,
    )
}

} // verus!

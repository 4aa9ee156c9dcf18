//! Decisions made from validated declarations: invocation plans, generic
//! occurrences, lifetime policies, dyn compatibility and member plans.

use qubit_reflect_derive::assertions::argument_passing;
use qubit_reflect_derive::assertions::catching_assertions;
use qubit_reflect_derive::assertions::thread_safe_assertions;
use qubit_reflect_derive::assertions::ArgumentPassingIr;
use qubit_reflect_derive::assertions::AssertedIr;
use qubit_reflect_derive::assertions::MarkerAssertionIr;
use qubit_reflect_derive::assertions::MarkerIr;
use qubit_reflect_derive::associated::path_contains_associated_type;
use qubit_reflect_derive::environment::definition_provider;
use qubit_reflect_derive::shape::has_proven_static_shape;
use qubit_reflect_derive::specialization::specialization_descriptor_name;
use qubit_reflect_derive::method_metadata::associated_const_metadata;
use qubit_reflect_derive::method_metadata::associated_type_metadata;
use qubit_reflect_derive::method_metadata::method_metadata;
use qubit_reflect_derive::method_metadata::PassingModeIr;
use qubit_reflect_derive::method_metadata::PatternDescriptorIr;
use qubit_reflect_derive::method_metadata::ReceiverDescriptorIr;
use qubit_reflect_derive::method_metadata::ReturnDescriptorIr;
use qubit_reflect_derive::method_metadata::ReturnKindIr;
use qubit_reflect_derive::generic_definition::concrete_arguments;
use qubit_reflect_derive::generic_definition::generic_definition;
use qubit_reflect_derive::generic_definition::ConcreteArgumentIr;
use qubit_reflect_derive::generic_definition::GenericParameterExpressionIr;
use qubit_reflect_derive::generic_definition::WherePredicateExpressionIr;
use qubit_reflect_derive::type_expression::bound_predicates;
use qubit_reflect_derive::type_expression::type_expression;
use qubit_reflect_derive::type_expression::AbiIr;
use qubit_reflect_derive::type_expression::GenericArgumentExpressionIr;
use qubit_reflect_derive::type_expression::PredicateExpressionIr;
use qubit_reflect_derive::type_expression::TypeExpressionIr;
use qubit_reflect_derive::trait_payload::applied_arguments;
use qubit_reflect_derive::trait_payload::const_class_of;
use qubit_reflect_derive::trait_payload::direct_supertraits;
use qubit_reflect_derive::substitution::source_after_rendering;
use qubit_reflect_derive::trait_payload::external_supertrait_arguments;
use qubit_reflect_derive::trait_payload::SupertraitArgumentIr;
use qubit_reflect_derive::trait_payload::AppliedArgumentIr;
use qubit_reflect_derive::trait_payload::ConstClassIr;
use qubit_reflect_derive::trait_payload::SupertraitIr;
use qubit_reflect_derive::lifetime::lifetime_expression;
use qubit_reflect_derive::lifetime::lifetime_name;
use qubit_reflect_derive::lifetime::LifetimeExpressionIr;
use qubit_reflect_derive::reflected::reflected_field_type;
use qubit_reflect_derive::token_rewrite::replace_self_with_owner;
use qubit_reflect_derive::associated::type_contains_associated_type;
use qubit_reflect_derive::constant::ConstValueIr;
use qubit_reflect_derive::context::fingerprint;
use qubit_reflect_derive::context::EnumReprIr;
use qubit_reflect_derive::context::ExpansionContext;
use qubit_reflect_derive::context::FacadeIr;
use qubit_reflect_derive::context::FoundCrateIr;
use qubit_reflect_derive::default_method::default_method_adapter;
use qubit_reflect_derive::default_method::default_method_plan;
use qubit_reflect_derive::default_method::has_unproven_associated_type;
use qubit_reflect_derive::default_method::DefaultReceiverIr;
use qubit_reflect_derive::dyn_bindings::binding_parameter;
use qubit_reflect_derive::dyn_bindings::dyn_associated_bindings;
use qubit_reflect_derive::dyn_bindings::dyn_inherited_associated_types;
use qubit_reflect_derive::dyn_bindings::replace_declared_lifetimes_with_static;
use qubit_reflect_derive::dyn_bindings::replace_self_associated_types;
use qubit_reflect_derive::dyn_bindings::supertrait_associated_bindings;
use qubit_reflect_derive::dyn_compatibility::inherited_belongs_to_supertrait;
use qubit_reflect_derive::specialization::find_binding;
use qubit_reflect_derive::specialization::specialization_arguments;
use qubit_reflect_derive::specialization::specialization_const_argument;
use qubit_reflect_derive::specialization::specialization_type_argument;
use qubit_reflect_derive::specialization::specialized_arguments;
use qubit_reflect_derive::specialization::SpecializedArgumentIr;
use qubit_reflect_derive::dyn_compatibility::is_known_dyn_compatible_bound;
use qubit_reflect_derive::dyn_compatibility::is_provably_dyn_compatible;
use qubit_reflect_derive::dyn_compatibility::method_is_dyn_dispatchable;
use qubit_reflect_derive::dyn_compatibility::receiver_type_is_dyn_dispatchable;
use qubit_reflect_derive::dyn_compatibility::tokens_contain_unprojected_self;
use qubit_reflect_derive::environment::definition_provider_name;
use qubit_reflect_derive::environment::GenericEnvironment;
use qubit_reflect_derive::generics::path_arguments_use_const;
use qubit_reflect_derive::generics::path_arguments_use_lifetime;
use qubit_reflect_derive::generics::path_arguments_use_parameter;
use qubit_reflect_derive::generics::type_uses_lifetime;
use qubit_reflect_derive::helper::HelperName;
use qubit_reflect_derive::helper::HelperTarget;
use qubit_reflect_derive::helper::TargetSet;
use qubit_reflect_derive::invocation::analyze_method;
use qubit_reflect_derive::invocation_adapter::definition;
use qubit_reflect_derive::invocation_adapter::definition_for_call;
use qubit_reflect_derive::invocation_adapter::specialization_definition;
use qubit_reflect_derive::invocation::typed_pinned_receiver_mutable;
use qubit_reflect_derive::invocation::AvailabilityPlan;
use qubit_reflect_derive::invocation::InvocationPlan;
use qubit_reflect_derive::invocation::MethodContext;
use qubit_reflect_derive::invocation::OutputPlan;
use qubit_reflect_derive::invocation::OwnedContainerIr;
use qubit_reflect_derive::invocation::ReceiverPlan;
use qubit_reflect_derive::invocation::UnavailableReasonPlan;
use qubit_reflect_derive::ir::AssociatedConstIr;
use qubit_reflect_derive::ir::AssociatedTypeIr;
use qubit_reflect_derive::ir::DelimiterIr;
use qubit_reflect_derive::ir::ExternalTraitIr;
use qubit_reflect_derive::ir::FieldIr;
use qubit_reflect_derive::ir::GenericBoundIr;
use qubit_reflect_derive::ir::GenericDefaultIr;
use qubit_reflect_derive::ir::GenericKindIr;
use qubit_reflect_derive::ir::GenericParamIr;
use qubit_reflect_derive::ir::GenericsIr;
use qubit_reflect_derive::ir::HelperAttributeIr;
use qubit_reflect_derive::ir::HelperValueIr;
use qubit_reflect_derive::ir::MethodIr;
use qubit_reflect_derive::ir::MethodQualifiersIr;
use qubit_reflect_derive::ir::ParameterIr;
use qubit_reflect_derive::ir::ParameterPatternIr;
use qubit_reflect_derive::ir::ParameterPatternKindIr;
use qubit_reflect_derive::ir::PathArgumentIr;
use qubit_reflect_derive::ir::PathArgumentsIr;
use qubit_reflect_derive::ir::PathIr;
use qubit_reflect_derive::ir::PathSegmentIr;
use qubit_reflect_derive::ir::QualifiedSelfIr;
use qubit_reflect_derive::ir::ReceiverIr;
use qubit_reflect_derive::ir::ReceiverKindIr;
use qubit_reflect_derive::ir::ReturnTypeIr;
use qubit_reflect_derive::ir::SpecializationBindingIr;
use qubit_reflect_derive::ir::SpecializationIr;
use qubit_reflect_derive::ir::SpecializationValueIr;
use qubit_reflect_derive::ir::TokenTreeIr;
use qubit_reflect_derive::ir::TraitBoundModifierIr;
use qubit_reflect_derive::ir::TraitDeclarationIr;
use qubit_reflect_derive::ir::TypeDeclarationIr;
use qubit_reflect_derive::ir::TypeDeclarationKindIr;
use qubit_reflect_derive::ir::TypeIr;
use qubit_reflect_derive::ir::TypeKindIr;
use qubit_reflect_derive::ir::VariantIr;
use qubit_reflect_derive::ir::VariantKindIr;
use qubit_reflect_derive::ir::VisibilityIr;
use qubit_reflect_derive::ir::WherePredicateIr;
use qubit_reflect_derive::ir::CALL_SITE_SPAN;
use qubit_reflect_derive::lifetime::path_contains_non_static_lifetime;
use qubit_reflect_derive::member_plan::capability_kind;
use qubit_reflect_derive::member_plan::construction_field;
use qubit_reflect_derive::member_plan::default_provider;
use qubit_reflect_derive::member_plan::variant_constructible;
use qubit_reflect_derive::member_plan::DefaultProviderIr;
use qubit_reflect_derive::member_plan::field_access_policy;
use qubit_reflect_derive::member_plan::field_query_name;
use qubit_reflect_derive::member_plan::struct_kind;
use qubit_reflect_derive::member_plan::AccessPolicyIr;
use qubit_reflect_derive::member_plan::CapabilityIr;
use qubit_reflect_derive::member_plan::ConstructionFieldIr;
use qubit_reflect_derive::member_plan::StructKindIr;
use qubit_reflect_derive::record::DynamicRecord;
use qubit_reflect_derive::reflected::reflected_field_types;
use qubit_reflect_derive::reflected::transparent_constructor_arity;
use qubit_reflect_derive::reflected::transparently_reflected_type_parameters;
use qubit_reflect_derive::shape::associated_const_type_has_proven_static_shape;
use qubit_reflect_derive::substitution::substitute_impl_lifetimes;
use qubit_reflect_derive::substitution::substitute_lifetime_tokens;
use qubit_reflect_derive::substitution::substitute_path_lifetimes;
use qubit_reflect_derive::substitution::tokens_text;
use qubit_reflect_derive::codegen::argument_expectation;
use qubit_reflect_derive::codegen::emit_unavailable_reasons;
use qubit_reflect_derive::codegen::facade_tokens;
use qubit_reflect_derive::variant_access::adapters;
use qubit_reflect_derive::construction::struct_adapters;
use qubit_reflect_derive::construction::struct_descriptor;
use qubit_reflect_derive::codegen::construction_entry;
use qubit_reflect_derive::codegen::update_entry;
use qubit_reflect_derive::codegen::hook_type_bounds;
use qubit_reflect_derive::codegen::numeric_discriminant;

const SPAN: usize = 9;

fn ident(name: &str) -> TokenTreeIr {
    TokenTreeIr::Ident { name: name.to_string(), span: SPAN }
}

fn punct(ch: char, joint: bool) -> TokenTreeIr {
    TokenTreeIr::Punct { ch, joint, span: SPAN }
}

fn lifetime_tokens(name: &str) -> Vec<TokenTreeIr> {
    vec![punct('\'', true), ident(name.trim_start_matches('\''))]
}

fn copy_tokens(tokens: &[TokenTreeIr]) -> Vec<TokenTreeIr> {
    tokens
        .iter()
        .map(|token| match token {
            TokenTreeIr::Ident { name, span } => TokenTreeIr::Ident { name: name.clone(), span: *span },
            TokenTreeIr::Punct { ch, joint, span } => TokenTreeIr::Punct { ch: *ch, joint: *joint, span: *span },
            TokenTreeIr::Literal { text, span } => TokenTreeIr::Literal { text: text.clone(), span: *span },
            TokenTreeIr::Group { delimiter, tokens, span } => TokenTreeIr::Group {
                delimiter: *delimiter,
                tokens: copy_tokens(tokens),
                span: *span,
            },
        })
        .collect()
}

fn segment(name: &str, arguments: PathArgumentsIr) -> PathSegmentIr {
    PathSegmentIr { name: name.to_string(), arguments }
}

fn plain_path(names: &[&str]) -> PathIr {
    let mut tokens = Vec::new();
    for (index, name) in names.iter().enumerate() {
        if index > 0 {
            tokens.push(punct(':', true));
            tokens.push(punct(':', false));
        }
        tokens.push(ident(name));
    }
    PathIr {
        source: names.join(" :: "),
        segments: names.iter().map(|name| segment(name, PathArgumentsIr::Empty)).collect(),
        leading_colon: false,
        qualified_self: None,
        tokens,
        span: SPAN,
    }
}

fn path_type(path: PathIr) -> TypeIr {
    TypeIr { source: path.source.clone(), tokens: copy_tokens(&path.tokens), kind: TypeKindIr::Path(path), span: SPAN }
}

fn named(names: &[&str]) -> TypeIr {
    path_type(plain_path(names))
}

fn applied(names: &[&str], arguments: Vec<PathArgumentIr>) -> TypeIr {
    let mut path = plain_path(names);
    let mut tokens = copy_tokens(&path.tokens);
    tokens.push(punct('<', false));
    let mut source = path.source.clone();
    source.push_str(" <");
    for (index, argument) in arguments.iter().enumerate() {
        if index > 0 {
            tokens.push(punct(',', false));
            source.push_str(" ,");
        }
        match argument {
            PathArgumentIr::Type(ty) => {
                tokens.extend(copy_tokens(&ty.tokens));
                source.push(' ');
                source.push_str(&ty.source);
            }
            PathArgumentIr::Lifetime(lifetime) => {
                tokens.extend(lifetime_tokens(lifetime));
                source.push(' ');
                source.push_str(lifetime);
            }
            PathArgumentIr::Const(value) => {
                tokens.extend(copy_tokens(value));
                source.push_str(" N");
            }
            _ => {}
        }
    }
    tokens.push(punct('>', false));
    source.push_str(" >");
    path.tokens = copy_tokens(&tokens);
    path.source = source.clone();
    let last = path.segments.len() - 1;
    path.segments[last].arguments = PathArgumentsIr::AngleBracketed(arguments);
    TypeIr { source, tokens, kind: TypeKindIr::Path(path), span: SPAN }
}

fn reference(lifetime: Option<&str>, mutable: bool, element: TypeIr) -> TypeIr {
    let mut tokens = vec![punct('&', false)];
    if let Some(lifetime) = lifetime {
        tokens.extend(lifetime_tokens(lifetime));
    }
    if mutable {
        tokens.push(ident("mut"));
    }
    tokens.extend(copy_tokens(&element.tokens));
    let source = match lifetime {
        Some(lifetime) => format!("& {} {}", lifetime, element.source),
        None => format!("& {}", element.source),
    };
    TypeIr {
        source,
        tokens,
        kind: TypeKindIr::Reference { lifetime: lifetime.map(str::to_string), mutable, element: Box::new(element) },
        span: SPAN,
    }
}

fn array(element: TypeIr, length: &str) -> TypeIr {
    let inner = {
        let mut inner = copy_tokens(&element.tokens);
        inner.push(punct(';', false));
        inner.push(ident(length));
        inner
    };
    TypeIr {
        source: format!("[{} ; {}]", element.source, length),
        tokens: vec![TokenTreeIr::Group { delimiter: DelimiterIr::Bracket, tokens: inner, span: SPAN }],
        kind: TypeKindIr::Array { element: Box::new(element), length: vec![ident(length)] },
        span: SPAN,
    }
}

fn param(name: &str, kind: GenericKindIr) -> GenericParamIr {
    GenericParamIr {
        name: name.to_string(),
        kind,
        bounds: Vec::new(),
        default: None,
        const_type: match kind {
            GenericKindIr::Const => Some(named(&["usize"])),
            _ => None,
        },
        declaration: vec![ident(name)],
        span: SPAN,
    }
}

fn generics(params: Vec<GenericParamIr>) -> GenericsIr {
    GenericsIr {
        params,
        where_predicates: Vec::new(),
        declaration: Vec::new(),
        impl_declaration: Vec::new(),
        arguments: Vec::new(),
        where_clause: Vec::new(),
    }
}

fn flag(name: HelperName, target: HelperTarget) -> HelperAttributeIr {
    HelperAttributeIr { name, value: HelperValueIr::Flag, target, span: SPAN, value_span: SPAN }
}

fn field(name: &str, index: usize, ty: TypeIr, attributes: Vec<HelperAttributeIr>) -> FieldIr {
    FieldIr { name: Some(name.to_string()), index, visibility: VisibilityIr::Inherited, ty, attributes, span: SPAN }
}

fn structure(params: Vec<GenericParamIr>, fields: Vec<FieldIr>) -> TypeDeclarationIr {
    TypeDeclarationIr {
        name: "Fixture".to_string(),
        kind: TypeDeclarationKindIr::Struct,
        visibility: VisibilityIr::Inherited,
        generics: generics(params),
        attributes: Vec::new(),
        fields,
        variants: Vec::new(),
        retained_tokens: Vec::new(),
        span: SPAN,
    }
}

fn receiver(kind: ReceiverKindIr, ty: TypeIr) -> ReceiverIr {
    ReceiverIr { kind, ty, declaration: Vec::new(), span: SPAN }
}

fn parameter(index: usize, ty: TypeIr) -> ParameterIr {
    let mut declaration = vec![ident("value"), punct(':', false)];
    declaration.extend(copy_tokens(&ty.tokens));
    ParameterIr {
        name: Some("value".to_string()),
        pattern: ParameterPatternIr {
            kind: ParameterPatternKindIr::Identifier,
            source: "value".to_string(),
            tokens: vec![ident("value")],
        },
        ty,
        index,
        declaration,
        span: SPAN,
    }
}

struct MethodShape {
    receiver: Option<ReceiverIr>,
    parameters: Vec<ParameterIr>,
    return_type: ReturnTypeIr,
    generic: bool,
    is_async: bool,
    is_unsafe: bool,
    abi: Option<&'static str>,
    attributes: Vec<HelperAttributeIr>,
    has_default: bool,
}

fn shape() -> MethodShape {
    MethodShape {
        receiver: Some(receiver(ReceiverKindIr::SharedReference, named(&["Self"]))),
        parameters: Vec::new(),
        return_type: ReturnTypeIr::Unit,
        generic: false,
        is_async: false,
        is_unsafe: false,
        abi: None,
        attributes: Vec::new(),
        has_default: false,
    }
}

fn method(shape: MethodShape) -> MethodIr {
    MethodIr {
        name: "execute".to_string(),
        visibility: VisibilityIr::Inherited,
        generics: generics(if shape.generic { vec![param("T", GenericKindIr::Type)] } else { Vec::new() }),
        receiver: shape.receiver,
        parameters: shape.parameters,
        return_type: shape.return_type,
        qualifiers: MethodQualifiersIr {
            is_const: false,
            is_async: shape.is_async,
            is_unsafe: shape.is_unsafe,
            abi: shape.abi.map(str::to_string),
            is_variadic: false,
        },
        has_default: shape.has_default,
        attributes: shape.attributes,
        specializations: Vec::new(),
        span: SPAN,
    }
}

fn reasons(plan: &InvocationPlan) -> &[UnavailableReasonPlan] {
    match &plan.availability {
        AvailabilityPlan::Executable => &[],
        AvailabilityPlan::DescribedOnly(reasons) => reasons,
    }
}

#[test]
fn safe_method_is_executable() {
    let method = method(MethodShape {
        parameters: vec![parameter(0, named(&["u32"]))],
        return_type: ReturnTypeIr::Type(named(&["String"])),
        ..shape()
    });
    let plan = analyze_method(&method, MethodContext::implementation());
    assert!(plan.is_executable());
    assert_eq!(plan.output, OutputPlan::Owned);
    assert!(matches!(plan.receiver, Some(ReceiverPlan::SharedReference)));
}

#[test]
fn unsafe_abi_and_generic_reasons_are_canonical() {
    let unsafe_method = method(MethodShape {
        parameters: vec![parameter(0, named(&["u32"]))],
        return_type: ReturnTypeIr::Type(named(&["u32"])),
        is_unsafe: true,
        abi: Some("C"),
        ..shape()
    });
    assert_eq!(
        reasons(&analyze_method(&unsafe_method, MethodContext::implementation())),
        &[UnavailableReasonPlan::UnsafeMethod, UnavailableReasonPlan::UnsupportedAbi],
    );

    let generic_method = method(MethodShape {
        parameters: vec![parameter(0, named(&["T"]))],
        return_type: ReturnTypeIr::Type(named(&["T"])),
        generic: true,
        ..shape()
    });
    assert_eq!(
        reasons(&analyze_method(&generic_method, MethodContext::implementation())),
        &[UnavailableReasonPlan::UnspecializedGeneric],
    );
}

#[test]
fn policy_and_async_borrow_disable_execution() {
    let disabled = method(MethodShape { attributes: vec![flag(HelperName::NoInvoke, HelperTarget::Method)], ..shape() });
    assert_eq!(
        reasons(&analyze_method(&disabled, MethodContext::implementation())),
        &[UnavailableReasonPlan::DisabledByPolicy],
    );

    let asynchronous = method(MethodShape {
        return_type: ReturnTypeIr::Type(reference(None, false, named(&["str"]))),
        is_async: true,
        ..shape()
    });
    assert_eq!(
        reasons(&analyze_method(&asynchronous, MethodContext::implementation())),
        &[UnavailableReasonPlan::UnsupportedBorrowedReturn],
    );
}

#[test]
fn adapter_modes_and_pinned_receiver_are_retained() {
    let pinned_receiver = receiver(
        ReceiverKindIr::Typed,
        applied(&["std", "pin", "Pin"], vec![PathArgumentIr::Type(reference(None, true, named(&["Self"])))]),
    );
    assert_eq!(typed_pinned_receiver_mutable(&pinned_receiver), Some(true));
    let thread_safe = method(MethodShape {
        receiver: Some(pinned_receiver),
        return_type: ReturnTypeIr::Type(named(&["u32"])),
        attributes: vec![flag(HelperName::ThreadSafe, HelperTarget::Method)],
        ..shape()
    });
    let pinned_plan = analyze_method(&thread_safe, MethodContext::implementation());
    assert!(pinned_plan.modes.thread_safe);
    assert_eq!(pinned_plan.pinned_receiver_mutability(), Some(true));
    assert_eq!(reasons(&pinned_plan), &[UnavailableReasonPlan::DisabledByPolicy]);

    let catching = method(MethodShape {
        return_type: ReturnTypeIr::Type(named(&["u32"])),
        attributes: vec![flag(HelperName::CatchUnwind, HelperTarget::Method)],
        ..shape()
    });
    let plan = analyze_method(&catching, MethodContext::implementation());
    assert!(plan.is_executable());
    assert!(plan.modes.catching);
}

#[test]
fn trait_default_requires_proven_owner_facts() {
    let output = path_type(PathIr {
        source: "Self :: Output".to_string(),
        segments: vec![segment("Self", PathArgumentsIr::Empty), segment("Output", PathArgumentsIr::Empty)],
        leading_colon: false,
        qualified_self: None,
        tokens: vec![ident("Self"), punct(':', true), punct(':', false), ident("Output")],
        span: SPAN,
    });
    assert!(type_contains_associated_type(&output));
    let method = method(MethodShape { return_type: ReturnTypeIr::Type(output), has_default: true, ..shape() });
    let plan = analyze_method(&method, MethodContext::trait_default(true));
    assert_eq!(reasons(&plan), &[UnavailableReasonPlan::DisabledByPolicy]);
}

#[test]
fn default_methods_get_adapters_only_with_proven_owner_facts() {
    let output = path_type(PathIr {
        source: "Self :: Output".to_string(),
        segments: vec![segment("Self", PathArgumentsIr::Empty), segment("Output", PathArgumentsIr::Empty)],
        leading_colon: false,
        qualified_self: None,
        tokens: vec![ident("Self"), punct(':', true), punct(':', false), ident("Output")],
        span: SPAN,
    });
    let projected = method(MethodShape { return_type: ReturnTypeIr::Type(output), has_default: true, ..shape() });
    assert!(has_unproven_associated_type(&projected));
    assert_eq!(reasons(&default_method_plan(&projected)), &[UnavailableReasonPlan::DisabledByPolicy]);
    assert_eq!(default_method_adapter(&projected), None);

    let shared = method(MethodShape { has_default: true, ..shape() });
    assert!(!has_unproven_associated_type(&shared));
    assert!(default_method_plan(&shared).is_executable());
    assert_eq!(default_method_adapter(&shared), Some(DefaultReceiverIr::Shared));

    let required = method(MethodShape { has_default: false, ..shape() });
    assert_eq!(default_method_adapter(&required), None);

    let associated = method(MethodShape { receiver: None, has_default: true, ..shape() });
    assert_eq!(default_method_adapter(&associated), Some(DefaultReceiverIr::Static));

    let boxed = method(MethodShape {
        receiver: Some(receiver(ReceiverKindIr::Typed, applied(&["Box"], vec![PathArgumentIr::Type(named(&["Self"]))]))),
        has_default: true,
        ..shape()
    });
    assert_eq!(default_method_adapter(&boxed), Some(DefaultReceiverIr::OwnedContainer(OwnedContainerIr::Box)));

    let owned = method(MethodShape { receiver: Some(receiver(ReceiverKindIr::Value, named(&["Self"]))), has_default: true, ..shape() });
    assert_eq!(default_method_adapter(&owned), Some(DefaultReceiverIr::OwnedSelf));
}

#[test]
fn owned_container_receivers_and_parameter_plans() {
    let boxed = method(MethodShape {
        receiver: Some(receiver(ReceiverKindIr::Typed, applied(&["Box"], vec![PathArgumentIr::Type(named(&["Self"]))]))),
        parameters: vec![parameter(0, reference(None, false, named(&["u8"]))), parameter(1, named(&["u8"]))],
        ..shape()
    });
    let plan = analyze_method(&boxed, MethodContext::implementation());
    assert_eq!(plan.owned_receiver_type(), Some(OwnedContainerIr::Box));
    assert_eq!(plan.parameter_count(), 2);
    assert_eq!(plan.parameters[1].index, 1);
    assert!(plan.is_executable());

    let unsized_parameter = TypeIr {
        source: "[u8]".to_string(),
        tokens: Vec::new(),
        kind: TypeKindIr::Slice(Box::new(named(&["u8"]))),
        span: SPAN,
    };
    let typed = method(MethodShape {
        receiver: Some(receiver(ReceiverKindIr::Typed, applied(&["Wrapper"], vec![PathArgumentIr::Type(named(&["Self"]))]))),
        parameters: vec![parameter(0, reference(None, false, unsized_parameter))],
        ..shape()
    });
    let plan = analyze_method(&typed, MethodContext::implementation());
    assert!(matches!(plan.receiver, Some(ReceiverPlan::Unsupported)));
    assert_eq!(
        reasons(&plan),
        &[UnavailableReasonPlan::UnsupportedReceiver, UnavailableReasonPlan::UnsupportedUnsizedValue],
    );

    let extension = MethodContext { extension_receiver: Some(vec![ident("Wrapper")]), default_method: false, has_unproven_associated_type: false };
    let typed = method(MethodShape {
        receiver: Some(receiver(ReceiverKindIr::Typed, applied(&["Wrapper"], vec![PathArgumentIr::Type(named(&["Self"]))]))),
        ..shape()
    });
    let plan = analyze_method(&typed, extension);
    assert!(plan.extension_receiver_type().is_some());
    assert!(plan.is_executable());
}

#[test]
fn opaque_and_mutable_borrow_returns() {
    let opaque = method(MethodShape {
        return_type: ReturnTypeIr::Type(TypeIr {
            source: "impl Iterator".to_string(),
            tokens: Vec::new(),
            kind: TypeKindIr::ImplTrait { bounds: Vec::new() },
            span: SPAN,
        }),
        ..shape()
    });
    let plan = analyze_method(&opaque, MethodContext::implementation());
    assert_eq!(plan.output, OutputPlan::Opaque);
    assert_eq!(reasons(&plan), &[UnavailableReasonPlan::OpaqueReturn]);

    let unique = method(MethodShape {
        receiver: Some(receiver(ReceiverKindIr::MutableReference, named(&["Self"]))),
        return_type: ReturnTypeIr::Type(reference(None, true, named(&["u8"]))),
        ..shape()
    });
    let plan = analyze_method(&unique, MethodContext::implementation());
    assert_eq!(plan.output, OutputPlan::MutableBorrow);
    assert!(plan.is_executable());

    let ambiguous = method(MethodShape {
        receiver: Some(receiver(ReceiverKindIr::SharedReference, named(&["Self"]))),
        return_type: ReturnTypeIr::Type(reference(None, true, named(&["u8"]))),
        ..shape()
    });
    let plan = analyze_method(&ambiguous, MethodContext::implementation());
    assert_eq!(reasons(&plan), &[UnavailableReasonPlan::UnsupportedBorrowedReturn]);
}

#[test]
fn explicit_facade_has_priority() {
    let attributes = vec![HelperAttributeIr {
        name: HelperName::RuntimeCrate,
        value: HelperValueIr::RuntimeCrate(plain_path(&["framework", "reflect"])),
        target: HelperTarget::Type,
        span: SPAN,
        value_span: SPAN,
    }];
    let context = ExpansionContext::from_attributes(&attributes, None).expect("explicit facade must resolve");
    assert_eq!(context.facade, FacadeIr::Explicit(0));
    match &attributes[0].value {
        HelperValueIr::RuntimeCrate(path) => assert_eq!(path.source, "framework :: reflect"),
        _ => unreachable!(),
    }
}

#[test]
fn renamed_dependency_becomes_an_absolute_path() {
    let context = ExpansionContext::from_found_crate(Some(FoundCrateIr::Name("reflect_runtime".to_string())))
        .expect("renamed dependency must resolve");
    assert_eq!(context.facade, FacadeIr::Absolute("reflect_runtime".to_string()));
    let itself = ExpansionContext::from_found_crate(Some(FoundCrateIr::Itself)).expect("the facade itself resolves");
    assert_eq!(itself.facade, FacadeIr::CrateItself);
}

#[test]
fn missing_facade_reports_actionable_error() {
    let error = ExpansionContext::from_found_crate(None).expect_err("missing runtime must fail");
    assert!(error.contains("#[reflect(crate = path)]"));
}

#[test]
fn fingerprints_are_fnv1a() {
    assert_eq!(fingerprint(""), 0xcbf29ce484222325);
    assert_eq!(fingerprint("a"), 0xaf63dc4c8601ec8c);
    assert_eq!(fingerprint("foobar"), 0x85944171f73967e8);
    let context = ExpansionContext::from_found_crate(Some(FoundCrateIr::Itself)).expect("resolves");
    assert_eq!(context.fingerprint("foobar"), fingerprint("foobar"));
}

#[test]
fn enum_representations_name_their_integers() {
    assert_eq!(EnumReprIr::I8.integer_name(), Some("i8"));
    assert_eq!(EnumReprIr::U128.integer_name(), Some("u128"));
    assert_eq!(EnumReprIr::Usize.integer_name(), Some("usize"));
    assert_eq!(EnumReprIr::C.integer_name(), None);
    assert_eq!(EnumReprIr::Align(8).integer_name(), None);
}

#[test]
fn dynamic_record_additions_wrap() {
    let mut record = DynamicRecord { value: u64::MAX - 1 };
    record.add(1);
    assert_eq!(record.value, u64::MAX);
    record.add(3);
    assert_eq!(record.value, 2);
    let mut first = DynamicRecord { value: 5 };
    first.add(u64::MAX);
    first.add(7);
    let mut second = DynamicRecord { value: 5 };
    second.add(u64::MAX.wrapping_add(7));
    assert_eq!(first.value, second.value);
}

#[test]
fn test_const_and_lifetime_only_fields_receive_complete_reflect_bounds() {
    let declaration = structure(
        vec![param("a", GenericKindIr::Lifetime), param("N", GenericKindIr::Const)],
        vec![
            field("borrowed", 0, reference(Some("'a"), false, named(&["str"])), Vec::new()),
            field("bytes", 1, array(named(&["u8"]), "N"), Vec::new()),
            field("conditional", 2, applied(&["Conditional"], vec![PathArgumentIr::Const(vec![ident("N")])]), Vec::new()),
            field("plain", 3, named(&["u64"]), Vec::new()),
        ],
    );
    let field_types: Vec<_> = reflected_field_types(&declaration).into_iter().map(|field_type| field_type.source.as_str()).collect();
    assert_eq!(field_types, ["& 'a str", "[u8 ; N]", "Conditional < N >"]);
}

#[test]
fn opaque_fields_and_transparent_parameters() {
    let declaration = structure(
        vec![param("T", GenericKindIr::Type), param("U", GenericKindIr::Type), param("V", GenericKindIr::Type)],
        vec![
            field("items", 0, applied(&["std", "vec", "Vec"], vec![PathArgumentIr::Type(named(&["T"]))]), Vec::new()),
            field("custom", 1, applied(&["Custom"], vec![PathArgumentIr::Type(named(&["U"]))]), Vec::new()),
            field("hidden", 2, named(&["V"]), vec![flag(HelperName::Opaque, HelperTarget::Field)]),
        ],
    );
    assert_eq!(reflected_field_types(&declaration).len(), 2);
    assert_eq!(transparently_reflected_type_parameters(&declaration), vec!["T".to_string()]);
    assert_eq!(transparent_constructor_arity(&plain_path(&["std", "collections", "HashMap"])), Some(2));
    assert_eq!(transparent_constructor_arity(&plain_path(&["alloc", "rc", "Rc"])), Some(1));
    assert_eq!(transparent_constructor_arity(&plain_path(&["core", "vec", "Vec"])), None);
    assert_eq!(transparent_constructor_arity(&plain_path(&["Vec"])), None);
}

#[test]
fn generic_occurrences_in_path_arguments() {
    let arguments = PathArgumentsIr::AngleBracketed(vec![
        PathArgumentIr::Lifetime("'a".to_string()),
        PathArgumentIr::Type(named(&["T"])),
        PathArgumentIr::Const(vec![ident("N")]),
    ]);
    assert!(path_arguments_use_parameter(&arguments, "T"));
    assert!(!path_arguments_use_parameter(&arguments, "U"));
    assert!(path_arguments_use_lifetime(&arguments, "a"));
    assert!(!path_arguments_use_lifetime(&arguments, "b"));
    assert!(path_arguments_use_const(&arguments, "N"));
    assert!(!path_arguments_use_const(&arguments, "M"));
    let shadowed = TypeIr {
        source: "for < 'a > fn (& 'a u8)".to_string(),
        tokens: Vec::new(),
        kind: TypeKindIr::BareFunction {
            lifetimes: vec!["'a".to_string()],
            inputs: vec![reference(Some("'a"), false, named(&["u8"]))],
            output: None,
            is_unsafe: false,
            abi: None,
            is_variadic: false,
        },
        span: SPAN,
    };
    assert!(!type_uses_lifetime(&shadowed, "a"));
}

#[test]
fn generic_environment_tracks_parameter_kinds() {
    let environment = GenericEnvironment::new();
    assert!(!environment.is_type_parameter("T"));
    let environment = environment.with_type_parameter("T".to_string()).with_const_parameter("N".to_string());
    assert!(environment.is_type_parameter("T"));
    assert!(!environment.is_type_parameter("N"));
    assert!(environment.is_const_parameter("N"));
    let scoped = GenericEnvironment::from_generics(&generics(vec![
        param("a", GenericKindIr::Lifetime),
        param("U", GenericKindIr::Type),
        param("M", GenericKindIr::Const),
    ]));
    assert!(scoped.is_type_parameter("U"));
    assert!(scoped.is_const_parameter("M"));
    assert!(!scoped.is_type_parameter("a"));
}

#[test]
fn definition_provider_names_are_snake_case() {
    assert_eq!(definition_provider_name("HttpServer"), "__qubit_reflect_generic_definition_http_server");
    assert_eq!(definition_provider_name("Record"), "__qubit_reflect_generic_definition_record");
    assert_eq!(definition_provider_name("ABC"), "__qubit_reflect_generic_definition_a_b_c");
}

#[test]
fn helper_is_available_as_a_narrow_parent_api() {
    assert!(has_proven_static_shape(&named(&["u32"])));
    assert!(associated_const_type_has_proven_static_shape(&named(&["u32"])));
}

#[test]
fn static_shapes_reject_unresolved_lifetimes() {
    assert!(associated_const_type_has_proven_static_shape(&reference(Some("'static"), false, named(&["str"]))));
    assert!(!associated_const_type_has_proven_static_shape(&reference(Some("'a"), false, named(&["str"]))));
    assert!(!associated_const_type_has_proven_static_shape(&reference(None, false, named(&["str"]))));
    assert!(!associated_const_type_has_proven_static_shape(&named(&["Self"])));
    let callable = TypeIr {
        source: "for < 'a > fn (& 'a u8 , & u8)".to_string(),
        tokens: Vec::new(),
        kind: TypeKindIr::BareFunction {
            lifetimes: vec!["'a".to_string()],
            inputs: vec![reference(Some("'a"), false, named(&["u8"])), reference(None, false, named(&["u8"]))],
            output: None,
            is_unsafe: false,
            abi: None,
            is_variadic: false,
        },
        span: SPAN,
    };
    assert!(associated_const_type_has_proven_static_shape(&callable));
}

fn bound(names: &[&str]) -> GenericBoundIr {
    GenericBoundIr::Trait { path: plain_path(names), modifier: TraitBoundModifierIr::Plain, lifetimes: Vec::new() }
}

fn object_safe_trait(supertraits: Vec<GenericBoundIr>, methods: Vec<MethodIr>) -> TraitDeclarationIr {
    TraitDeclarationIr {
        name: "Service".to_string(),
        visibility: VisibilityIr::Inherited,
        generics: generics(Vec::new()),
        supertraits,
        attributes: Vec::new(),
        external_traits: Vec::new(),
        reflected_supertraits: Vec::new(),
        methods,
        associated_types: Vec::new(),
        associated_consts: Vec::new(),
        has_other_items: false,
        retained_tokens: Vec::new(),
        span: SPAN,
    }
}

#[test]
fn dyn_analysis_module_is_loaded() {
    let _entry = is_provably_dyn_compatible;
}

#[test]
fn dyn_compatibility_follows_methods_and_supertraits() {
    let simple = object_safe_trait(vec![bound(&["std", "fmt", "Debug"]), bound(&["core", "marker", "Send"])], vec![method(shape())]);
    assert!(is_provably_dyn_compatible(&simple));

    let sized = object_safe_trait(vec![bound(&["Sized"])], Vec::new());
    assert!(!is_known_dyn_compatible_bound(&sized.supertraits[0]));
    assert!(!is_provably_dyn_compatible(&sized));

    let unknown = object_safe_trait(vec![bound(&["Clone"])], Vec::new());
    assert!(!is_provably_dyn_compatible(&unknown));

    let generic = object_safe_trait(Vec::new(), vec![method(MethodShape { generic: true, ..shape() })]);
    assert!(!is_provably_dyn_compatible(&generic));

    let mut sized_generic = method(MethodShape { generic: true, ..shape() });
    sized_generic.generics.where_predicates.push(WherePredicateIr::Type {
        bounded_type: named(&["Self"]),
        lifetimes: Vec::new(),
        bounds: vec![bound(&["Sized"])],
        declaration: Vec::new(),
    });
    assert!(method_is_dyn_dispatchable(&sized_generic));

    let returns_self = method(MethodShape { return_type: ReturnTypeIr::Type(named(&["Self"])), ..shape() });
    assert!(!method_is_dyn_dispatchable(&returns_self));

    let mut asserted = object_safe_trait(vec![bound(&["Clone"])], Vec::new());
    asserted.attributes.push(flag(HelperName::DynCompatible, HelperTarget::Trait));
    assert!(is_provably_dyn_compatible(&asserted));

    let rc_receiver = applied(&["std", "rc", "Rc"], vec![PathArgumentIr::Type(named(&["Self"]))]);
    assert!(receiver_type_is_dyn_dispatchable(&rc_receiver));
    let vec_receiver = applied(&["Vec"], vec![PathArgumentIr::Type(named(&["Self"]))]);
    assert!(!receiver_type_is_dyn_dispatchable(&vec_receiver));
}

#[test]
fn unprojected_self_tokens() {
    assert!(!tokens_contain_unprojected_self(&vec![ident("Self"), punct(':', true), punct(':', false), ident("Item")]));
    assert!(tokens_contain_unprojected_self(&vec![ident("Vec"), punct('<', false), ident("Self"), punct('>', false)]));
    let grouped = vec![TokenTreeIr::Group { delimiter: DelimiterIr::Parenthesis, tokens: vec![ident("Self")], span: SPAN }];
    assert!(tokens_contain_unprojected_self(&grouped));
}

#[test]
fn inherited_items_belong_to_their_owner() {
    assert!(inherited_belongs_to_supertrait(&plain_path(&["Base", "Item"]), &plain_path(&["Base"])));
    assert!(!inherited_belongs_to_supertrait(&plain_path(&["Other", "Item"]), &plain_path(&["Base"])));
    assert!(!inherited_belongs_to_supertrait(&plain_path(&["Base"]), &plain_path(&["Base"])));
}

#[test]
fn associated_types_in_paths() {
    let mut qualified = plain_path(&["Item"]);
    qualified.qualified_self = Some(Box::new(QualifiedSelfIr { ty: named(&["T"]), position: 0, has_as: true }));
    assert!(path_contains_associated_type(&qualified));
    assert!(!path_contains_associated_type(&plain_path(&["std", "string", "String"])));
    assert!(path_contains_associated_type(&plain_path(&["Self", "Item"])));
    assert!(!path_contains_associated_type(&plain_path(&["Self"])));
}

#[test]
fn non_static_lifetimes_in_paths() {
    let borrowed = applied(&["Cow"], vec![PathArgumentIr::Lifetime("'a".to_string()), PathArgumentIr::Type(named(&["str"]))]);
    match &borrowed.kind {
        TypeKindIr::Path(path) => assert!(path_contains_non_static_lifetime(path)),
        _ => unreachable!(),
    }
    let fixed = applied(&["Cow"], vec![PathArgumentIr::Lifetime("'static".to_string()), PathArgumentIr::Type(named(&["str"]))]);
    match &fixed.kind {
        TypeKindIr::Path(path) => assert!(!path_contains_non_static_lifetime(path)),
        _ => unreachable!(),
    }
}

#[test]
fn impl_lifetimes_become_static() {
    let names: [&str; 1] = ["a"];
    let tokens = vec![punct('&', false), punct('\'', true), ident("a"), ident("str")];
    let rewritten = substitute_lifetime_tokens(&tokens, &names);
    assert_eq!(rewritten.len(), 4);
    assert!(matches!(&rewritten[1], TokenTreeIr::Punct { ch: '\'', joint: true, span } if *span == CALL_SITE_SPAN));
    assert!(matches!(&rewritten[2], TokenTreeIr::Ident { name, .. } if name == "static"));
    assert_eq!(tokens_text(&rewritten), "& 'static str");

    let kept = vec![punct('\'', true), ident("b")];
    assert!(matches!(&substitute_lifetime_tokens(&kept, &names)[1], TokenTreeIr::Ident { name, .. } if name == "b"));

    let borrowed = applied(&["Cow"], vec![PathArgumentIr::Lifetime("'a".to_string()), PathArgumentIr::Type(named(&["str"]))]);
    let mut path = match borrowed.kind {
        TypeKindIr::Path(path) => path,
        _ => unreachable!(),
    };
    substitute_path_lifetimes(&mut path, &names);
    match &path.segments[0].arguments {
        PathArgumentsIr::AngleBracketed(arguments) => {
            assert!(matches!(&arguments[0], PathArgumentIr::Lifetime(lifetime) if lifetime == "'static"));
        }
        _ => unreachable!(),
    }
    assert!(!path_contains_non_static_lifetime(&path));
    assert_eq!(path.source, "Cow < 'static , str >");

    let mut declaration = qubit_reflect_derive::ir::ImplDeclarationIr {
        generics: generics(vec![param("a", GenericKindIr::Lifetime)]),
        target_type: reference(Some("'a"), false, named(&["str"])),
        trait_path: None,
        attributes: Vec::new(),
        specializations: Vec::new(),
        methods: vec![method(MethodShape { return_type: ReturnTypeIr::Type(reference(Some("'a"), false, named(&["u8"]))), ..shape() })],
        associated_types: Vec::new(),
        associated_consts: Vec::new(),
        retained_tokens: Vec::new(),
        span: SPAN,
    };
    substitute_impl_lifetimes(&mut declaration, &names);
    assert!(matches!(&declaration.target_type.kind, TypeKindIr::Reference { lifetime: Some(lifetime), .. } if lifetime == "'static"));
    match &declaration.methods[0].return_type {
        ReturnTypeIr::Type(ty) => assert!(matches!(&ty.kind, TypeKindIr::Reference { lifetime: Some(lifetime), .. } if lifetime == "'static")),
        ReturnTypeIr::Unit => unreachable!(),
    }
}

#[test]
fn member_plans_follow_helpers() {
    let skipped = field("value", 0, named(&["u8"]), vec![flag(HelperName::Skip, HelperTarget::Field), flag(HelperName::ReadOnly, HelperTarget::Field)]);
    assert_eq!(field_access_policy(&skipped), AccessPolicyIr::Skipped);
    assert_eq!(construction_field(&skipped), ConstructionFieldIr::Unavailable);
    let read_only = field("value", 0, named(&["u8"]), vec![flag(HelperName::ReadOnly, HelperTarget::Field)]);
    assert_eq!(field_access_policy(&read_only), AccessPolicyIr::ReadOnly);
    assert_eq!(construction_field(&read_only), ConstructionFieldIr::Required);
    let defaulted = field(
        "value",
        0,
        named(&["u8"]),
        vec![
            HelperAttributeIr { name: HelperName::Default, value: HelperValueIr::DefaultPath(None), target: HelperTarget::Field, span: SPAN, value_span: SPAN },
            flag(HelperName::NoConstruct, HelperTarget::Field),
        ],
    );
    assert_eq!(construction_field(&defaulted), ConstructionFieldIr::ProviderOnly);
    let renamed = field(
        "value",
        0,
        named(&["u8"]),
        vec![HelperAttributeIr { name: HelperName::Rename, value: HelperValueIr::Rename("payload".to_string()), target: HelperTarget::Field, span: SPAN, value_span: SPAN }],
    );
    assert_eq!(field_query_name(&renamed), Some("payload".to_string()));
    assert_eq!(field_query_name(&read_only), Some("value".to_string()));
    let unnamed = FieldIr { name: None, index: 0, visibility: VisibilityIr::Public, ty: named(&["u8"]), attributes: Vec::new(), span: SPAN };
    assert_eq!(field_query_name(&unnamed), None);
    assert_eq!(struct_kind(&vec![]), StructKindIr::Unit);
    assert_eq!(struct_kind(&vec![unnamed]), StructKindIr::Newtype);
    assert_eq!(struct_kind(&vec![renamed]), StructKindIr::Named);
    assert_eq!(capability_kind(&plain_path(&["Clone"])), CapabilityIr::Clone);
    assert_eq!(capability_kind(&plain_path(&["Sync"])), CapabilityIr::Sync);
    assert_eq!(capability_kind(&plain_path(&["my", "Capability"])), CapabilityIr::Custom);
    let mut compact = plain_path(&["std", "clone", "Clone"]);
    compact.source = "std::clone::Clone".to_string();
    assert_eq!(capability_kind(&compact), CapabilityIr::Clone);
}

#[test]
fn target_sets_hold_their_bits() {
    let set = TargetSet::new(HelperTarget::Type.bit() | HelperTarget::Method.bit());
    assert!(set.contains(HelperTarget::Type));
    assert!(set.contains(HelperTarget::Method));
    assert!(!set.contains(HelperTarget::Field));
    assert!(HelperName::ThreadSafe.targets().contains(HelperTarget::Method));
    assert_eq!(HelperTarget::AssociatedItem.as_str(), "associated item");
}

fn associated(name: &str, sized_only: bool) -> AssociatedTypeIr {
    let mut generics = generics(Vec::new());
    if sized_only {
        generics.where_predicates.push(WherePredicateIr::Type {
            bounded_type: named(&["Self"]),
            lifetimes: Vec::new(),
            bounds: vec![bound(&["Sized"])],
            declaration: Vec::new(),
        });
    }
    AssociatedTypeIr {
        name: name.to_string(),
        generics,
        bounds: Vec::new(),
        value: None,
        declaration: Vec::new(),
        attributes: Vec::new(),
        span: SPAN,
    }
}

fn dyn_trait_with(associated_types: Vec<AssociatedTypeIr>, inherited: Vec<PathIr>) -> TraitDeclarationIr {
    let mut declaration = object_safe_trait(vec![bound(&["Base"])], Vec::new());
    declaration.generics = generics(vec![param("a", GenericKindIr::Lifetime), param("T", GenericKindIr::Type)]);
    declaration.associated_types = associated_types;
    declaration.attributes.push(HelperAttributeIr {
        name: HelperName::DynCompatible,
        value: HelperValueIr::DynCompatible(inherited),
        target: HelperTarget::Trait,
        span: SPAN,
        value_span: SPAN,
    });
    declaration
}

fn names_of(tokens: &[TokenTreeIr]) -> Vec<String> {
    tokens
        .iter()
        .map(|token| match token {
            TokenTreeIr::Ident { name, .. } => name.clone(),
            TokenTreeIr::Punct { ch, .. } => ch.to_string(),
            TokenTreeIr::Literal { text, .. } => text.clone(),
            TokenTreeIr::Group { tokens, .. } => format!("({})", names_of(tokens).join(" ")),
        })
        .collect()
}

#[test]
fn trait_objects_bind_own_then_inherited_associated_types() {
    let declaration = dyn_trait_with(
        vec![associated("Output", false), associated("Cache", true), associated("Error", false)],
        vec![plain_path(&["Base", "Item"]), plain_path(&["Base", "Error"]), plain_path(&["Other", "Key"])],
    );
    assert_eq!(dyn_inherited_associated_types(&declaration).len(), 3);
    assert_eq!(dyn_associated_bindings(&declaration), vec!["Output", "Error", "Item", "Key"]);
    assert_eq!(supertrait_associated_bindings(&declaration, &plain_path(&["Base"])), vec!["Item", "Error"]);
    assert!(supertrait_associated_bindings(&declaration, &plain_path(&["Missing"])).is_empty());
    assert_eq!(binding_parameter("Item"), "__QubitReflectAssociatedItem");
}

#[test]
fn trait_object_predicates_bind_projections_and_static_lifetimes() {
    let declaration = dyn_trait_with(vec![associated("Output", false)], vec![plain_path(&["Base", "Item"])]);
    let predicate = vec![
        ident("Self"),
        punct(':', true),
        punct(':', false),
        ident("Output"),
        punct(':', false),
        ident("Into"),
        punct('<', false),
        TokenTreeIr::Group {
            delimiter: DelimiterIr::Parenthesis,
            tokens: vec![ident("Self"), punct(':', true), punct(':', false), ident("Item"), punct(',', false), ident("Self"), punct(':', true), punct(':', false), ident("Other")],
            span: SPAN,
        },
        punct('>', false),
    ];
    let bound = replace_self_associated_types(&predicate, &declaration);
    assert_eq!(
        names_of(&bound),
        vec!["__QubitReflectAssociatedOutput", ":", "Into", "<", "(__QubitReflectAssociatedItem , Self : : Other)", ">"]
    );

    let mut application = lifetime_tokens("a");
    application.push(punct(',', false));
    application.extend(lifetime_tokens("b"));
    application.push(TokenTreeIr::Group { delimiter: DelimiterIr::Bracket, tokens: lifetime_tokens("a"), span: SPAN });
    let rewritten = replace_declared_lifetimes_with_static(&application, &declaration);
    assert_eq!(names_of(&rewritten), vec!["'", "static", ",", "'", "b", "(' static)"]);
}

fn binding(name: &str, value: SpecializationValueIr) -> SpecializationBindingIr {
    SpecializationBindingIr { name: name.to_string(), value, span: SPAN, value_span: SPAN }
}

fn specialization(bindings: Vec<SpecializationBindingIr>) -> SpecializationIr {
    SpecializationIr { bindings, span: SPAN }
}

#[test]
fn specializations_supply_arguments_by_kind() {
    let chosen = specialization(vec![
        binding("T", SpecializationValueIr::Type(named(&["u8"]))),
        binding("N", SpecializationValueIr::Const(vec![TokenTreeIr::Literal { text: "16".to_string(), span: SPAN }])),
        binding("T", SpecializationValueIr::Type(named(&["u16"]))),
        binding("P", SpecializationValueIr::AmbiguousPath(vec![ident("SIZE")])),
    ]);
    assert_eq!(find_binding(&chosen, "T").map(|binding| binding.value_span), Some(SPAN));
    assert!(find_binding(&chosen, "Missing").is_none());
    assert_eq!(names_of(specialization_type_argument(&chosen, "T").unwrap()), vec!["u8"]);
    assert!(specialization_type_argument(&chosen, "N").is_none());
    assert_eq!(names_of(specialization_const_argument(&chosen, "N").unwrap()), vec!["16"]);
    assert_eq!(names_of(specialization_const_argument(&chosen, "P").unwrap()), vec!["SIZE"]);
    assert_eq!(names_of(specialization_type_argument(&chosen, "P").unwrap()), vec!["SIZE"]);
    assert!(specialization_const_argument(&chosen, "T").is_none());

    let method_params = vec![param("T", GenericKindIr::Type), param("N", GenericKindIr::Const)];
    let arguments = specialized_arguments(&method_params, &chosen).expect("every parameter is bound");
    assert_eq!(arguments.len(), 2);
    assert_eq!(names_of(arguments[0]), vec!["u8"]);
    assert_eq!(names_of(arguments[1]), vec!["16"]);
    let with_lifetime = vec![param("a", GenericKindIr::Lifetime), param("T", GenericKindIr::Type)];
    assert!(specialized_arguments(&with_lifetime, &chosen).is_none());
    let unbound = vec![param("U", GenericKindIr::Type)];
    assert!(specialized_arguments(&unbound, &chosen).is_none());

    let impl_params = vec![
        param("a", GenericKindIr::Lifetime),
        param("T", GenericKindIr::Type),
        param("N", GenericKindIr::Const),
        param("P", GenericKindIr::Type),
        param("U", GenericKindIr::Type),
    ];
    let planned = specialization_arguments(&chosen, &impl_params);
    assert_eq!(planned.len(), 3);
    assert!(matches!(planned[0], SpecializedArgumentIr::Type(ty) if ty.source == "u8"));
    assert!(matches!(planned[1], SpecializedArgumentIr::Const { declared_type, value } if declared_type.source == "usize" && names_of(value) == vec!["16"]));
    assert!(matches!(planned[2], SpecializedArgumentIr::AmbiguousType(tokens) if names_of(tokens) == vec!["SIZE"]));
}

#[test]
fn default_providers_and_constructible_variants() {
    let helper = |name: HelperName, value: HelperValueIr| HelperAttributeIr { name, value, target: HelperTarget::Field, span: SPAN, value_span: SPAN };
    let plain = field("value", 0, named(&["u8"]), Vec::new());
    assert!(default_provider(&plain).is_none());
    let by_type = field("value", 0, named(&["u8"]), vec![helper(HelperName::Default, HelperValueIr::DefaultPath(None))]);
    assert!(matches!(default_provider(&by_type), Some(DefaultProviderIr::TypeDefault)));
    let by_function = field(
        "value",
        0,
        named(&["u8"]),
        vec![
            flag(HelperName::ReadOnly, HelperTarget::Field),
            helper(HelperName::Default, HelperValueIr::DefaultPath(Some(plain_path(&["default_code"])))),
            helper(HelperName::Default, HelperValueIr::DefaultPath(None)),
        ],
    );
    assert!(matches!(default_provider(&by_function), Some(DefaultProviderIr::Function(path)) if path.source == "default_code"));

    let variant = |attributes: Vec<HelperAttributeIr>| VariantIr {
        name: "Ready".to_string(),
        index: 0,
        kind: VariantKindIr::Unit,
        fields: Vec::new(),
        attributes,
        discriminant: None,
        span: SPAN,
    };
    assert!(variant_constructible(&variant(Vec::new())));
    assert!(variant_constructible(&variant(vec![flag(HelperName::Rename, HelperTarget::Variant)])));
    assert!(!variant_constructible(&variant(vec![flag(HelperName::NoConstruct, HelperTarget::Variant)])));
    assert!(!variant_constructible(&variant(vec![flag(HelperName::Skip, HelperTarget::Variant)])));
}

fn described(assertions: &[MarkerAssertionIr<'_>]) -> Vec<String> {
    assertions
        .iter()
        .map(|assertion| {
            let subject = match assertion.subject {
                AssertedIr::Target => "Self".to_string(),
                AssertedIr::TargetMut => "&mut Self".to_string(),
                AssertedIr::ReceiverType => "receiver".to_string(),
                AssertedIr::Type(ty) => ty.source.clone(),
                AssertedIr::TypeMut(ty) => format!("&mut {}", ty.source),
            };
            format!("{:?} {}", assertion.marker, subject)
        })
        .collect()
}

#[test]
fn adapters_assert_marker_bounds_per_signature_position() {
    let shared_method = method(MethodShape {
        parameters: vec![
            parameter(0, reference(None, true, named(&["Buffer"]))),
            parameter(1, reference(None, false, named(&["Config"]))),
            parameter(2, named(&["u8"])),
        ],
        return_type: ReturnTypeIr::Type(named(&["Report"])),
        ..shape()
    });
    assert_eq!(
        described(&thread_safe_assertions(&shared_method, false)),
        vec!["Sync Self", "SendSync Buffer", "Sync Config", "SendSync u8", "SendSync Report"]
    );
    assert_eq!(
        described(&catching_assertions(&shared_method, false)),
        vec!["RefUnwindSafe Self", "UnwindSafe &mut Buffer", "RefUnwindSafe Config", "UnwindSafe u8", "UnwindSafe Report"]
    );

    let mutable_method = method(MethodShape {
        receiver: Some(receiver(ReceiverKindIr::MutableReference, named(&["Self"]))),
        return_type: ReturnTypeIr::Type(reference(None, false, named(&["str"]))),
        ..shape()
    });
    assert_eq!(described(&thread_safe_assertions(&mutable_method, false)), vec!["SendSync Self"]);
    assert_eq!(described(&catching_assertions(&mutable_method, false)), vec!["UnwindSafe &mut Self", "RefUnwindSafe str"]);
    assert_eq!(described(&thread_safe_assertions(&mutable_method, true)), vec!["SendSync receiver"]);
    assert_eq!(described(&catching_assertions(&mutable_method, true)), vec!["UnwindSafe receiver", "RefUnwindSafe str"]);

    let typed = method(MethodShape {
        receiver: Some(receiver(ReceiverKindIr::Typed, applied(&["Pin"], vec![PathArgumentIr::Type(reference(None, true, named(&["Self"])))]))),
        ..shape()
    });
    assert!(thread_safe_assertions(&typed, false).is_empty());
    assert!(catching_assertions(&typed, false).is_empty());
    assert_eq!(MarkerIr::Sync, MarkerIr::Sync);
}

#[test]
fn arguments_are_passed_by_their_borrow_mode() {
    assert!(matches!(argument_passing(&parameter(0, named(&["u8"]))), ArgumentPassingIr::Owned(ty) if ty.source == "u8"));
    assert!(matches!(argument_passing(&parameter(0, reference(None, false, named(&["str"])))), ArgumentPassingIr::SharedStr));
    assert!(matches!(argument_passing(&parameter(0, reference(None, true, named(&["str"])))), ArgumentPassingIr::MutableStr));
    assert!(matches!(argument_passing(&parameter(0, reference(None, false, named(&["Config"])))), ArgumentPassingIr::Shared(ty) if ty.source == "Config"));
    assert!(matches!(argument_passing(&parameter(0, reference(None, true, named(&["Buffer"])))), ArgumentPassingIr::Mutable(ty) if ty.source == "Buffer"));
}

#[test]
fn small_declaration_queries() {
    let mut declaration = structure(Vec::new(), Vec::new());
    declaration.attributes = vec![
        flag(HelperName::Opaque, HelperTarget::Type),
        flag(HelperName::Rename, HelperTarget::Type),
        flag(HelperName::Opaque, HelperTarget::Type),
    ];
    assert_eq!(declaration.helper_count(HelperName::Opaque), 2);
    assert_eq!(declaration.helper_count(HelperName::Rename), 1);
    assert_eq!(declaration.helper_count(HelperName::Skip), 0);

    let specialized = HelperAttributeIr {
        name: HelperName::Specialize,
        value: HelperValueIr::Specialization(specialization(vec![binding("T", SpecializationValueIr::Type(named(&["u8"])))])),
        target: HelperTarget::Impl,
        span: SPAN,
        value_span: SPAN,
    };
    assert_eq!(specialized.specialization().map(|value| value.bindings.len()), Some(1));
    assert!(flag(HelperName::Skip, HelperTarget::Field).specialization().is_none());

    let visible = field("value", 0, named(&["u8"]), Vec::new());
    assert_eq!(reflected_field_type(&visible).map(|ty| ty.source.as_str()), Some("u8"));
    let opaque = field("value", 0, named(&["u8"]), vec![flag(HelperName::Opaque, HelperTarget::Field)]);
    assert!(reflected_field_type(&opaque).is_none());

    assert!(matches!(lifetime_expression("'static"), LifetimeExpressionIr::Static));
    assert!(matches!(lifetime_expression("'a"), LifetimeExpressionIr::Named(name) if name == "a"));
    assert_eq!(lifetime_name("''b"), "b");
    assert_eq!(lifetime_name("c"), "c");
}

#[test]
fn provider_tokens_name_their_owner() {
    let tokens = vec![
        ident("Self"),
        punct(':', true),
        punct(':', false),
        ident("Output"),
        TokenTreeIr::Group { delimiter: DelimiterIr::Parenthesis, tokens: vec![ident("Self"), ident("SelfType")], span: 7 },
    ];
    let rewritten = replace_self_with_owner(&tokens, "Service");
    assert_eq!(names_of(&rewritten), vec!["Service", ":", ":", "Output", "(Service SelfType)"]);
    assert!(matches!(&rewritten[4], TokenTreeIr::Group { span: 7, .. }));
}

#[test]
fn trait_payloads_record_supertraits_and_applied_arguments() {
    let mut declaration = object_safe_trait(
        vec![bound(&["Send"]), GenericBoundIr::Lifetime("'static".to_string()), bound(&["Base"])],
        Vec::new(),
    );
    declaration.external_traits = vec![
        ExternalTraitIr { path: plain_path(&["Send"]), id: "core.marker.Send".to_string(), id_span: SPAN, span: SPAN },
        ExternalTraitIr { path: plain_path(&["Send"]), id: "other.Send".to_string(), id_span: SPAN, span: SPAN },
    ];
    let supertraits = direct_supertraits(&declaration);
    assert_eq!(supertraits.len(), 2);
    assert!(matches!(supertraits[0], SupertraitIr::External { path, mapping } if path.source == "Send" && mapping.id == "core.marker.Send"));
    assert!(matches!(supertraits[1], SupertraitIr::Reflected(path) if path.source == "Base"));

    let mut flag_parameter = param("FLAG", GenericKindIr::Const);
    flag_parameter.const_type = Some(named(&["bool"]));
    let mut custom_parameter = param("C", GenericKindIr::Const);
    custom_parameter.const_type = Some(named(&["Custom"]));
    declaration.generics = generics(vec![
        param("a", GenericKindIr::Lifetime),
        param("T", GenericKindIr::Type),
        param("N", GenericKindIr::Const),
        flag_parameter,
        custom_parameter,
    ]);
    let arguments = applied_arguments(&declaration);
    assert_eq!(arguments.len(), 3);
    assert!(matches!(arguments[0], AppliedArgumentIr::Type(parameter) if parameter.name == "T"));
    assert!(matches!(arguments[1], AppliedArgumentIr::Const { parameter, class: ConstClassIr::UnsignedInteger } if parameter.name == "N"));
    assert!(matches!(arguments[2], AppliedArgumentIr::Const { parameter, class: ConstClassIr::Boolean } if parameter.name == "FLAG"));
    assert_eq!(const_class_of("isize"), Some(ConstClassIr::SignedInteger));
    assert_eq!(const_class_of("char"), Some(ConstClassIr::Character));
    assert_eq!(const_class_of("f32"), None);
}

#[test]
fn external_supertrait_arguments_record_trait_parameters_by_runtime_type() {
    let mut declaration = object_safe_trait(Vec::new(), Vec::new());
    declaration.generics = generics(vec![param("a", GenericKindIr::Lifetime), param("T", GenericKindIr::Type)]);
    let arguments = PathArgumentsIr::AngleBracketed(vec![
        PathArgumentIr::Lifetime("'a".to_string()),
        PathArgumentIr::Type(named(&["T"])),
        PathArgumentIr::Type(named(&["u8"])),
        PathArgumentIr::AssociatedType { name: "Output".to_string(), ty: named(&["T"]) },
    ]);
    let modeled = external_supertrait_arguments(&arguments, &declaration);
    assert_eq!(modeled.len(), 4);
    assert!(matches!(&modeled[0], SupertraitArgumentIr::Argument(argument) if show_argument(argument) == "'a"));
    assert!(matches!(modeled[1], SupertraitArgumentIr::RuntimeType(parameter) if parameter.name == "T"));
    assert!(matches!(&modeled[2], SupertraitArgumentIr::Argument(argument) if show_argument(argument) == show(&type_expression(&named(&["u8"])))));
    assert!(matches!(&modeled[3], SupertraitArgumentIr::Argument(GenericArgumentExpressionIr::AssociatedType { name, .. }) if name == "Output"));

    assert!(external_supertrait_arguments(&PathArgumentsIr::Empty, &declaration).is_empty());
    let function = PathArgumentsIr::Parenthesized { inputs: vec![named(&["T"])], output: None };
    let modeled = external_supertrait_arguments(&function, &declaration);
    assert_eq!(modeled.len(), 1);
    assert!(matches!(&modeled[0], SupertraitArgumentIr::Argument(GenericArgumentExpressionIr::Type(TypeExpressionIr::FunctionPointer { parameters, .. })) if parameters.len() == 1));
}

fn show_lifetime(lifetime: &LifetimeExpressionIr) -> String {
    match lifetime {
        LifetimeExpressionIr::Static => "'static".to_string(),
        LifetimeExpressionIr::Named(name) => format!("'{}", name),
        LifetimeExpressionIr::Elided => "'_".to_string(),
    }
}

fn show_argument(argument: &GenericArgumentExpressionIr) -> String {
    match argument {
        GenericArgumentExpressionIr::Lifetime(lifetime) => show_lifetime(lifetime),
        GenericArgumentExpressionIr::Type(ty) => show(ty),
        GenericArgumentExpressionIr::Const(Ok(value)) => format!("const {:?}", value),
        GenericArgumentExpressionIr::Const(Err(message)) => format!("error {}", message),
        GenericArgumentExpressionIr::AssociatedType { name, value } => format!("{} = {}", name, show(value)),
    }
}

fn show(expression: &TypeExpressionIr) -> String {
    match expression {
        TypeExpressionIr::Never => "!".to_string(),
        TypeExpressionIr::SelfType => "Self".to_string(),
        TypeExpressionIr::Parameter(name) => format!("param {}", name),
        TypeExpressionIr::Associated { self_type, trait_path, item, arguments, .. } => format!(
            "<{} as {:?}>::{}[{}]",
            show(self_type),
            trait_path,
            item,
            arguments.iter().map(show_argument).collect::<Vec<_>>().join(", ")
        ),
        TypeExpressionIr::Concrete { segments, arguments, .. } => {
            format!("{}[{}]", segments.join("::"), arguments.iter().map(show_argument).collect::<Vec<_>>().join(", "))
        }
        TypeExpressionIr::Reference { lifetime, mutable, target } => {
            format!("&{} {}{}", show_lifetime(lifetime), if *mutable { "mut " } else { "" }, show(target))
        }
        TypeExpressionIr::Tuple(items) => format!("({})", items.iter().map(show).collect::<Vec<_>>().join(", ")),
        TypeExpressionIr::Slice(element) => format!("[{}]", show(element)),
        TypeExpressionIr::Array { element, length } => format!("[{}; {:?}]", show(element), length),
        TypeExpressionIr::RawPointer { mutable, target } => format!("*{} {}", if *mutable { "mut" } else { "const" }, show(target)),
        TypeExpressionIr::FunctionPointer { abi, parameters, output, .. } => format!(
            "fn {:?}({}) -> {}",
            abi,
            parameters.iter().map(show).collect::<Vec<_>>().join(", "),
            show(output)
        ),
        TypeExpressionIr::TraitObject(predicates) => format!("dyn {}", predicates.len()),
        TypeExpressionIr::Opaque(predicates) => format!("impl {}", predicates.len()),
    }
}

#[test]
fn types_map_to_runtime_expressions() {
    assert_eq!(show(&type_expression(&named(&["Self"]))), "Self");
    assert_eq!(show(&type_expression(&named(&["T"]))), "param T");
    assert_eq!(show(&type_expression(&named(&["Tx"]))), "Tx[]");
    assert_eq!(show(&type_expression(&named(&["std", "string", "String"]))), "std::string::String[]");
    let vector = applied(&["Vec"], vec![PathArgumentIr::Type(named(&["u8"])), PathArgumentIr::Lifetime("'a".to_string())]);
    assert_eq!(show(&type_expression(&vector)), "Vec[u8[], 'a]");
    assert_eq!(show(&type_expression(&reference(Some("'a"), false, named(&["str"])))), "&'a str[]");
    assert_eq!(show(&type_expression(&reference(None, true, named(&["T"])))), "&'_ mut param T");
    assert_eq!(show(&type_expression(&array(named(&["u8"]), "N"))), "[u8[]; Ok(Parameter(\"N\"))]");
    let literal_array = TypeIr {
        source: "[u8 ; 4]".to_string(),
        tokens: Vec::new(),
        kind: TypeKindIr::Array { element: Box::new(named(&["u8"])), length: vec![TokenTreeIr::Literal { text: "4".to_string(), span: SPAN }] },
        span: SPAN,
    };
    assert_eq!(show(&type_expression(&literal_array)), "[u8[]; Ok(UnsignedInteger(4))]");

    let function = TypeIr {
        source: "extern \"C\" fn(u8) -> !".to_string(),
        tokens: Vec::new(),
        kind: TypeKindIr::BareFunction {
            lifetimes: vec!["'a".to_string()],
            inputs: vec![named(&["u8"])],
            output: Some(Box::new(TypeIr { source: "!".to_string(), tokens: Vec::new(), kind: TypeKindIr::Never, span: SPAN })),
            is_unsafe: true,
            abi: Some("C".to_string()),
            is_variadic: false,
        },
        span: SPAN,
    };
    match type_expression(&function) {
        TypeExpressionIr::FunctionPointer { abi: AbiIr::C, is_unsafe: true, is_variadic: false, lifetimes, parameters, output } => {
            assert_eq!(lifetimes.len(), 1);
            assert_eq!(parameters.len(), 1);
            assert!(matches!(*output, TypeExpressionIr::Never));
        }
        other => panic!("unexpected {:?}", other),
    }

    let mut qualified = plain_path(&["Iterator", "Item"]);
    qualified.qualified_self = Some(Box::new(QualifiedSelfIr { ty: named(&["T"]), position: 1, has_as: true }));
    assert_eq!(show(&type_expression(&path_type(qualified))), "<param T as Some([\"Iterator\"])>::Item[]");

    let mut callable = plain_path(&["Fn"]);
    callable.segments[0].arguments = PathArgumentsIr::Parenthesized { inputs: vec![named(&["u8"])], output: None };
    assert_eq!(show(&type_expression(&path_type(callable))), "Fn[fn Rust(u8[]) -> ()]");

    let object = TypeIr {
        source: "dyn Send + 'static".to_string(),
        tokens: Vec::new(),
        kind: TypeKindIr::TraitObject { bounds: vec![bound(&["Send"]), GenericBoundIr::Lifetime("'static".to_string()), GenericBoundIr::Other(Vec::new())], has_dyn: true },
        span: SPAN,
    };
    assert_eq!(show(&type_expression(&object)), "dyn 2");
    let predicates = bound_predicates(&vec![bound(&["Send"]), GenericBoundIr::Lifetime("'a".to_string())]);
    assert!(matches!(&predicates[0], PredicateExpressionIr::TypeBound { trait_source, maybe: false, lifetimes } if trait_source == "Send" && lifetimes.is_empty()));
    assert!(matches!(&predicates[1], PredicateExpressionIr::Outlives(LifetimeExpressionIr::Named(name)) if name == "a"));
    let _ = TraitBoundModifierIr::Maybe;
    let infer = TypeIr { source: "_".to_string(), tokens: Vec::new(), kind: TypeKindIr::Infer, span: SPAN };
    assert_eq!(show(&type_expression(&infer)), "_[]");
}

#[test]
fn generic_declarations_map_to_definitions() {
    let mut lifetime = param("a", GenericKindIr::Lifetime);
    lifetime.bounds = vec![GenericBoundIr::Lifetime("'b".to_string())];
    let mut ty = param("T", GenericKindIr::Type);
    ty.bounds = vec![bound(&["Clone"]), GenericBoundIr::Lifetime("'a".to_string())];
    ty.default = Some(GenericDefaultIr::Type(named(&["u8"])));
    let mut length = param("N", GenericKindIr::Const);
    length.default = Some(GenericDefaultIr::Const(vec![TokenTreeIr::Literal { text: "4".to_string(), span: SPAN }]));
    let mut limit = param("M", GenericKindIr::Const);
    limit.const_type = None;
    limit.default = Some(GenericDefaultIr::Const(vec![ident("DEFAULT")]));
    let mut declared = generics(vec![lifetime, ty, length, limit]);
    declared.where_predicates = vec![
        WherePredicateIr::Lifetime { lifetime: "'a".to_string(), bounds: vec!["'static".to_string()], declaration: Vec::new() },
        WherePredicateIr::Type {
            bounded_type: named(&["T"]),
            lifetimes: Vec::new(),
            bounds: vec![bound(&["Send"]), GenericBoundIr::Lifetime("'static".to_string()), bound(&["Sync"])],
            declaration: Vec::new(),
        },
        WherePredicateIr::Type {
            bounded_type: named(&["T"]),
            lifetimes: Vec::new(),
            bounds: vec![GenericBoundIr::Lifetime("'a".to_string())],
            declaration: Vec::new(),
        },
        WherePredicateIr::Other(Vec::new()),
    ];
    let definition = generic_definition(&declared);
    assert_eq!(definition.parameters.len(), 4);
    assert!(matches!(&definition.parameters[0], GenericParameterExpressionIr::Lifetime { name, bounds } if name == "a" && bounds.len() == 1));
    match &definition.parameters[1] {
        GenericParameterExpressionIr::Type { name, bounds, default } => {
            assert_eq!(name, "T");
            assert_eq!(bounds.len(), 2);
            assert_eq!(default.as_ref().map(show), Some("u8[]".to_string()));
        }
        other => panic!("unexpected {:?}", other),
    }
    assert!(matches!(&definition.parameters[2], GenericParameterExpressionIr::Const { ty, default: Some(Ok(ConstValueIr::UnsignedInteger(4))), .. } if show(ty) == "usize[]"));
    match &definition.parameters[3] {
        GenericParameterExpressionIr::Const { ty, default: Some(Err(message)), .. } => {
            assert_eq!(show(ty), "_[]");
            assert!(message.contains("DEFAULT"));
        }
        other => panic!("unexpected {:?}", other),
    }
    assert_eq!(definition.predicates.len(), 4);
    assert!(matches!(&definition.predicates[0], WherePredicateExpressionIr::LifetimeOutlives { bounds, .. } if bounds.len() == 1));
    assert!(matches!(&definition.predicates[1], WherePredicateExpressionIr::TypeBound { traits, .. } if traits.len() == 2 && traits[1].source == "Sync"));
    assert!(matches!(&definition.predicates[2], WherePredicateExpressionIr::TypeOutlives { lifetime: LifetimeExpressionIr::Static, .. }));
    assert!(matches!(&definition.predicates[3], WherePredicateExpressionIr::TypeOutlives { lifetime: LifetimeExpressionIr::Named(name), .. } if name == "a"));
}

#[test]
fn trait_method_metadata_records_signatures() {
    let mut destructured = parameter(1, reference(None, true, named(&["Buffer"])));
    destructured.name = None;
    destructured.pattern = ParameterPatternIr { kind: ParameterPatternKindIr::Destructure, source: "(a , b)".to_string(), tokens: Vec::new() };
    let mut typed_receiver = receiver(ReceiverKindIr::Typed, applied(&["Box"], vec![PathArgumentIr::Type(named(&["Self"]))]));
    typed_receiver.declaration = vec![ident("self"), punct(':', false), ident("Box"), punct('<', false), ident("Self"), punct('>', false)];
    let renamed = HelperAttributeIr {
        name: HelperName::Rename,
        value: HelperValueIr::Rename("run".to_string()),
        target: HelperTarget::Method,
        span: SPAN,
        value_span: SPAN,
    };
    let declared = method(MethodShape {
        receiver: Some(typed_receiver),
        parameters: vec![parameter(0, named(&["u8"])), destructured],
        return_type: ReturnTypeIr::Type(reference(None, false, named(&["str"]))),
        abi: Some("C"),
        attributes: vec![renamed],
        has_default: true,
        ..shape()
    });
    let metadata = method_metadata(&declared);
    assert_eq!(metadata.query, "run");
    assert_eq!(metadata.name, declared.name);
    assert!(matches!(&metadata.receiver, Some(ReceiverDescriptorIr::Explicit(text)) if text == "self : Box < Self >"));
    assert_eq!(metadata.parameters.len(), 2);
    assert_eq!(metadata.parameters[0].passing, PassingModeIr::Owned);
    assert!(matches!(metadata.parameters[0].pattern, PatternDescriptorIr::Identifier));
    assert_eq!(metadata.parameters[1].passing, PassingModeIr::MutableBorrow);
    assert!(metadata.parameters[1].name.is_none());
    assert!(matches!(&metadata.parameters[1].pattern, PatternDescriptorIr::Destructure(source) if source == "(a , b)"));
    assert!(matches!(&metadata.return_value, ReturnDescriptorIr::Value { kind: ReturnKindIr::Reference, .. }));
    assert!(matches!(metadata.abi, Some(AbiIr::C)));
    assert!(metadata.has_default);

    let unnamed = method(MethodShape { receiver: None, ..shape() });
    let metadata = method_metadata(&unnamed);
    assert_eq!(metadata.query, unnamed.name);
    assert!(metadata.receiver.is_none());
    assert!(matches!(metadata.return_value, ReturnDescriptorIr::Unit));
    assert!(metadata.abi.is_none());

    let mut output = associated("Output", false);
    output.bounds = vec![bound(&["Clone"])];
    output.value = Some(named(&["u8"]));
    let associated_metadata = associated_type_metadata(&output);
    assert_eq!(associated_metadata.name, "Output");
    assert_eq!(associated_metadata.bounds.len(), 1);
    assert_eq!(associated_metadata.default.as_ref().map(show), Some("u8[]".to_string()));

    let constant = AssociatedConstIr { name: "LIMIT".to_string(), ty: named(&["usize"]), value: None, declaration: Vec::new(), attributes: Vec::new(), span: SPAN };
    let constant_metadata = associated_const_metadata(&constant);
    assert_eq!(show(&constant_metadata.ty), "usize[]");
    assert!(!constant_metadata.has_default);
}

#[test]
fn monomorphized_roots_list_their_runtime_arguments() {
    let declared = generics(vec![param("a", GenericKindIr::Lifetime), param("T", GenericKindIr::Type), param("N", GenericKindIr::Const)]);
    let arguments = concrete_arguments(&declared);
    assert_eq!(arguments.len(), 2);
    assert!(matches!(&arguments[0], ConcreteArgumentIr::Type { definition_index: 1, name } if name == "T"));
    assert!(matches!(&arguments[1], ConcreteArgumentIr::Const { definition_index: 2, name, declared } if name == "N" && show(declared) == "usize[]"));
    assert!(concrete_arguments(&generics(vec![param("a", GenericKindIr::Lifetime)])).is_empty());
}

#[test]
fn generated_names_and_accessors() {
    assert_eq!(specialization_descriptor_name(3, 12), "__QUBIT_REFLECT_GENERIC_SPECIALIZATION_ADAPTER_3_12");
    let generic = structure(vec![param("T", GenericKindIr::Type)], Vec::new());
    assert_eq!(definition_provider(&generic), Some("__qubit_reflect_generic_definition_fixture".to_string()));
    assert_eq!(definition_provider(&structure(Vec::new(), Vec::new())), None);
    let context = ExpansionContext { facade: FacadeIr::CrateItself };
    assert_eq!(context.facade(), &FacadeIr::CrateItself);
}

#[test]
fn rewritten_source_keeps_the_previous_text_without_a_rendering() {
    assert_eq!(source_after_rendering(Some("& 'static str".to_string()), "&'a str".to_string()), "& 'static str");
    assert_eq!(source_after_rendering(None, "&'a str".to_string()), "&'a str");
}

#[test]
fn generated_tokens_name_the_facade_and_each_reason() {
    let attributes = vec![HelperAttributeIr {
        name: HelperName::RuntimeCrate,
        value: HelperValueIr::RuntimeCrate(plain_path(&["framework", "reflect"])),
        target: HelperTarget::Type,
        span: SPAN,
        value_span: SPAN,
    }];
    let explicit = ExpansionContext::from_attributes(&attributes, None).expect("explicit facade must resolve");
    assert_eq!(tokens_text(&facade_tokens(&explicit.facade, &attributes)), "framework :: reflect");
    assert_eq!(tokens_text(&facade_tokens(&FacadeIr::CrateItself, &Vec::new())), "crate");
    assert_eq!(tokens_text(&facade_tokens(&FacadeIr::Absolute("qubit_reflect".to_string()), &Vec::new())), ":: qubit_reflect");

    let unsafe_method = method(MethodShape {
        parameters: vec![parameter(0, named(&["u32"]))],
        return_type: ReturnTypeIr::Type(named(&["u32"])),
        is_unsafe: true,
        abi: Some("C"),
        ..shape()
    });
    let plan = analyze_method(&unsafe_method, MethodContext::implementation());
    assert_eq!(
        tokens_text(&emit_unavailable_reasons(&plan, &explicit, &attributes)),
        "& [framework :: reflect :: __private :: codegen_v2 :: descriptor :: InvocationUnavailableReason :: UnsafeMethod , framework :: reflect :: __private :: codegen_v2 :: descriptor :: InvocationUnavailableReason :: UnsupportedAbi]"
    );
    let safe = method(MethodShape { parameters: vec![parameter(0, named(&["u32"]))], return_type: ReturnTypeIr::Type(named(&["u32"])), ..shape() });
    let plan = analyze_method(&safe, MethodContext::implementation());
    assert_eq!(tokens_text(&emit_unavailable_reasons(&plan, &explicit, &attributes)), "& []");

    let facade = facade_tokens(&FacadeIr::CrateItself, &Vec::new());
    assert_eq!(
        tokens_text(&argument_expectation(&parameter(0, named(&["u32"])), &facade)),
        "crate :: __private :: codegen_v2 :: invoke :: ArgumentExpectation :: owned :: < u32 > ()"
    );
    assert_eq!(
        tokens_text(&argument_expectation(&parameter(0, reference(None, true, named(&["String"]))), &facade)),
        "crate :: __private :: codegen_v2 :: invoke :: ArgumentExpectation :: borrowed_mut :: < String > ()"
    );
    assert_eq!(
        tokens_text(&argument_expectation(&parameter(0, reference(Some("a"), false, named(&["str"]))), &facade)),
        "crate :: __private :: codegen_v2 :: invoke :: ArgumentExpectation :: borrowed :: < str > ()"
    );
}

#[test]
fn discriminant_casts_and_hook_bounds_are_generated() {
    let facade = facade_tokens(&FacadeIr::Absolute("qubit_reflect".to_string()), &Vec::new());
    assert_eq!(
        tokens_text(&numeric_discriminant("Mode", "On", Some("u8"), &facade)),
        "Some (:: qubit_reflect :: __private :: codegen_v2 :: descriptor :: NumericDiscriminant :: U8 (Mode :: On as u8))"
    );
    assert_eq!(tokens_text(&numeric_discriminant("Mode", "On", None, &facade)), "None");
    assert_eq!(tokens_text(&numeric_discriminant("Mode", "On", Some("C"), &facade)), "None");

    let params = vec![param("a", GenericKindIr::Lifetime), param("T", GenericKindIr::Type), param("N", GenericKindIr::Const), param("U", GenericKindIr::Type)];
    let bounds = hook_type_bounds(&params);
    let rendered: Vec<String> = bounds.iter().map(|bound| tokens_text(bound)).collect();
    assert_eq!(rendered, vec!["T : 'static".to_string(), "U : 'static".to_string()]);
}

#[test]
fn construction_and_update_entries_follow_each_field_role() {
    let facade = facade_tokens(&FacadeIr::CrateItself, &Vec::new());
    let required = field("id", 0, named(&["u64"]), Vec::new());
    assert_eq!(
        tokens_text(&construction_entry(&required, &facade)),
        "crate :: construct :: ConstructionField :: required (& descriptor . fields () [0])"
    );
    assert_eq!(tokens_text(&update_entry(&required, &facade)), "crate :: construct :: UpdateField :: allowed (& descriptor . fields () [0])");

    let defaulted = field("name", 12, named(&["String"]), vec![HelperAttributeIr {
        name: HelperName::Default,
        value: HelperValueIr::DefaultPath(None),
        target: HelperTarget::Field,
        span: SPAN,
        value_span: SPAN,
    }]);
    assert_eq!(
        tokens_text(&construction_entry(&defaulted, &facade)),
        "crate :: construct :: ConstructionField :: defaulted (& descriptor . fields () [12] , Self :: __qubit_reflect_default_field_12)"
    );

    let skipped = field("cache", 3, named(&["u8"]), vec![flag(HelperName::Skip, HelperTarget::Field)]);
    assert_eq!(
        tokens_text(&construction_entry(&skipped, &facade)),
        "crate :: construct :: ConstructionField :: unavailable (& descriptor . fields () [3] , crate :: construct :: ConstructionUnavailableReason :: MissingDefaultProvider ,)"
    );
    assert_eq!(
        tokens_text(&update_entry(&skipped, &facade)),
        "crate :: construct :: UpdateField :: unavailable (& descriptor . fields () [3] , crate :: construct :: ConstructionUnavailableReason :: UpdateForbidden ,)"
    );
}

#[test]
fn struct_adapters_are_generated_for_structs_only() {
    let facade = facade_tokens(&FacadeIr::CrateItself, &Vec::new());
    let defaulted = field("name", 1, named(&["String"]), vec![HelperAttributeIr {
        name: HelperName::Default,
        value: HelperValueIr::DefaultPath(None),
        target: HelperTarget::Field,
        span: SPAN,
        value_span: SPAN,
    }]);
    let declaration = structure(Vec::new(), vec![field("id", 0, named(&["u64"]), Vec::new()), defaulted]);
    let text = tokens_text(&struct_adapters(&declaration, &facade));
    assert!(text.starts_with("fn __qubit_reflect_default_field_1 () -> crate :: value :: DynamicOwned < crate :: value :: Local > {let value : String = < String as :: core :: default :: Default > :: default () ;"), "{}", text);
    assert!(text.contains("fn __qubit_reflect_construct_struct (input : crate :: construct :: ValidatedConstructionInput < crate :: value :: Local >)"), "{}", text);
    assert!(text.contains("< crate :: value :: DynamicOwned < crate :: value :: Local > > :: new (Self {id : < crate :: value :: DynamicOwned < crate :: value :: Local > > :: downcast :: < u64 > (values . next () . unwrap_or_else (|| unreachable ! (\"validated construction value count\")) ,) . unwrap_or_else (| _ | unreachable ! (\"validated construction field type\")) , name :"), "{}", text);
    assert!(text.contains(":: std :: vec ! [crate :: construct :: ConstructionField :: required (& descriptor . fields () [0]) , crate :: construct :: ConstructionField :: defaulted (& descriptor . fields () [1] , Self :: __qubit_reflect_default_field_1)]"), "{}", text);
    assert!(text.contains("match index {0usize => {value . id = < crate :: value :: DynamicOwned < crate :: value :: Local > > :: downcast :: < u64 > (replacement)"), "{}", text);
    assert!(text.contains("_ => unreachable ! (\"validated update field index\") ,}"), "{}", text);
    assert!(text.ends_with("crate :: construct :: StructUpdater :: new (descriptor , fields , Self :: __qubit_reflect_update_struct ,)))}"), "{}", text);

    let mut tuple = structure(Vec::new(), vec![]);
    assert!(tokens_text(&struct_adapters(&tuple, &facade)).contains("> :: new (Self)"));
    tuple.kind = TypeDeclarationKindIr::Enum;
    assert!(struct_adapters(&tuple, &facade).is_empty());
}

#[test]
fn variant_adapters_check_the_active_variant_and_reach_each_field() {
    let facade = facade_tokens(&FacadeIr::CrateItself, &Vec::new());
    let unit = VariantIr { name: "Empty".to_string(), index: 0, kind: VariantKindIr::Unit, fields: Vec::new(), attributes: Vec::new(), discriminant: None, span: SPAN };
    let definitions = adapters(&unit, &facade, false);
    assert_eq!(definitions.len(), 1);
    let check = tokens_text(&definitions[0]);
    assert!(check.starts_with("fn __qubit_reflect_is_variant_0 (value : crate :: __private :: codegen_v2 :: value :: ReflectedRef < '_ >) -> :: core :: result :: Result < bool , crate :: __private :: codegen_v2 :: error :: TypeMismatch >"), "{}", check);
    assert!(check.ends_with("Ok (matches ! (value , Self :: Empty))}"), "{}", check);

    let mut point = field("x", 0, named(&["i32"]), Vec::new());
    point.name = None;
    let mut second = field("y", 1, named(&["u8"]), Vec::new());
    second.name = None;
    let tuple = VariantIr { name: "Pair".to_string(), index: 2, kind: VariantKindIr::Tuple, fields: vec![point, second], attributes: Vec::new(), discriminant: None, span: SPAN };
    let definitions = adapters(&tuple, &facade, true);
    assert_eq!(definitions.len(), 3);
    let second_field = tokens_text(&definitions[2]);
    assert!(second_field.starts_with("fn __qubit_reflect_get_variant_2_field_1 < '__qubit_reflect > (target : crate :: __private :: codegen_v2 :: value :: ReflectedRef < '__qubit_reflect >)"), "{}", second_field);
    assert!(second_field.contains("match value {Self :: Pair (_ , __qubit_reflect_value_1) => Ok (crate :: __private :: codegen_v2 :: value :: ReflectedRef :: new (__qubit_reflect_value_1)) , _ => Err (crate :: __private :: codegen_v2 :: access :: FieldAccessError :: inactive_variant (crate :: __private :: codegen_v2 :: access :: FieldIdentity :: new_variant (:: std :: any :: TypeId :: of :: < Self > () , :: std :: any :: type_name :: < Self > () , 1usize , None , 2usize , \"Pair\" ,) ,))}"), "{}", second_field);
    assert!(second_field.contains("fn __qubit_reflect_set_variant_2_field_1 (target : crate :: __private :: codegen_v2 :: value :: ReflectedMut < '_ > , replacement : crate :: __private :: codegen_v2 :: value :: ReflectedOwned)"), "{}", second_field);
    assert!(second_field.contains("fn __qubit_reflect_preflight_set_variant_2_field_1_thread_safe (target : & crate :: __private :: codegen_v2 :: value :: DynamicMut < '_ , crate :: __private :: codegen_v2 :: value :: ThreadSafe > ,)"), "{}", second_field);
    assert!(second_field.contains("{* __qubit_reflect_value_1 = replacement ; Ok (())}"), "{}", second_field);

    let named_variant = VariantIr { name: "Point".to_string(), index: 1, kind: VariantKindIr::Struct, fields: vec![field("x", 0, named(&["i32"]), Vec::new())], attributes: Vec::new(), discriminant: None, span: SPAN };
    let definitions = adapters(&named_variant, &facade, false);
    assert_eq!(definitions.len(), 2);
    let text = tokens_text(&definitions[1]);
    assert!(text.contains("Self :: Point {x : __qubit_reflect_value_0 , ..}"), "{}", text);
    assert!(text.contains("Some (\"x\")"), "{}", text);
    assert!(!text.contains("thread_safe"), "{}", text);
}

#[test]
fn struct_descriptor_links_the_generated_adapters() {
    let facade = facade_tokens(&FacadeIr::CrateItself, &Vec::new());
    assert_eq!(
        tokens_text(&struct_descriptor(&facade)),
        "crate :: construct :: StructConstructionDescriptor :: new (Self :: __qubit_reflect_struct_constructor , Some (Self :: __qubit_reflect_struct_updater) ,)"
    );
}

fn render(tokens: &[TokenTreeIr]) -> String {
    let mut text = String::new();
    for token in tokens {
        match token {
            TokenTreeIr::Ident { name, .. } => {
                text.push_str(name);
                text.push(' ');
            },
            TokenTreeIr::Punct { ch, joint, .. } => {
                text.push(*ch);
                if !*joint {
                    text.push(' ');
                }
            },
            TokenTreeIr::Literal { text: literal, .. } => {
                text.push_str(literal);
                text.push(' ');
            },
            TokenTreeIr::Group { delimiter, tokens, .. } => {
                let (open, close) = match delimiter {
                    DelimiterIr::Parenthesis => ("( ", ") "),
                    DelimiterIr::Brace => ("{ ", "} "),
                    DelimiterIr::Bracket => ("[ ", "] "),
                    DelimiterIr::Invisible => ("", ""),
                };
                text.push_str(open);
                text.push_str(&render(tokens));
                text.push_str(close);
            },
        }
    }
    text
}

fn absolute_facade() -> Vec<TokenTreeIr> {
    vec![punct(':', true), punct(':', false), ident("qubit_reflect")]
}

#[test]
fn shared_receiver_adapter_validates_binds_and_calls() {
    let method = method(MethodShape {
        parameters: vec![parameter(0, named(&["u32"]))],
        return_type: ReturnTypeIr::Type(named(&["String"])),
        ..shape()
    });
    let adapter = definition(&method, 3, &vec![ident("Point")], &None, "Point", &absolute_facade(), None)
        .expect("an executable method gets an adapter");
    let text = render(&adapter);
    let private = ":: qubit_reflect :: __private :: codegen_v2 ::";
    assert!(text.starts_with(&format!(
        "fn __qubit_reflect_invoke_3 < 'call > ( invocation : {private} invoke :: Invocation < 'call , {private} value :: Local > , ) -> :: core :: result :: Result < "
    )));
    assert!(text.contains(&format!(
        "let identity = {private} identity :: MemberId :: new ( \"Point\" , \"method\" , 3usize , fragment_identity ( ) , ) ; "
    )));
    assert!(text.contains(&format!(
        "let validated = invocation . validate ( & identity , {private} invoke :: ReceiverExpectation :: borrowed :: < Point > ( ) , & [ {private} invoke :: ArgumentExpectation :: owned :: < u32 > ( ) ] , ) ? ; "
    )));
    assert!(text.contains("Ok ( { let ( receiver , arguments ) = validated . into_parts ( ) ; let receiver : & Point = match receiver { "));
    assert!(text.contains(&format!(
        "let __qubit_reflect_argument_0 : u32 = match arguments . next ( ) . expect ( \"validation checked argument count\" ) "
    )));
    assert!(text.contains(&format!(
        "{private} invoke :: InvocationOutput :: Owned ( {private} value :: DynamicOwned :: < {private} value :: Local > :: new ( < Point > :: execute ( receiver , __qubit_reflect_argument_0 ) ) , ) "
    )));
    assert!(text.ends_with(&format!(
        "static __QUBIT_REFLECT_INVOCATION_ADAPTER_3 : {private} descriptor :: InvocationAdapter = {private} descriptor :: InvocationAdapter :: local ( __qubit_reflect_invoke_3 ) ; "
    )));
    assert!(!text.contains("__qubit_reflect_assert"));
}

#[test]
fn unsafe_methods_get_no_adapter() {
    let method = method(MethodShape { is_unsafe: true, ..shape() });
    assert!(definition(&method, 0, &vec![ident("Point")], &None, "Point", &absolute_facade(), None).is_none());
}

#[test]
fn thread_safe_catching_adapter_asserts_bounds_and_catches_panics() {
    let method = method(MethodShape {
        receiver: Some(receiver(ReceiverKindIr::MutableReference, named(&["Self"]))),
        return_type: ReturnTypeIr::Unit,
        attributes: vec![
            flag(HelperName::ThreadSafe, HelperTarget::Method),
            flag(HelperName::CatchUnwind, HelperTarget::Method),
        ],
        ..shape()
    });
    let trait_path = Some(vec![ident("Shape")]);
    let adapter = definition(&method, 1, &vec![ident("Point")], &trait_path, "Point", &absolute_facade(), None)
        .expect("an executable method gets an adapter");
    let text = render(&adapter);
    let private = ":: qubit_reflect :: __private :: codegen_v2 ::";
    assert!(text.contains("fn __qubit_reflect_assert_send_sync < T : ? Sized + :: core :: marker :: Send + :: core :: marker :: Sync , > ( ) { } __qubit_reflect_assert_send_sync :: < Point > ( ) ; "));
    assert!(text.contains("__qubit_reflect_assert_unwind_safe :: < & mut Point > ( ) ; "));
    assert!(text.contains("< Point as Shape > :: execute ( receiver , ) ; "));
    assert!(text.contains("# [ cfg ( panic = \"unwind\" ) ] fn __qubit_reflect_invoke_catching_1 < 'call > "));
    assert!(text.contains("match :: std :: panic :: catch_unwind ( || { "));
    assert!(text.contains(&format!(
        "InvocationAdapter :: thread_safe_with_catching ( __qubit_reflect_invoke_1 , __qubit_reflect_invoke_catching_1 , ) ; "
    )));
    assert!(text.ends_with(&format!(
        "# [ cfg ( panic = \"abort\" ) ] static __QUBIT_REFLECT_INVOCATION_ADAPTER_1 : {private} descriptor :: InvocationAdapter = {private} descriptor :: InvocationAdapter :: thread_safe_with_unavailable_catching ( __qubit_reflect_invoke_1 , ) ; "
    )));
    assert!(text.contains(&format!("{private} value :: ThreadSafe")));
}

#[test]
fn pinned_receiver_adapter_registers_its_token() {
    let pinned_receiver = receiver(
        ReceiverKindIr::Typed,
        applied(&["std", "pin", "Pin"], vec![PathArgumentIr::Type(reference(None, true, named(&["Self"])))]),
    );
    let method = method(MethodShape {
        receiver: Some(pinned_receiver),
        return_type: ReturnTypeIr::Type(named(&["u32"])),
        ..shape()
    });
    let adapter = definition(&method, 4, &vec![ident("Point")], &None, "Point", &absolute_facade(), None)
        .expect("an executable pinned method gets an adapter");
    let text = render(&adapter);
    let private = ":: qubit_reflect :: __private :: codegen_v2 ::";
    assert!(text.starts_with(&format!(
        "fn __qubit_reflect_invoke_pinned_4 < 'call > ( invocation : {private} invoke :: PinnedMutInvocation < 'call , Point , {private} value :: Local > , ) "
    )));
    assert!(text.contains(&format!(
        "static __QUBIT_REFLECT_PINNED_ADAPTER_4 : {private} invoke :: PinnedMutAdapter < Point , {private} value :: Local > = __qubit_reflect_invoke_pinned_4 ; "
    )));
    assert!(text.ends_with(&format!(
        "InvocationAdapter :: pinned_mut_local ( & __QUBIT_REFLECT_PINNED_ADAPTER_4 ) ; "
    )));
}

#[test]
fn specialization_adapters_name_their_arguments() {
    let method = method(MethodShape {
        receiver: None,
        parameters: vec![parameter(0, reference(None, false, named(&["str"])))],
        return_type: ReturnTypeIr::Type(named(&["usize"])),
        ..shape()
    });
    let arguments = vec![vec![ident("u8")]];
    let adapter = specialization_definition(
        &method,
        3,
        2,
        &arguments,
        &vec![ident("Point")],
        &None,
        "Point",
        &absolute_facade(),
        None,
    )
    .expect("an executable method gets an adapter");
    let text = render(&adapter);
    assert!(text.starts_with("fn __qubit_reflect_invoke_3_2 < 'call > "));
    assert!(text.contains("< Point > :: execute :: < u8 > ( __qubit_reflect_argument_0 ) "));
    assert!(text.contains("ReceiverExpectation :: none ( ) "));
    assert!(text.contains("let ( _receiver , arguments ) = validated . into_parts ( ) ; "));
    assert!(text.contains("DynamicRef :: < :: qubit_reflect :: __private :: codegen_v2 :: value :: Local > :: into_str ( value ) "));
    assert!(text.contains("static __QUBIT_REFLECT_GENERIC_SPECIALIZATION_ADAPTER_3_2 : "));
    let direct = definition_for_call(
        &method,
        3,
        &vec![ident("Point")],
        &None,
        "Point",
        &absolute_facade(),
        &arguments,
        Some(2),
        None,
    )
    .expect("an executable method gets an adapter");
    assert_eq!(render(&direct), text);
}

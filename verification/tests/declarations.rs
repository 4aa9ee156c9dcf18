//! Parsing and validation of reflected declarations built the way the front
//! end reads them from source.

use qubit_reflect_derive::attributes::parse_attributes;
use qubit_reflect_derive::attributes::parse_helper_metas;
use qubit_reflect_derive::attributes::ListArgumentsIr;
use qubit_reflect_derive::attributes::MetaBodyIr;
use qubit_reflect_derive::attributes::MetaIr;
use qubit_reflect_derive::attributes::MetaValueIr;
use qubit_reflect_derive::attributes::ReflectAttributeIr;
use qubit_reflect_derive::attributes::ReflectFormIr;
use qubit_reflect_derive::diagnostics::Diagnostic;
use qubit_reflect_derive::helper::HelperName;
use qubit_reflect_derive::helper::HelperTarget;
use qubit_reflect_derive::ir::DeclarationIr;
use qubit_reflect_derive::ir::ExternalTraitIr;
use qubit_reflect_derive::ir::FieldIr;
use qubit_reflect_derive::ir::GenericBoundIr;
use qubit_reflect_derive::ir::GenericKindIr;
use qubit_reflect_derive::ir::GenericParamIr;
use qubit_reflect_derive::ir::GenericsIr;
use qubit_reflect_derive::ir::HelperAttributeIr;
use qubit_reflect_derive::ir::HelperValueIr;
use qubit_reflect_derive::ir::ImplDeclarationIr;
use qubit_reflect_derive::ir::MacroKind;
use qubit_reflect_derive::ir::MethodIr;
use qubit_reflect_derive::ir::MethodQualifiersIr;
use qubit_reflect_derive::ir::ParsedDeclaration;
use qubit_reflect_derive::ir::PathArgumentsIr;
use qubit_reflect_derive::ir::PathIr;
use qubit_reflect_derive::ir::PathSegmentIr;
use qubit_reflect_derive::ir::ReceiverIr;
use qubit_reflect_derive::ir::ReceiverKindIr;
use qubit_reflect_derive::ir::ReturnTypeIr;
use qubit_reflect_derive::ir::SpecializationBindingIr;
use qubit_reflect_derive::ir::SpecializationIr;
use qubit_reflect_derive::ir::SpecializationValueIr;
use qubit_reflect_derive::ir::TokenTreeIr;
use qubit_reflect_derive::ir::TraitBoundModifierIr;
use qubit_reflect_derive::ir::TraitDeclarationIr;
use qubit_reflect_derive::ir::TypeDeclarationIr;
use qubit_reflect_derive::ir::TypeDeclarationKindIr;
use qubit_reflect_derive::ir::TypeIr;
use qubit_reflect_derive::ir::TypeKindIr;
use qubit_reflect_derive::ir::VariantIr;
use qubit_reflect_derive::ir::VariantKindIr;
use qubit_reflect_derive::ir::VisibilityIr;
use qubit_reflect_derive::pipeline::entry_error;
use qubit_reflect_derive::pipeline::parse_and_validate_declaration;
use qubit_reflect_derive::pipeline::ItemKindIr;
use qubit_reflect_derive::validate::validate_declaration;

const SPAN: usize = 7;

fn ident(name: &str) -> TokenTreeIr {
    TokenTreeIr::Ident { name: name.to_string(), span: SPAN }
}

fn path_tokens(names: &[&str]) -> Vec<TokenTreeIr> {
    let mut tokens = Vec::new();
    for (index, name) in names.iter().enumerate() {
        if index > 0 {
            tokens.push(TokenTreeIr::Punct { ch: ':', joint: true, span: SPAN });
            tokens.push(TokenTreeIr::Punct { ch: ':', joint: false, span: SPAN });
        }
        tokens.push(ident(name));
    }
    tokens
}

fn path(names: &[&str]) -> PathIr {
    PathIr {
        source: names.join(" :: "),
        segments: names
            .iter()
            .map(|name| PathSegmentIr { name: name.to_string(), arguments: PathArgumentsIr::Empty })
            .collect(),
        leading_colon: false,
        qualified_self: None,
        tokens: path_tokens(names),
        span: SPAN,
    }
}

fn named_type(names: &[&str]) -> TypeIr {
    TypeIr {
        source: names.join(" :: "),
        tokens: path_tokens(names),
        kind: TypeKindIr::Path(path(names)),
        span: SPAN,
    }
}

fn generics(params: &[(&str, GenericKindIr)]) -> GenericsIr {
    GenericsIr {
        params: params
            .iter()
            .map(|(name, kind)| GenericParamIr {
                name: name.to_string(),
                kind: *kind,
                bounds: Vec::new(),
                default: None,
                const_type: match kind {
                    GenericKindIr::Const => Some(named_type(&["usize"])),
                    _ => None,
                },
                declaration: vec![ident(name)],
                span: SPAN,
            })
            .collect(),
        where_predicates: Vec::new(),
        declaration: Vec::new(),
        impl_declaration: Vec::new(),
        arguments: Vec::new(),
        where_clause: Vec::new(),
    }
}

fn word(key: &str, span: usize) -> MetaIr {
    MetaIr {
        ident: Some(key.to_string()),
        path_text: key.to_string(),
        span,
        body: MetaBodyIr::Path { path_span: span },
    }
}

fn string_item(key: &str, value: &str, span: usize) -> MetaIr {
    MetaIr {
        ident: Some(key.to_string()),
        path_text: key.to_string(),
        span,
        body: MetaBodyIr::NameValue { value_span: span + 1, value: MetaValueIr::Str(value.to_string()) },
    }
}

fn path_item(key: &str, value: &[&str], span: usize) -> MetaIr {
    MetaIr {
        ident: Some(key.to_string()),
        path_text: key.to_string(),
        span,
        body: MetaBodyIr::NameValue { value_span: span + 1, value: MetaValueIr::Path(path(value)) },
    }
}

fn path_list_item(key: &str, paths: &[&[&str]], span: usize) -> MetaIr {
    MetaIr {
        ident: Some(key.to_string()),
        path_text: key.to_string(),
        span,
        body: MetaBodyIr::List {
            list_span: span + 1,
            arguments: ListArgumentsIr::Paths(paths.iter().map(|names| path(names)).collect()),
        },
    }
}

fn specialize_item(bindings: &[(&str, &str)], span: usize) -> MetaIr {
    MetaIr {
        ident: Some("specialize".to_string()),
        path_text: "specialize".to_string(),
        span,
        body: MetaBodyIr::List { list_span: span + 1, arguments: ListArgumentsIr::Bindings(specialization_bindings(bindings)) },
    }
}

fn specialization_bindings(bindings: &[(&str, &str)]) -> Vec<SpecializationBindingIr> {
    bindings
        .iter()
        .map(|(name, value)| SpecializationBindingIr {
            name: name.to_string(),
            value: if value.chars().all(|character| character.is_ascii_digit()) {
                SpecializationValueIr::Const(vec![TokenTreeIr::Literal { text: value.to_string(), span: SPAN }])
            } else if value.contains('<') {
                SpecializationValueIr::Type(named_type(&[value]))
            } else {
                SpecializationValueIr::AmbiguousPath(vec![ident(value)])
            },
            span: SPAN,
            value_span: SPAN + 1,
        })
        .collect()
}

fn external_trait_item(names: &[&str], id: &str, span: usize) -> MetaIr {
    MetaIr {
        ident: Some("external_trait".to_string()),
        path_text: "external_trait".to_string(),
        span,
        body: MetaBodyIr::List {
            list_span: span + 1,
            arguments: ListArgumentsIr::ExternalTrait { path: path(names), id: id.to_string(), id_span: span + 2 },
        },
    }
}

fn reflect(items: Vec<MetaIr>) -> ReflectAttributeIr {
    ReflectAttributeIr { is_reflect: true, span: SPAN, form: ReflectFormIr::List(Ok(items)) }
}

fn helpers(items: Vec<MetaIr>, target: HelperTarget) -> Vec<HelperAttributeIr> {
    let (helpers, diagnostics) = parse_helper_metas(items, target);
    assert!(diagnostics.is_empty(), "unexpected helper diagnostics: {:?}", diagnostics);
    helpers
}

fn field(name: Option<&str>, index: usize, ty: TypeIr, attributes: Vec<HelperAttributeIr>) -> FieldIr {
    FieldIr { name: name.map(str::to_string), index, visibility: VisibilityIr::Inherited, ty, attributes, span: SPAN }
}

fn structure(name: &str, params: &[(&str, GenericKindIr)], attributes: Vec<HelperAttributeIr>, fields: Vec<FieldIr>) -> TypeDeclarationIr {
    TypeDeclarationIr {
        name: name.to_string(),
        kind: TypeDeclarationKindIr::Struct,
        visibility: VisibilityIr::Inherited,
        generics: generics(params),
        attributes,
        fields,
        variants: Vec::new(),
        retained_tokens: Vec::new(),
        span: SPAN,
    }
}

fn qualifiers(is_async: bool) -> MethodQualifiersIr {
    MethodQualifiersIr { is_const: false, is_async, is_unsafe: false, abi: None, is_variadic: false }
}

fn shared_receiver() -> ReceiverIr {
    ReceiverIr { kind: ReceiverKindIr::SharedReference, ty: named_type(&["Self"]), declaration: Vec::new(), span: SPAN }
}

fn method(name: &str, params: &[(&str, GenericKindIr)], attributes: Vec<HelperAttributeIr>, specializations: Vec<SpecializationIr>, is_async: bool) -> MethodIr {
    MethodIr {
        name: name.to_string(),
        visibility: VisibilityIr::Inherited,
        generics: generics(params),
        receiver: Some(shared_receiver()),
        parameters: Vec::new(),
        return_type: ReturnTypeIr::Unit,
        qualifiers: qualifiers(is_async),
        has_default: false,
        attributes,
        specializations,
        span: SPAN,
    }
}

fn trait_bound(names: &[&str]) -> GenericBoundIr {
    GenericBoundIr::Trait { path: path(names), modifier: TraitBoundModifierIr::Plain, lifetimes: Vec::new() }
}

fn reflected_trait(name: &str, attributes: Vec<HelperAttributeIr>, supertraits: Vec<GenericBoundIr>, methods: Vec<MethodIr>) -> TraitDeclarationIr {
    let mut external_traits = Vec::new();
    let mut reflected_supertraits = Vec::new();
    for attribute in &attributes {
        match &attribute.value {
            HelperValueIr::ExternalTrait(external) => external_traits.push(ExternalTraitIr {
                path: path(&external.path.segments.iter().map(|segment| segment.name.as_str()).collect::<Vec<_>>()),
                id: external.id.clone(),
                id_span: external.id_span,
                span: external.span,
            }),
            HelperValueIr::Paths(paths) if attribute.name == HelperName::Supertrait => {
                for supertrait in paths {
                    reflected_supertraits.push(path(&supertrait.segments.iter().map(|segment| segment.name.as_str()).collect::<Vec<_>>()));
                }
            }
            _ => {}
        }
    }
    TraitDeclarationIr {
        name: name.to_string(),
        visibility: VisibilityIr::Inherited,
        generics: generics(&[]),
        supertraits,
        attributes,
        external_traits,
        reflected_supertraits,
        methods,
        associated_types: Vec::new(),
        associated_consts: Vec::new(),
        has_other_items: false,
        retained_tokens: Vec::new(),
        span: SPAN,
    }
}

fn reflected_impl(params: &[(&str, GenericKindIr)], target: TypeIr, trait_path: Option<PathIr>, attributes: Vec<HelperAttributeIr>, methods: Vec<MethodIr>) -> ImplDeclarationIr {
    let specializations = attributes
        .iter()
        .filter_map(|attribute| match &attribute.value {
            HelperValueIr::Specialization(specialization) => Some(SpecializationIr {
                bindings: specialization_bindings(
                    &specialization
                        .bindings
                        .iter()
                        .map(|binding| {
                            (
                                binding.name.as_str(),
                                match &binding.value {
                                    SpecializationValueIr::AmbiguousPath(tokens) => match &tokens[0] {
                                        TokenTreeIr::Ident { name, .. } => name.as_str(),
                                        _ => "?",
                                    },
                                    SpecializationValueIr::Type(ty) => ty.source.as_str(),
                                    SpecializationValueIr::Const(tokens) => match &tokens[0] {
                                        TokenTreeIr::Literal { text, .. } => text.as_str(),
                                        _ => "?",
                                    },
                                },
                            )
                        })
                        .collect::<Vec<_>>(),
                ),
                span: specialization.span,
            }),
            _ => None,
        })
        .collect();
    ImplDeclarationIr {
        generics: generics(params),
        target_type: target,
        trait_path,
        attributes,
        specializations,
        methods,
        associated_types: Vec::new(),
        associated_consts: Vec::new(),
        retained_tokens: Vec::new(),
        span: SPAN,
    }
}

fn messages(diagnostics: &[Diagnostic]) -> String {
    diagnostics.iter().map(|diagnostic| diagnostic.message.as_str()).collect::<Vec<_>>().join("\n")
}

fn rejected(declaration: DeclarationIr) -> String {
    match validate_declaration(ParsedDeclaration { declaration }) {
        Ok(_) => panic!("the declaration should be rejected"),
        Err(diagnostics) => messages(&diagnostics),
    }
}

fn accepted(declaration: DeclarationIr) {
    if let Err(diagnostics) = validate_declaration(ParsedDeclaration { declaration }) {
        panic!("the declaration should validate: {}", messages(&diagnostics));
    }
}

#[test]
fn test_macro_parsers_accept_supported_declarations() {
    let record = structure(
        "Record",
        &[("T", GenericKindIr::Type)],
        helpers(
            vec![string_item("rename", "Record", 1), path_list_item("capabilities", &[&["Clone"], &["Default"]], 3)],
            HelperTarget::Type,
        ),
        vec![
            field(
                Some("id"),
                0,
                named_type(&["u64"]),
                helpers(
                    vec![string_item("rename", "identifier", 5), word("read_only", 7), word("no_construct", 8), word("default", 9)],
                    HelperTarget::Field,
                ),
            ),
            field(Some("value"), 1, named_type(&["T"]), helpers(vec![word("opaque", 10)], HelperTarget::Field)),
        ],
    );
    accepted(DeclarationIr::Type(record));

    let event = TypeDeclarationIr {
        name: "Event".to_string(),
        kind: TypeDeclarationKindIr::Enum,
        visibility: VisibilityIr::Inherited,
        generics: generics(&[]),
        attributes: Vec::new(),
        fields: Vec::new(),
        variants: vec![
            VariantIr {
                name: "Ready".to_string(),
                index: 0,
                kind: VariantKindIr::Unit,
                fields: Vec::new(),
                attributes: helpers(vec![string_item("rename", "ready", 11), word("no_construct", 13)], HelperTarget::Variant),
                discriminant: None,
                span: SPAN,
            },
            VariantIr {
                name: "Hidden".to_string(),
                index: 1,
                kind: VariantKindIr::Tuple,
                fields: vec![field(None, 0, named_type(&["u32"]), helpers(vec![path_item("default", &["default_code"], 14)], HelperTarget::Field))],
                attributes: helpers(vec![word("skip", 16)], HelperTarget::Variant),
                discriminant: None,
                span: SPAN,
            },
        ],
        retained_tokens: Vec::new(),
        span: SPAN,
    };
    accepted(DeclarationIr::Type(event));

    let opaque = structure("Opaque", &[], helpers(vec![word("opaque", 17)], HelperTarget::Type), Vec::new());
    accepted(DeclarationIr::Type(opaque));

    let run = method(
        "run",
        &[("T", GenericKindIr::Type)],
        helpers(
            vec![string_item("rename", "execute", 18), word("catch_unwind", 20), word("thread_safe", 21), specialize_item(&[("T", "String")], 22)],
            HelperTarget::Method,
        ),
        vec![SpecializationIr { bindings: specialization_bindings(&[("T", "String")]), span: 23 }],
        false,
    );
    let disabled = method("disabled", &[], helpers(vec![word("no_invoke", 25)], HelperTarget::Method), Vec::new(), false);
    let service = reflected_trait(
        "Service",
        helpers(vec![external_trait_item(&["Send"], "core.marker.Send", 26)], HelperTarget::Trait),
        vec![trait_bound(&["Send"])],
        vec![run, disabled],
    );
    accepted(DeclarationIr::Trait(service));

    let value = method("value", &[], helpers(vec![string_item("rename", "current", 29), word("skip", 31)], HelperTarget::Method), Vec::new(), false);
    let inherent = reflected_impl(
        &[("T", GenericKindIr::Type)],
        named_type(&["Record"]),
        None,
        helpers(vec![specialize_item(&[("T", "String")], 32)], HelperTarget::Impl),
        vec![value],
    );
    accepted(DeclarationIr::Impl(inherent));

    let format = method("format", &[], Vec::new(), Vec::new(), false);
    let trait_impl = reflected_impl(
        &[("T", GenericKindIr::Type)],
        named_type(&["Record"]),
        Some(path(&["ExternalFormat"])),
        helpers(vec![string_item("external_trait_id", "example.ExternalFormat", 34)], HelperTarget::Impl),
        vec![format],
    );
    accepted(DeclarationIr::Impl(trait_impl));
}

#[test]
fn test_validate_rejects_wrong_targets_with_combined_diagnostics() {
    let declaration = structure(
        "Invalid",
        &[],
        helpers(vec![word("skip", 1)], HelperTarget::Type),
        vec![field(Some("value"), 0, named_type(&["String"]), helpers(vec![word("thread_safe", 2)], HelperTarget::Field))],
    );
    let diagnostics = rejected(DeclarationIr::Type(declaration));
    assert!(diagnostics.contains("`skip` is not valid on a type"));
    assert!(diagnostics.contains("`thread_safe` is not valid on a field"));
}

#[test]
fn test_validate_rejects_duplicate_and_mutually_exclusive_helpers() {
    let duplicate = structure(
        "Duplicate",
        &[],
        helpers(vec![string_item("rename", "one", 1), string_item("rename", "two", 3)], HelperTarget::Type),
        Vec::new(),
    );
    let diagnostics = rejected(DeclarationIr::Type(duplicate));
    assert!(diagnostics.contains("duplicate `rename`"));

    let conflicting = method(
        "execute",
        &[],
        helpers(vec![word("skip", 1), word("no_invoke", 2), word("catch_unwind", 3), word("thread_safe", 4)], HelperTarget::Method),
        Vec::new(),
        false,
    );
    let declaration = reflected_impl(&[], named_type(&["Service"]), None, Vec::new(), vec![conflicting]);
    let diagnostics = rejected(DeclarationIr::Impl(declaration));
    assert!(diagnostics.contains("`skip` cannot be combined with `no_invoke`"));
    assert!(diagnostics.contains("`skip` cannot be combined with `catch_unwind`"));
    assert!(diagnostics.contains("`no_invoke` cannot be combined with `catch_unwind`"));
    assert!(diagnostics.contains("`no_invoke` cannot be combined with `thread_safe`"));
}

#[test]
fn test_validate_rejects_catch_unwind_on_async_method() {
    let asynchronous = method("execute", &[], helpers(vec![word("catch_unwind", 1)], HelperTarget::Method), Vec::new(), true);
    let declaration = reflected_impl(&[], named_type(&["Service"]), None, Vec::new(), vec![asynchronous]);
    let diagnostics = rejected(DeclarationIr::Impl(declaration));
    assert!(diagnostics.contains("`catch_unwind` cannot be used on an async method"));
}

#[test]
fn test_parse_rejects_unknown_helpers() {
    let (helpers, diagnostics) = parse_helper_metas(vec![word("unknown_policy", 1)], HelperTarget::Type);
    assert!(helpers.is_empty());
    assert!(messages(&diagnostics).contains("unknown reflection helper `unknown_policy`"));

    let qualified = MetaIr {
        ident: None,
        path_text: "policy :: unknown".to_string(),
        span: 2,
        body: MetaBodyIr::Path { path_span: 2 },
    };
    let (helpers, diagnostics) = parse_helper_metas(vec![qualified], HelperTarget::Type);
    assert!(helpers.is_empty());
    assert!(messages(&diagnostics).contains("unknown reflection helper `policy :: unknown`"));
}

#[test]
fn test_parse_rejects_bare_helpers_and_aggregates_validation_errors() {
    let (type_helpers, mut parse_diagnostics) = parse_attributes(
        vec![reflect(vec![word("unknown_policy", 1)]), reflect(vec![word("skip", 2)])],
        HelperTarget::Type,
    );
    let (field_helpers, field_diagnostics) = parse_attributes(
        vec![ReflectAttributeIr { is_reflect: true, span: 3, form: ReflectFormIr::Bare }],
        HelperTarget::Field,
    );
    parse_diagnostics.extend(field_diagnostics);
    let declaration = structure("Invalid", &[], type_helpers, vec![field(Some("value"), 0, named_type(&["String"]), field_helpers)]);
    let result = parse_and_validate_declaration(ParsedDeclaration { declaration: DeclarationIr::Type(declaration) }, parse_diagnostics);
    let diagnostics = match result {
        Ok(_) => panic!("the declaration should be rejected"),
        Err(diagnostics) => messages(&diagnostics),
    };
    assert!(diagnostics.contains("unknown reflection helper `unknown_policy`"));
    assert!(diagnostics.contains("`skip` is not valid on a type"));
    assert!(diagnostics.contains("bare `#[reflect]` is not a valid helper attribute"));
    assert_eq!(diagnostics.matches("`skip` is not valid on a type").count(), 1, "semantic validation should run exactly once");
}

#[test]
fn test_validate_rejects_union_and_empty_or_conflicting_query_names() {
    let mut union = structure("Unsupported", &[], Vec::new(), vec![field(Some("value"), 0, named_type(&["u64"]), Vec::new())]);
    union.kind = TypeDeclarationKindIr::Union;
    assert!(rejected(DeclarationIr::Type(union)).contains("Reflect cannot be derived for unions"));

    let names = structure(
        "DuplicateNames",
        &[],
        Vec::new(),
        vec![
            field(Some("first"), 0, named_type(&["u8"]), helpers(vec![string_item("rename", "", 1)], HelperTarget::Field)),
            field(Some("second"), 1, named_type(&["u8"]), helpers(vec![string_item("rename", "same", 3)], HelperTarget::Field)),
            field(Some("third"), 2, named_type(&["u8"]), helpers(vec![string_item("rename", "same", 5)], HelperTarget::Field)),
        ],
    );
    let diagnostics = rejected(DeclarationIr::Type(names));
    assert!(diagnostics.contains("rename cannot be empty"));
    assert!(diagnostics.contains("field query name `same` for Rust member `third` conflicts with Rust member `second`"));
}

#[test]
fn test_validate_external_trait_ids_and_mapping_conflicts() {
    let inherent_display = reflected_impl(
        &[],
        named_type(&["Value"]),
        Some(path(&["Display"])),
        helpers(vec![string_item("external_trait_id", "qubit.reflect.Display", 1)], HelperTarget::Impl),
        Vec::new(),
    );
    assert!(rejected(DeclarationIr::Impl(inherent_display)).contains("reserved `qubit.reflect` namespace"));

    let duplicated = reflected_trait(
        "Service",
        helpers(
            vec![
                external_trait_item(&["Send"], "example.Send", 1),
                external_trait_item(&["Send"], "example.Other", 4),
                external_trait_item(&["Other"], "example.Send", 7),
            ],
            HelperTarget::Trait,
        ),
        vec![trait_bound(&["Send"])],
        Vec::new(),
    );
    let diagnostics = rejected(DeclarationIr::Trait(duplicated));
    assert!(diagnostics.contains("external trait path `Send` is mapped more than once"));
    assert!(diagnostics.contains("external trait ID `example.Send` is mapped more than once"));

    let unmatched = reflected_trait(
        "Service",
        helpers(vec![external_trait_item(&["NotABound"], "example.NotABound", 1)], HelperTarget::Trait),
        Vec::new(),
        Vec::new(),
    );
    assert!(rejected(DeclarationIr::Trait(unmatched)).contains("external trait mapping `NotABound` does not match a direct supertrait"));
}

#[test]
fn test_external_mappings_reject_non_supertrait_bounds() {
    let mut declaration = reflected_trait(
        "Service",
        helpers(
            vec![
                external_trait_item(&["Send"], "core.marker.Send", 1),
                external_trait_item(&["Sync"], "core.marker.Sync", 4),
                external_trait_item(&["core", "fmt", "Debug"], "core.fmt.Debug", 7),
            ],
            HelperTarget::Trait,
        ),
        Vec::new(),
        Vec::new(),
    );
    declaration.generics.where_predicates = Vec::new();
    let diagnostics = rejected(DeclarationIr::Trait(declaration));
    assert!(diagnostics.contains("external trait mapping `Send` does not match a direct supertrait"));
    assert!(diagnostics.contains("external trait mapping `Sync` does not match a direct supertrait"));
    assert!(diagnostics.contains("external trait mapping `core :: fmt :: Debug` does not match a direct supertrait"));
}

#[test]
fn test_validate_specialization_parameter_completeness() {
    let incomplete = reflected_impl(
        &[("T", GenericKindIr::Type), ("N", GenericKindIr::Const)],
        named_type(&["Container"]),
        None,
        helpers(vec![specialize_item(&[("T", "String"), ("T", "u8"), ("Extra", "u8")], 1)], HelperTarget::Impl),
        Vec::new(),
    );
    let diagnostics = rejected(DeclarationIr::Impl(incomplete));
    assert!(diagnostics.contains("duplicate specialization argument `T`"));
    assert!(diagnostics.contains("unknown specialization parameter `Extra`"));
    assert!(diagnostics.contains("missing specialization argument `N`"));

    let wrong_kinds = reflected_impl(
        &[("T", GenericKindIr::Type), ("N", GenericKindIr::Const)],
        named_type(&["Container"]),
        None,
        helpers(vec![specialize_item(&[("T", "16"), ("N", "Vec<u8>")], 1)], HelperTarget::Impl),
        Vec::new(),
    );
    let diagnostics = rejected(DeclarationIr::Impl(wrong_kinds));
    assert!(diagnostics.contains("specialization value for `T` does not match its Type parameter kind"));
    assert!(diagnostics.contains("specialization value for `N` does not match its Const parameter kind"));
}

#[test]
fn test_validate_accepts_repeatable_external_mappings_and_specializations() {
    let service = reflected_trait(
        "Service",
        helpers(
            vec![external_trait_item(&["Send"], "core.marker.Send", 1), external_trait_item(&["Sync"], "core.marker.Sync", 4)],
            HelperTarget::Trait,
        ),
        vec![trait_bound(&["Send"]), trait_bound(&["Sync"])],
        Vec::new(),
    );
    assert_eq!(service.external_traits.len(), 2);
    accepted(DeclarationIr::Trait(service));

    let container = reflected_impl(
        &[("T", GenericKindIr::Type)],
        named_type(&["Container"]),
        None,
        helpers(vec![specialize_item(&[("T", "String")], 1), specialize_item(&[("T", "Vec<u8>")], 3)], HelperTarget::Impl),
        Vec::new(),
    );
    assert_eq!(container.specializations.len(), 2);
    accepted(DeclarationIr::Impl(container));
}

#[test]
fn test_parse_rejects_attribute_macros_on_wrong_item_kinds() {
    let trait_diagnostic = entry_error(MacroKind::Trait, ItemKindIr::Struct, false).expect("a struct is not a trait");
    assert!(trait_diagnostic.contains("`#[reflect]` can only be applied to a trait"));
    let impl_diagnostic = entry_error(MacroKind::Impl, ItemKindIr::Trait, false).expect("a trait is not an impl");
    assert!(impl_diagnostic.contains("`#[reflect_impl]` can only be applied to an impl block"));
    assert!(entry_error(MacroKind::Derive, ItemKindIr::Struct, true).is_some());
    assert!(entry_error(MacroKind::Derive, ItemKindIr::Enum, false).is_none());
    assert!(entry_error(MacroKind::Trait, ItemKindIr::Trait, true).is_none());
    assert!(entry_error(MacroKind::Impl, ItemKindIr::Impl, false).is_none());
}

#[test]
fn test_reflect_trait_requires_each_direct_supertrait_to_be_classified() {
    let declaration = reflected_trait("Service", Vec::new(), vec![trait_bound(&["std", "fmt", "Debug"])], Vec::new());
    let diagnostics = rejected(DeclarationIr::Trait(declaration));
    assert!(diagnostics.contains("direct supertrait `std :: fmt :: Debug` needs"));

    let classified = reflected_trait(
        "Service",
        helpers(vec![external_trait_item(&["std", "fmt", "Debug"], "std.fmt.Debug", 1)], HelperTarget::Trait),
        vec![trait_bound(&["std", "fmt", "Debug"])],
        Vec::new(),
    );
    accepted(DeclarationIr::Trait(classified));
}

#[test]
fn test_trait_and_impl_accept_explicit_runtime_facade() {
    let facade = reflected_trait("Service", helpers(vec![path_item("crate", &["framework", "reflect"], 1)], HelperTarget::Trait), Vec::new(), Vec::new());
    accepted(DeclarationIr::Trait(facade));
    let implementation = reflected_impl(
        &[],
        named_type(&["Service"]),
        None,
        helpers(vec![path_item("crate", &["framework", "reflect"], 1)], HelperTarget::Impl),
        Vec::new(),
    );
    accepted(DeclarationIr::Impl(implementation));
}

#[test]
fn helper_item_forms_report_their_exact_diagnostics() {
    let cases: Vec<(MetaIr, &str)> = vec![
        (string_item("skip", "x", 1), "`skip` does not accept a value"),
        (word("rename", 2), "`rename` requires a string literal value"),
        (path_item("rename", &["value"], 3), "`rename` requires a string literal value"),
        (word("capabilities", 4), "`capabilities` requires a parenthesized path list"),
        (path_list_item("supertrait", &[], 5), "`supertrait` requires at least one path"),
        (string_item("default", "x", 6), "`default` provider must be a Rust path"),
        (path_list_item("default", &[&["x"]], 7), "`default` accepts either no value or `= provider_path`"),
        (word("specialize", 8), "`specialize` requires named arguments"),
        (specialize_item(&[], 9), "`specialize` requires at least one named argument"),
        (word("external_trait", 10), "`external_trait` requires `(path, id = \"...\")`"),
        (string_item("crate", "x", 11), "`crate` requires a Rust facade path"),
        (word("crate", 12), "`crate` requires a Rust facade path"),
    ];
    for (item, expected) in cases {
        let (helpers, diagnostics) = parse_helper_metas(vec![item], HelperTarget::Type);
        assert!(helpers.is_empty());
        assert_eq!(diagnostics.len(), 1);
        assert_eq!(diagnostics[0].message, expected);
    }
}

#[test]
fn helper_item_spans_point_at_the_rejected_part() {
    let (_, diagnostics) = parse_helper_metas(vec![path_item("rename", &["value"], 40)], HelperTarget::Type);
    assert_eq!(diagnostics[0].span, 41);
    let (_, diagnostics) = parse_helper_metas(vec![word("rename", 50)], HelperTarget::Type);
    assert_eq!(diagnostics[0].span, 50);
    let (_, diagnostics) = parse_helper_metas(vec![specialize_item(&[], 60)], HelperTarget::Impl);
    assert_eq!(diagnostics[0].span, 61);
    let invalid = MetaIr {
        ident: Some("capabilities".to_string()),
        path_text: "capabilities".to_string(),
        span: 70,
        body: MetaBodyIr::List {
            list_span: 71,
            arguments: ListArgumentsIr::Invalid(Diagnostic { span: 72, message: "expected path".to_string() }),
        },
    };
    let (_, diagnostics) = parse_helper_metas(vec![invalid], HelperTarget::Type);
    assert_eq!(diagnostics[0].span, 72);
    assert_eq!(diagnostics[0].message, "expected path");
}

#[test]
fn accepted_helper_items_carry_their_values() {
    let (helpers, diagnostics) = parse_helper_metas(
        vec![
            string_item("rename", "Packet", 1),
            word("opaque", 3),
            path_item("default", &["make_count"], 4),
            word("default", 6),
            word("dyn_compatible", 7),
            path_list_item("dyn_compatible", &[&["Base", "Item"]], 8),
            path_item("crate", &["framework", "reflect"], 10),
        ],
        HelperTarget::Type,
    );
    assert!(diagnostics.is_empty());
    assert_eq!(helpers.len(), 7);
    assert!(matches!(&helpers[0].value, HelperValueIr::Rename(value) if value == "Packet"));
    assert_eq!(helpers[0].span, 1);
    assert_eq!(helpers[0].value_span, 2);
    assert!(matches!(helpers[1].value, HelperValueIr::Flag));
    assert_eq!(helpers[1].value_span, 3);
    assert!(matches!(&helpers[2].value, HelperValueIr::DefaultPath(Some(path)) if path.source == "make_count"));
    assert!(matches!(helpers[3].value, HelperValueIr::DefaultPath(None)));
    assert!(matches!(helpers[4].value, HelperValueIr::Flag));
    assert!(matches!(&helpers[5].value, HelperValueIr::DynCompatible(paths) if paths.len() == 1));
    assert!(matches!(&helpers[6].value, HelperValueIr::RuntimeCrate(path) if path.source == "framework :: reflect"));
    assert_eq!(helpers[6].name, HelperName::RuntimeCrate);
}

#[test]
fn non_reflect_and_name_value_attributes() {
    let (helpers, diagnostics) = parse_attributes(
        vec![
            ReflectAttributeIr { is_reflect: false, span: 1, form: ReflectFormIr::Bare },
            ReflectAttributeIr { is_reflect: true, span: 2, form: ReflectFormIr::NameValue },
            ReflectAttributeIr { is_reflect: true, span: 3, form: ReflectFormIr::List(Err(Diagnostic { span: 4, message: "expected `,`".to_string() })) },
            reflect(vec![word("skip", 5)]),
        ],
        HelperTarget::Field,
    );
    assert_eq!(helpers.len(), 1);
    assert_eq!(helpers[0].name, HelperName::Skip);
    assert_eq!(helpers[0].target, HelperTarget::Field);
    assert_eq!(diagnostics.len(), 2);
    assert_eq!(diagnostics[0].message, "`reflect` helpers must use `#[reflect(...)]` syntax");
    assert_eq!(diagnostics[0].span, 2);
    assert_eq!(diagnostics[1].span, 4);
}

#[test]
fn valid_declarations_pass_the_pipeline_unchanged() {
    let declaration = structure("Plain", &[], Vec::new(), vec![field(Some("value"), 0, named_type(&["u8"]), Vec::new())]);
    let validated = parse_and_validate_declaration(ParsedDeclaration { declaration: DeclarationIr::Type(declaration) }, Vec::new())
        .expect("a plain struct is valid");
    assert!(matches!(validated.declaration, DeclarationIr::Type(ref value) if value.name == "Plain"));

    let declaration = structure("Plain", &[], Vec::new(), Vec::new());
    let parse_failure = vec![Diagnostic { span: 3, message: "expected identifier".to_string() }];
    let result = parse_and_validate_declaration(ParsedDeclaration { declaration: DeclarationIr::Type(declaration) }, parse_failure);
    match result {
        Ok(_) => panic!("a parse diagnostic rejects the declaration"),
        Err(diagnostics) => {
            assert_eq!(diagnostics.len(), 1);
            assert_eq!(diagnostics[0].message, "expected identifier");
        }
    }
}

#[test]
fn definition_provider_requires_generic_types() {
    let declaration = structure("Plain", &[], helpers(vec![path_item("definition_provider_v2", &["plain_definition"], 1)], HelperTarget::Type), Vec::new());
    assert!(rejected(DeclarationIr::Type(declaration)).contains("definition_provider_v2 requires a generic type"));
    let generic = structure("Generic", &[("T", GenericKindIr::Type)], helpers(vec![path_item("definition_provider_v2", &["generic_definition"], 1)], HelperTarget::Type), Vec::new());
    match &generic.attributes[0].value {
        HelperValueIr::DefinitionProvider(name) => assert_eq!(name, "generic_definition"),
        _ => panic!("a provider name is an identifier"),
    }
    accepted(DeclarationIr::Type(generic));
    let (_, diagnostics) = parse_helper_metas(vec![path_item("definition_provider_v2", &["a", "b"], 3)], HelperTarget::Type);
    assert_eq!(diagnostics[0].message, "`definition_provider_v2` requires an identifier value");
    assert_eq!(diagnostics[0].span, 4);
}

#[test]
fn dyn_compatible_paths_must_name_direct_supertraits() {
    let declaration = reflected_trait(
        "Service",
        helpers(
            vec![
                external_trait_item(&["Base"], "example.Base", 1),
                path_list_item("dyn_compatible", &[&["Item"], &["Other", "Item"], &["Base", "Item"], &["Base", "Item"]], 4),
            ],
            HelperTarget::Trait,
        ),
        vec![trait_bound(&["Base"])],
        Vec::new(),
    );
    let diagnostics = rejected(DeclarationIr::Trait(declaration));
    assert!(diagnostics.contains("`dyn_compatible` inherited associated types must use `Supertrait::Item` paths"));
    assert!(diagnostics.contains("`dyn_compatible` associated-type prefixes must name a direct supertrait"));
    assert!(diagnostics.contains("duplicate inherited dyn associated type `Item`"));
}

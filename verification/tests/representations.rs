//! The `repr` hints of reflected enums.

use qubit_reflect_derive::context::EnumReprIr;
use qubit_reflect_derive::ir::DelimiterIr;
use qubit_reflect_derive::ir::GenericKindIr;
use qubit_reflect_derive::ir::GenericParamIr;
use qubit_reflect_derive::ir::GenericsIr;
use qubit_reflect_derive::ir::TypeDeclarationIr;
use qubit_reflect_derive::ir::TypeDeclarationKindIr;
use qubit_reflect_derive::ir::VariantIr;
use qubit_reflect_derive::ir::VariantKindIr;
use qubit_reflect_derive::ir::VisibilityIr;
use qubit_reflect_derive::ir::TokenTreeIr;
use qubit_reflect_derive::representation::declared_representations;
use qubit_reflect_derive::representation::enum_representations;
use qubit_reflect_derive::representation::insert_canonically;
use qubit_reflect_derive::representation::integer_representation;
use qubit_reflect_derive::representation::precedes;
use qubit_reflect_derive::representation::representations_of;

fn ident(name: &str) -> TokenTreeIr {
    TokenTreeIr::Ident { name: name.to_string(), span: 0 }
}

fn punct(ch: char) -> TokenTreeIr {
    TokenTreeIr::Punct { ch, joint: false, span: 0 }
}

fn literal(text: &str) -> TokenTreeIr {
    TokenTreeIr::Literal { text: text.to_string(), span: 0 }
}

fn group(delimiter: DelimiterIr, tokens: Vec<TokenTreeIr>) -> TokenTreeIr {
    TokenTreeIr::Group { delimiter, tokens, span: 0 }
}

fn attribute(body: Vec<TokenTreeIr>) -> Vec<TokenTreeIr> {
    vec![punct('#'), group(DelimiterIr::Bracket, body)]
}

fn repr(arguments: Vec<TokenTreeIr>) -> Vec<TokenTreeIr> {
    attribute(vec![ident("repr"), group(DelimiterIr::Parenthesis, arguments)])
}

fn declaration(attributes: Vec<Vec<TokenTreeIr>>) -> Vec<TokenTreeIr> {
    let mut tokens: Vec<TokenTreeIr> = attributes.into_iter().flatten().collect();
    tokens.push(ident("enum"));
    tokens.push(ident("Mode"));
    tokens.push(group(DelimiterIr::Brace, vec![ident("On"), punct(','), ident("Off")]));
    tokens
}

#[test]
fn representations_are_sorted_and_deduplicated() {
    let tokens = declaration(vec![
        repr(vec![ident("u8"), punct(','), ident("C")]),
        attribute(vec![ident("derive"), group(DelimiterIr::Parenthesis, vec![ident("Clone")])]),
        repr(vec![
            ident("align"),
            group(DelimiterIr::Parenthesis, vec![literal("16")]),
            punct(','),
            ident("C"),
            punct(','),
            ident("align"),
            group(DelimiterIr::Parenthesis, vec![literal("8")]),
        ]),
    ]);

    assert_eq!(
        declared_representations(&tokens),
        vec![EnumReprIr::U8, EnumReprIr::C, EnumReprIr::Align(16), EnumReprIr::C, EnumReprIr::Align(8)]
    );
    assert_eq!(
        enum_representations(&tokens),
        vec![EnumReprIr::C, EnumReprIr::U8, EnumReprIr::Align(8), EnumReprIr::Align(16)]
    );
}

#[test]
fn representations_ignore_unknown_and_malformed_hints() {
    let tokens = declaration(vec![repr(vec![
        ident("packed"),
        punct(','),
        ident("align"),
        group(DelimiterIr::Parenthesis, vec![ident("N")]),
        punct(','),
        ident("align"),
        group(DelimiterIr::Parenthesis, vec![literal("0x10")]),
        punct(','),
        ident("transparent"),
        punct(','),
    ])]);

    assert_eq!(enum_representations(&tokens), vec![EnumReprIr::Transparent, EnumReprIr::Align(16)]);
}

#[test]
fn only_leading_attributes_are_read() {
    let mut tokens = declaration(vec![]);
    tokens.extend(repr(vec![ident("u16")]));
    assert!(enum_representations(&tokens).is_empty());

    let nested = attribute(vec![ident("cfg_attr"), group(DelimiterIr::Parenthesis, vec![ident("u16")])]);
    assert!(enum_representations(&declaration(vec![nested])).is_empty());
}

#[test]
fn canonical_order_follows_the_declaration_order() {
    assert!(precedes(EnumReprIr::Rust, EnumReprIr::C));
    assert!(precedes(EnumReprIr::Usize, EnumReprIr::Align(1)));
    assert!(precedes(EnumReprIr::Align(2), EnumReprIr::Align(4)));
    assert!(!precedes(EnumReprIr::Align(4), EnumReprIr::Align(4)));
    assert!(!precedes(EnumReprIr::U8, EnumReprIr::I8));

    let mut reprs = Vec::new();
    for hint in [EnumReprIr::U32, EnumReprIr::Rust, EnumReprIr::U32, EnumReprIr::Align(4), EnumReprIr::I64] {
        insert_canonically(&mut reprs, hint);
    }
    assert_eq!(reprs, vec![EnumReprIr::Rust, EnumReprIr::I64, EnumReprIr::U32, EnumReprIr::Align(4)]);
}

fn variant(name: &str, index: usize, kind: VariantKindIr) -> VariantIr {
    VariantIr {
        name: name.to_string(),
        index,
        kind,
        fields: Vec::new(),
        attributes: Vec::new(),
        discriminant: None,
        span: 0,
    }
}

fn enumeration(params: Vec<GenericParamIr>, variants: Vec<VariantIr>) -> TypeDeclarationIr {
    TypeDeclarationIr {
        name: "Mode".to_string(),
        kind: TypeDeclarationKindIr::Enum,
        visibility: VisibilityIr::Inherited,
        generics: GenericsIr {
            params,
            where_predicates: Vec::new(),
            declaration: Vec::new(),
            impl_declaration: Vec::new(),
            arguments: Vec::new(),
            where_clause: Vec::new(),
        },
        attributes: Vec::new(),
        fields: Vec::new(),
        variants,
        retained_tokens: Vec::new(),
        span: 0,
    }
}

#[test]
fn fieldless_enums_use_their_first_integer_representation() {
    let reprs = vec![EnumReprIr::C, EnumReprIr::I16, EnumReprIr::U8];
    let fieldless = enumeration(Vec::new(), vec![variant("On", 0, VariantKindIr::Unit), variant("Off", 1, VariantKindIr::Unit)]);
    assert_eq!(integer_representation(&fieldless, &reprs), Some("i16"));
    assert_eq!(integer_representation(&fieldless, &vec![EnumReprIr::C, EnumReprIr::Align(4)]), None);

    let with_fields = enumeration(Vec::new(), vec![variant("On", 0, VariantKindIr::Unit), variant("Value", 1, VariantKindIr::Tuple)]);
    assert_eq!(integer_representation(&with_fields, &reprs), None);

    let parameter = GenericParamIr {
        name: "T".to_string(),
        kind: GenericKindIr::Type,
        bounds: Vec::new(),
        default: None,
        const_type: None,
        declaration: Vec::new(),
        span: 0,
    };
    let generic = enumeration(vec![parameter], vec![variant("On", 0, VariantKindIr::Unit)]);
    assert_eq!(integer_representation(&generic, &reprs), None);
}

#[test]
fn tokens_that_are_no_derive_input_have_no_representation() {
    assert!(enum_representations(&repr(vec![ident("C")])).is_empty());
    let tokens = declaration(vec![repr(vec![ident("C")])]);
    assert_eq!(enum_representations(&tokens), vec![EnumReprIr::C]);
    assert!(representations_of(&tokens, false).is_empty());
    assert_eq!(representations_of(&tokens, true), vec![EnumReprIr::C]);
}

#[test]
fn repr_lists_that_are_no_meta_list_are_skipped_whole() {
    let tokens = declaration(vec![repr(vec![ident("u8"), punct(','), punct('=')]), repr(vec![ident("C")])]);
    assert_eq!(declared_representations(&tokens), vec![EnumReprIr::C]);
    let doubled = declaration(vec![repr(vec![ident("u8"), punct(','), punct(','), ident("C")])]);
    assert!(declared_representations(&doubled).is_empty());
    let spaced = declaration(vec![repr(vec![ident("u8"), ident("C")])]);
    assert!(declared_representations(&spaced).is_empty());
    let valued = declaration(vec![repr(vec![ident("u16"), punct(','), ident("note"), punct('='), literal("1")])]);
    assert_eq!(declared_representations(&valued), vec![EnumReprIr::U16]);
    let trailing = declaration(vec![repr(vec![ident("u32"), punct(',')])]);
    assert_eq!(declared_representations(&trailing), vec![EnumReprIr::U32]);
}

//! Structural values of const defaults and const arguments.

use qubit_reflect_derive::const_codegen::const_expression;
use qubit_reflect_derive::const_codegen::const_value_expression;
use qubit_reflect_derive::const_codegen::lifetime_expression;
use qubit_reflect_derive::substitution::tokens_text;
use qubit_reflect_derive::constant::const_argument_from;
use qubit_reflect_derive::constant::const_argument_value;
use qubit_reflect_derive::constant::const_default_from;
use qubit_reflect_derive::constant::const_default_value;
use qubit_reflect_derive::constant::integer_const_default;
use qubit_reflect_derive::constant::literal_argument_value;
use qubit_reflect_derive::constant::literal_default_value;
use qubit_reflect_derive::constant::parse_signed_decimal;
use qubit_reflect_derive::constant::parse_unsigned_decimal;
use qubit_reflect_derive::constant::ConstValueIr;
use qubit_reflect_derive::constant::LiteralIr;
use qubit_reflect_derive::ir::TokenTreeIr;

fn ident(name: &str) -> TokenTreeIr {
    TokenTreeIr::Ident { name: name.to_string(), span: 0 }
}

fn punct(ch: char) -> TokenTreeIr {
    TokenTreeIr::Punct { ch, joint: false, span: 0 }
}

fn literal(text: &str) -> TokenTreeIr {
    TokenTreeIr::Literal { text: text.to_string(), span: 0 }
}

fn integer(digits: &str, suffix: &str) -> LiteralIr {
    LiteralIr::Integer { digits: digits.to_string(), suffix: suffix.to_string() }
}

#[test]
fn test_const_default_accepts_signed_suffixed_and_escaped_literals() {
    let facade = vec![ident("qubit_reflect")];
    let signed = tokens_text(&const_expression(&vec![punct('-'), literal("7i16")], &facade));
    let unsigned = tokens_text(&const_expression(&vec![literal("42u8")], &facade));
    let escaped = tokens_text(&const_expression(&vec![literal("'\\n'")], &facade));

    assert!(signed.contains("SignedInteger"));
    assert!(signed.contains("- 7i128"));
    assert!(unsigned.contains("UnsignedInteger"));
    assert!(unsigned.contains("42u128"));
    assert!(escaped.contains("Character"));
    assert!(escaped.contains("'\\n'"));
}

#[test]
fn test_const_default_rejects_non_literal_expression() {
    let rendered = tokens_text(&const_expression(&vec![ident("DEFAULT_LIMIT")], &vec![ident("qubit_reflect")]));

    assert!(rendered.contains("unsupported non-literal const default"));
    assert!(rendered.contains("DEFAULT_LIMIT"));
}

#[test]
fn const_default_values_are_structural() {
    assert!(matches!(const_default_value(&vec![punct('-'), literal("7i16")]), Ok(ConstValueIr::SignedInteger(-7))));
    assert!(matches!(const_default_value(&vec![literal("42u8")]), Ok(ConstValueIr::UnsignedInteger(42))));
    assert!(matches!(const_default_value(&vec![literal("'\\n'")]), Ok(ConstValueIr::Character('\n'))));
    let refused = match const_default_value(&vec![ident("DEFAULT_LIMIT")]) {
        Ok(value) => panic!("a symbolic default must be refused, got {:?}", value),
        Err(message) => message,
    };
    assert_eq!(refused, "unsupported non-literal const default in #[reflect] trait: DEFAULT_LIMIT");
}

#[test]
fn const_values_are_emitted_as_expressions() {
    let facade = vec![ident("qubit_reflect")];
    assert_eq!(
        tokens_text(&const_value_expression(&Ok(ConstValueIr::Boolean(true)), &facade)),
        "Some (qubit_reflect :: expression :: ConstExpression :: Boolean (true))"
    );
    assert_eq!(
        tokens_text(&const_value_expression(&Ok(ConstValueIr::Character('\'')), &facade)),
        "Some (qubit_reflect :: expression :: ConstExpression :: Character ('\\''))"
    );
    assert_eq!(
        tokens_text(&const_value_expression(&Err("say \"no\"".to_string()), &facade)),
        "compile_error ! (\"say \\\"no\\\"\")"
    );
    assert_eq!(
        tokens_text(&const_value_expression(&Ok(ConstValueIr::SignedInteger(i128::MIN)), &facade)),
        "Some (qubit_reflect :: expression :: ConstExpression :: SignedInteger (- 170141183460469231731687303715884105728i128))"
    );
}

#[test]
fn const_default_reads_booleans_and_refuses_other_shapes() {
    assert!(matches!(const_default_value(&vec![ident("true")]), Ok(ConstValueIr::Boolean(true))));
    assert!(matches!(const_default_value(&vec![ident("false")]), Ok(ConstValueIr::Boolean(false))));
    assert_eq!(
        const_default_value(&vec![literal("\"text\"")]).unwrap_err(),
        "unsupported non-literal const default in #[reflect] trait: \"text\""
    );
    assert_eq!(
        const_default_value(&vec![literal("1"), punct('+'), literal("2")]).unwrap_err(),
        "unsupported non-literal const default in #[reflect] trait: 1 + 2"
    );
    assert_eq!(
        const_default_value(&vec![punct('-'), literal("'a'")]).unwrap_err(),
        "unsupported non-literal const default in #[reflect] trait: - 'a'"
    );
}

#[test]
fn const_default_reads_hexadecimal_and_refuses_overflow() {
    assert!(matches!(const_default_value(&vec![literal("0x2A")]), Ok(ConstValueIr::UnsignedInteger(42))));
    assert!(matches!(
        const_default_value(&vec![punct('-'), literal("170141183460469231731687303715884105727")]),
        Ok(ConstValueIr::SignedInteger(-170141183460469231731687303715884105727))
    ));
    assert_eq!(
        const_default_value(&vec![punct('-'), literal("170141183460469231731687303715884105728")]).unwrap_err(),
        "unsupported non-literal const default in #[reflect] trait: 170141183460469231731687303715884105728"
    );
    assert!(matches!(
        const_default_value(&vec![literal("128i8")]),
        Ok(ConstValueIr::SignedInteger(128))
    ));
}

#[test]
fn integer_defaults_follow_sign_and_suffix() {
    assert!(matches!(integer_const_default("7", "i16", true), Some(ConstValueIr::SignedInteger(-7))));
    assert!(matches!(integer_const_default("7", "isize", false), Some(ConstValueIr::SignedInteger(7))));
    assert!(matches!(integer_const_default("7", "", false), Some(ConstValueIr::UnsignedInteger(7))));
    assert!(integer_const_default("340282366920938463463374607431768211456", "", false).is_none());
    assert!(matches!(
        integer_const_default("340282366920938463463374607431768211455", "u128", false),
        Some(ConstValueIr::UnsignedInteger(u128::MAX))
    ));
    assert!(integer_const_default("170141183460469231731687303715884105728", "i128", false).is_none());
}

#[test]
fn literal_defaults_refuse_negated_characters_and_other_literals() {
    assert!(matches!(literal_default_value(&LiteralIr::Character('x'), false), Some(ConstValueIr::Character('x'))));
    assert!(literal_default_value(&LiteralIr::Character('x'), true).is_none());
    assert!(literal_default_value(&LiteralIr::Other, false).is_none());
    assert!(matches!(literal_default_value(&integer("5", "u8"), true), Some(ConstValueIr::SignedInteger(-5))));
}

#[test]
fn decimal_parsing_matches_the_standard_library() {
    for text in ["0", "+7", "-7", "", "+", "-", "12a", "340282366920938463463374607431768211455",
        "340282366920938463463374607431768211456", "-170141183460469231731687303715884105728",
        "170141183460469231731687303715884105728", "007"]
    {
        assert_eq!(parse_unsigned_decimal(text), text.parse::<u128>().ok(), "{}", text);
        assert_eq!(parse_signed_decimal(text), text.parse::<i128>().ok(), "{}", text);
    }
}

#[test]
fn const_arguments_read_parameters_and_literals() {
    match const_argument_value(&vec![ident("N")]) {
        Ok(ConstValueIr::Parameter(name)) => assert_eq!(name, "N"),
        other => panic!("expected a parameter, got {:?}", other),
    }
    assert!(matches!(const_argument_value(&vec![ident("true")]), Ok(ConstValueIr::Boolean(true))));
    assert!(matches!(const_argument_value(&vec![literal("5i8")]), Ok(ConstValueIr::UnsignedInteger(5))));
    assert!(matches!(const_argument_value(&vec![punct('-'), literal("3")]), Ok(ConstValueIr::SignedInteger(-3))));
    assert!(matches!(const_argument_value(&vec![literal("'z'")]), Ok(ConstValueIr::Character('z'))));
    assert_eq!(
        const_argument_value(&vec![ident("self")]).unwrap_err(),
        "unsupported const expression in #[reflect] trait: self"
    );
    assert_eq!(
        const_argument_value(&vec![ident("N"), punct('+'), literal("1")]).unwrap_err(),
        "unsupported const expression in #[reflect] trait: N + 1"
    );
}

#[test]
fn literal_arguments_ignore_the_suffix() {
    assert!(matches!(literal_argument_value(&integer("5", "i8"), false), Some(ConstValueIr::UnsignedInteger(5))));
    assert!(matches!(literal_argument_value(&integer("5", "u8"), true), Some(ConstValueIr::SignedInteger(-5))));
    assert!(literal_argument_value(&LiteralIr::Character('c'), true).is_none());
}

#[test]
fn const_values_follow_each_reading_of_their_literal() {
    let digits = LiteralIr::Integer { digits: "42".to_string(), suffix: "i8".to_string() };
    let negative = vec![
        TokenTreeIr::Punct { ch: '-', joint: false, span: 0 },
        TokenTreeIr::Literal { text: "42i8".to_string(), span: 0 },
    ];
    assert!(matches!(const_default_from(&negative, &digits), Ok(ConstValueIr::SignedInteger(-42))));
    assert!(matches!(const_argument_from(&negative, &digits, false), Ok(ConstValueIr::SignedInteger(-42))));
    assert!(const_default_from(&negative, &LiteralIr::Other).is_err());
    let name = vec![TokenTreeIr::Ident { name: "N".to_string(), span: 0 }];
    assert!(matches!(const_argument_from(&name, &LiteralIr::Other, true), Ok(ConstValueIr::Parameter(ref n)) if n == "N"));
    assert!(const_argument_from(&name, &LiteralIr::Other, false).is_err());
    let truth = vec![TokenTreeIr::Ident { name: "true".to_string(), span: 0 }];
    assert!(matches!(const_argument_from(&truth, &LiteralIr::Other, true), Ok(ConstValueIr::Boolean(true))));
}

#[test]
fn lifetimes_are_emitted_as_expressions() {
    let facade = vec![ident("qubit_reflect")];
    assert_eq!(
        tokens_text(&lifetime_expression("'static", &facade)),
        "qubit_reflect :: expression :: LifetimeExpression :: Static"
    );
    assert_eq!(
        tokens_text(&lifetime_expression("'a", &facade)),
        "qubit_reflect :: __private :: codegen_v1 :: expression :: named_lifetime (\"a\")"
    );
}

//! The tail of an `external_trait(path, id = "...")` helper.

use qubit_reflect_derive::external_trait::external_trait_tail;
use qubit_reflect_derive::external_trait::external_trait_tail_from;
use qubit_reflect_derive::ir::TokenTreeIr;

fn ident(name: &str, span: usize) -> TokenTreeIr {
    TokenTreeIr::Ident { name: name.to_string(), span }
}

fn punct(ch: char, span: usize) -> TokenTreeIr {
    TokenTreeIr::Punct { ch, joint: false, span }
}

fn literal(text: &str, span: usize) -> TokenTreeIr {
    TokenTreeIr::Literal { text: text.to_string(), span }
}

fn message(tokens: &Vec<TokenTreeIr>) -> (usize, String) {
    match external_trait_tail(tokens) {
        Err(diagnostic) => (diagnostic.span, diagnostic.message),
        Ok(_) => panic!("the tail must be refused"),
    }
}

#[test]
fn external_trait_tail_reads_the_id() {
    let tokens = vec![punct(',', 1), ident("id", 2), punct('=', 3), literal("\"core.marker.Send\"", 4)];
    let (id, span) = external_trait_tail(&tokens).expect("well-formed tail");
    assert_eq!(id, "core.marker.Send");
    assert_eq!(span, 4);
    let escaped = vec![punct(',', 1), ident("id", 2), punct('=', 3), literal("\"a\\tb\"", 4)];
    assert_eq!(external_trait_tail(&escaped).expect("escaped id").0, "a\tb");
}

#[test]
fn external_trait_tail_reports_each_missing_part() {
    assert_eq!(message(&vec![]), (0, "expected `,`".to_string()));
    assert_eq!(message(&vec![ident("id", 1)]), (1, "expected `,`".to_string()));
    assert_eq!(message(&vec![punct(',', 1)]), (0, "unexpected end of input, expected identifier".to_string()));
    assert_eq!(message(&vec![punct(',', 1), ident("name", 2)]), (2, "expected `id`".to_string()));
    assert_eq!(
        message(&vec![punct(',', 1), ident("type", 2)]),
        (2, "expected identifier, found keyword `type`".to_string())
    );
    assert_eq!(message(&vec![punct(',', 1), ident("id", 2), punct(':', 3)]), (3, "expected `=`".to_string()));
    assert_eq!(
        message(&vec![punct(',', 1), ident("id", 2), punct('=', 3)]),
        (0, "unexpected end of input, expected string literal".to_string())
    );
    assert_eq!(
        message(&vec![punct(',', 1), ident("id", 2), punct('=', 3), literal("7", 4)]),
        (4, "expected string literal".to_string())
    );
    assert_eq!(
        message(&vec![punct(',', 1), ident("id", 2), punct('=', 3), literal("\"x\"", 4), punct(',', 5)]),
        (5, "unexpected tokens after external trait ID".to_string())
    );
}

#[test]
fn external_trait_tail_follows_each_reading() {
    let tokens = vec![punct(',', 1), ident("id", 2), punct('=', 3), literal("\"x\"", 4)];
    assert_eq!(external_trait_tail_from(&tokens, true, Some("y".to_string())).expect("read").0, "y");
    assert!(external_trait_tail_from(&tokens, true, None).is_err());
}

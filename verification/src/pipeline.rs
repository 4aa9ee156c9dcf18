//! The shared entry pipeline of the three reflection macros: the item-kind
//! checks made before parsing, and the single validation pass whose
//! diagnostics are reported together with those of parsing.

use vstd::prelude::*;
use vstd::string::StringExecFns;

use crate::diagnostics::Diagnostic;
use crate::diagnostics::DiagnosticView;
use crate::diagnostics::append_diagnostics;
use crate::diagnostics::views;
use crate::ir::MacroKind;
use crate::ir::ParsedDeclaration;
use crate::ir::ValidatedDeclaration;
use crate::validate::validation_diagnostics;
use crate::validate::validation_error;

verus! {

/// The syntactic kind of the item a reflection macro is applied to.
#[derive(Clone, Copy, Debug, PartialEq, Eq, Structural)]
pub enum ItemKindIr {
    Struct,
    Enum,
    Union,
    Trait,
    Impl,
    Other,
}

/// The message that rejects a macro invocation before its item is read.
pub open spec fn entry_message(kind: MacroKind, item: ItemKindIr, has_arguments: bool) -> Option<Seq<char>> {
    match kind {
        MacroKind::Derive => if has_arguments {
            Some("`Reflect` derive does not accept macro arguments"@)
        } else {
            None
        },
        MacroKind::Trait => if item == ItemKindIr::Trait {
            None
        } else {
            Some("`#[reflect]` can only be applied to a trait"@)
        },
        MacroKind::Impl => if item == ItemKindIr::Impl {
            None
        } else {
            Some("`#[reflect_impl]` can only be applied to an impl block"@)
        },
    }
}

/// Returns the message that rejects a macro invocation before its item is
/// read: a derive never takes arguments, the trait macro applies to traits
/// only and the impl macro to impl blocks only.
pub fn entry_error(kind: MacroKind, item: ItemKindIr, has_arguments: bool) -> (message: Option<String>)
    ensures
        match (message, entry_message(kind, item, has_arguments)) {
            (Some(message), Some(expected)) => message@ == expected,
            (None, None) => true,
            _ => false,
        },
{
    match kind {
        MacroKind::Derive => if has_arguments {
            Some(String::from_str("`Reflect` derive does not accept macro arguments"))
        } else {
            None
        },
        MacroKind::Trait => if item == ItemKindIr::Trait {
            None
        } else {
            Some(String::from_str("`#[reflect]` can only be applied to a trait"))
        },
        MacroKind::Impl => if item == ItemKindIr::Impl {
            None
        } else {
            Some(String::from_str("`#[reflect_impl]` can only be applied to an impl block"))
        },
    }
}

/// Every diagnostic of one invocation: those of parsing, then those of the
/// single validation pass.
pub open spec fn combined_diagnostics(parse: Seq<DiagnosticView>, parsed: ParsedDeclaration) -> Seq<
    DiagnosticView,
> {
    parse + validation_diagnostics(parsed.declaration)
}

/// Validates a parsed declaration once and reports its diagnostics together
/// with the recoverable diagnostics of parsing; the declaration is accepted
/// only when there are none.
pub fn parse_and_validate_declaration(parsed: ParsedDeclaration, parse_diagnostics: Vec<Diagnostic>) -> (result:
    Result<ValidatedDeclaration, Vec<Diagnostic>>)
    ensures
        match result {
            Ok(validated) => validated.declaration == parsed.declaration && combined_diagnostics(
                views(parse_diagnostics@),
                parsed,
            ).len() == 0,
            Err(diagnostics) => views(diagnostics@) == combined_diagnostics(views(parse_diagnostics@), parsed)
                && diagnostics@.len() > 0,
        },
{
    let mut diagnostics = parse_diagnostics;
    let validation = validation_error(&parsed.declaration);
    append_diagnostics(&mut diagnostics, validation);
    if diagnostics.len() == 0 {
        Ok(ValidatedDeclaration { declaration: parsed.declaration })
    } else {
        Err(diagnostics)
    }
}

} // verus!

//! The shared `reflect` helper grammar: which helper each key names, which
//! form of value each helper accepts, and the exact diagnostic for every
//! rejected form.
//!
//! The front end reads each `#[reflect(...)]` attribute into a
//! [`ReflectAttributeIr`] whose items are [`MetaIr`] values: the key, and the
//! value read under the argument grammar that [`list_grammar`] selects for
//! that key (Rust paths, named specialization arguments, or an external trait
//! mapping). Everything decided from there on is decided here.

use vstd::prelude::*;
use vstd::string::StringExecFns;

use crate::diagnostics::Diagnostic;
use crate::diagnostics::DiagnosticView;
use crate::diagnostics::diagnostic_view;
use crate::diagnostics::views;
use crate::helper::HelperName;
use crate::helper::HelperTarget;
use crate::helper::helper_named;
use crate::helper::helper_spelling;
use crate::ir::ExternalTraitIr;
use crate::ir::HelperAttributeIr;
use crate::ir::HelperValueIr;
use crate::ir::PathArgumentsIr;
use crate::ir::PathIr;
use crate::ir::SpecializationBindingIr;
use crate::ir::SpecializationIr;
use crate::ir::SpecializationValueIr;
use crate::ir::TypeIr;
use crate::ir::TypeKindIr;
use crate::text::join3;
use crate::text::str_eq;

verus! {

/// The value of a `key = value` helper item.
#[derive(Debug)]
pub enum MetaValueIr {
    /// A string literal, with its escapes resolved.
    Str(String),
    /// A Rust path expression.
    Path(PathIr),
    /// Any other expression.
    Other,
}

/// The arguments of a `key(...)` helper item, read under the grammar that
/// the key selects.
#[derive(Debug)]
pub enum ListArgumentsIr {
    /// A comma-separated list of Rust paths.
    Paths(Vec<PathIr>),
    /// Comma-separated `Name = value` specialization arguments.
    Bindings(Vec<SpecializationBindingIr>),
    /// `path, id = "..."`.
    ExternalTrait { path: PathIr, id: String, id_span: usize },
    /// The arguments do not follow the selected grammar.
    Invalid(Diagnostic),
    /// No argument grammar applies to the key.
    Unparsed,
}

/// The form of one helper item after its key.
#[derive(Debug)]
pub enum MetaBodyIr {
    /// A bare key.
    Path { path_span: usize },
    /// `key(...)`.
    List { list_span: usize, arguments: ListArgumentsIr },
    /// `key = value`.
    NameValue { value_span: usize, value: MetaValueIr },
}

/// One comma-separated helper item.
#[derive(Debug)]
pub struct MetaIr {
    /// The key when it is a single identifier.
    pub ident: Option<String>,
    /// The token rendering of the key path, for diagnostics.
    pub path_text: String,
    /// The span of the whole item.
    pub span: usize,
    pub body: MetaBodyIr,
}

/// The argument grammar of a `key(...)` item.
#[derive(Clone, Copy, Debug, PartialEq, Eq, Structural)]
pub enum ListGrammarIr {
    Paths,
    Bindings,
    ExternalTrait,
    Unparsed,
}

/// The argument grammar each helper key selects for its list form.
pub open spec fn grammar_of(name: HelperName) -> ListGrammarIr {
    match name {
        HelperName::Capabilities => ListGrammarIr::Paths,
        HelperName::Supertrait => ListGrammarIr::Paths,
        HelperName::DynCompatible => ListGrammarIr::Paths,
        HelperName::Specialize => ListGrammarIr::Bindings,
        HelperName::ExternalTrait => ListGrammarIr::ExternalTrait,
        _ => ListGrammarIr::Unparsed,
    }
}

/// Returns the argument grammar a helper key selects for its list form.
pub fn list_grammar(name: HelperName) -> (grammar: ListGrammarIr)
    ensures
        grammar == grammar_of(name),
{
    match name {
        HelperName::Capabilities => ListGrammarIr::Paths,
        HelperName::Supertrait => ListGrammarIr::Paths,
        HelperName::DynCompatible => ListGrammarIr::Paths,
        HelperName::Specialize => ListGrammarIr::Bindings,
        HelperName::ExternalTrait => ListGrammarIr::ExternalTrait,
        _ => ListGrammarIr::Unparsed,
    }
}

// ---------------------------------------------------------------------------
// Messages
// ---------------------------------------------------------------------------

pub open spec fn msg_unknown_helper(key: Seq<char>) -> Seq<char> {
    "unknown reflection helper `"@ + key + "`"@
}

pub open spec fn msg_flag_value(name: HelperName) -> Seq<char> {
    "`"@ + helper_spelling(name) + "` does not accept a value"@
}

pub open spec fn msg_requires_string(name: HelperName) -> Seq<char> {
    "`"@ + helper_spelling(name) + "` requires a string literal value"@
}

pub open spec fn msg_requires_path_list(name: HelperName) -> Seq<char> {
    "`"@ + helper_spelling(name) + "` requires a parenthesized path list"@
}

pub open spec fn msg_requires_one_path(name: HelperName) -> Seq<char> {
    "`"@ + helper_spelling(name) + "` requires at least one path"@
}

pub open spec fn msg_default_provider() -> Seq<char> {
    "`default` provider must be a Rust path"@
}

pub open spec fn msg_default_form() -> Seq<char> {
    "`default` accepts either no value or `= provider_path`"@
}

pub open spec fn msg_specialize_form() -> Seq<char> {
    "`specialize` requires named arguments"@
}

pub open spec fn msg_specialize_empty() -> Seq<char> {
    "`specialize` requires at least one named argument"@
}

pub open spec fn msg_external_trait_form() -> Seq<char> {
    "`external_trait` requires `(path, id = \"...\")`"@
}

pub open spec fn msg_runtime_crate() -> Seq<char> {
    "`crate` requires a Rust facade path"@
}

pub open spec fn msg_definition_provider() -> Seq<char> {
    "`definition_provider_v2` requires an identifier value"@
}

/// Whether a path is a single identifier without arguments.
pub open spec fn is_single_identifier(path: PathIr) -> bool {
    &&& !path.leading_colon
    &&& path.qualified_self is None
    &&& path.segments@.len() == 1
    &&& path.segments@[0].arguments is Empty
}

pub open spec fn msg_bare_reflect() -> Seq<char> {
    "bare `#[reflect]` is not a valid helper attribute"@
}

pub open spec fn msg_reflect_name_value() -> Seq<char> {
    "`reflect` helpers must use `#[reflect(...)]` syntax"@
}

// ---------------------------------------------------------------------------
// Items
// ---------------------------------------------------------------------------

/// The helper a key names, or the diagnostic message for an unknown key.
pub open spec fn key_result(meta: MetaIr) -> Result<HelperName, Seq<char>> {
    match meta.ident {
        None => Err(msg_unknown_helper(meta.path_text@)),
        Some(ident) => match helper_named(ident@) {
            Some(name) => Ok(name),
            None => Err(msg_unknown_helper(ident@)),
        },
    }
}

/// Whether a helper is a flag that takes no value.
pub open spec fn is_flag(name: HelperName) -> bool {
    match name {
        HelperName::Opaque => true,
        HelperName::Skip => true,
        HelperName::ReadOnly => true,
        HelperName::NoConstruct => true,
        HelperName::NoInvoke => true,
        HelperName::CatchUnwind => true,
        HelperName::ThreadSafe => true,
        _ => false,
    }
}

/// The span of an item's value: the value of `key = value`, the list of
/// `key(...)`, or the key of a bare flag.
pub open spec fn value_span_of(body: MetaBodyIr) -> usize {
    match body {
        MetaBodyIr::Path { path_span } => path_span,
        MetaBodyIr::List { list_span, .. } => list_span,
        MetaBodyIr::NameValue { value_span, .. } => value_span,
    }
}

/// The value a string-valued helper reads.
pub open spec fn string_value(name: HelperName, meta: MetaIr) -> Result<String, DiagnosticView> {
    match meta.body {
        MetaBodyIr::NameValue { value_span, value } => match value {
            MetaValueIr::Str(text) => Ok(text),
            _ => Err((value_span, msg_requires_string(name))),
        },
        _ => Err((meta.span, msg_requires_string(name))),
    }
}

/// The value a path-list helper reads.
pub open spec fn path_list_value(name: HelperName, meta: MetaIr) -> Result<Vec<PathIr>, DiagnosticView> {
    match meta.body {
        MetaBodyIr::List { list_span, arguments } => match arguments {
            ListArgumentsIr::Paths(paths) => if paths@.len() == 0 {
                Err((list_span, msg_requires_one_path(name)))
            } else {
                Ok(paths)
            },
            ListArgumentsIr::Invalid(diagnostic) => Err(diagnostic_view(diagnostic)),
            _ => Err((meta.span, msg_requires_path_list(name))),
        },
        _ => Err((meta.span, msg_requires_path_list(name))),
    }
}

/// The value one helper item carries, or the diagnostic that rejects it.
pub open spec fn helper_value(name: HelperName, meta: MetaIr) -> Result<HelperValueIr, DiagnosticView> {
    if is_flag(name) {
        match meta.body {
            MetaBodyIr::Path { .. } => Ok(HelperValueIr::Flag),
            _ => Err((meta.span, msg_flag_value(name))),
        }
    } else {
        match name {
            HelperName::Rename => match string_value(name, meta) {
                Ok(text) => Ok(HelperValueIr::Rename(text)),
                Err(error) => Err(error),
            },
            HelperName::ExternalTraitId => match string_value(name, meta) {
                Ok(text) => Ok(HelperValueIr::ExternalTraitId(text)),
                Err(error) => Err(error),
            },
            HelperName::Capabilities => match path_list_value(name, meta) {
                Ok(paths) => Ok(HelperValueIr::Paths(paths)),
                Err(error) => Err(error),
            },
            HelperName::Supertrait => match path_list_value(name, meta) {
                Ok(paths) => Ok(HelperValueIr::Paths(paths)),
                Err(error) => Err(error),
            },
            HelperName::DynCompatible => match meta.body {
                MetaBodyIr::Path { .. } => Ok(HelperValueIr::Flag),
                _ => match path_list_value(name, meta) {
                    Ok(paths) => Ok(HelperValueIr::DynCompatible(paths)),
                    Err(error) => Err(error),
                },
            },
            HelperName::Default => match meta.body {
                MetaBodyIr::Path { .. } => Ok(HelperValueIr::DefaultPath(None)),
                MetaBodyIr::NameValue { value_span, value } => match value {
                    MetaValueIr::Path(path) => Ok(HelperValueIr::DefaultPath(Some(path))),
                    _ => Err((value_span, msg_default_provider())),
                },
                MetaBodyIr::List { .. } => Err((meta.span, msg_default_form())),
            },
            HelperName::Specialize => match meta.body {
                MetaBodyIr::List { list_span, arguments } => match arguments {
                    ListArgumentsIr::Bindings(bindings) => if bindings@.len() == 0 {
                        Err((list_span, msg_specialize_empty()))
                    } else {
                        Ok(HelperValueIr::Specialization(SpecializationIr { bindings, span: list_span }))
                    },
                    ListArgumentsIr::Invalid(diagnostic) => Err(diagnostic_view(diagnostic)),
                    _ => Err((meta.span, msg_specialize_form())),
                },
                _ => Err((meta.span, msg_specialize_form())),
            },
            HelperName::ExternalTrait => match meta.body {
                MetaBodyIr::List { list_span, arguments } => match arguments {
                    ListArgumentsIr::ExternalTrait { path, id, id_span } => Ok(
                        HelperValueIr::ExternalTrait(ExternalTraitIr { path, id, id_span, span: list_span }),
                    ),
                    ListArgumentsIr::Invalid(diagnostic) => Err(diagnostic_view(diagnostic)),
                    _ => Err((meta.span, msg_external_trait_form())),
                },
                _ => Err((meta.span, msg_external_trait_form())),
            },
            HelperName::DefinitionProviderV2 => match meta.body {
                MetaBodyIr::NameValue { value_span, value } => match value {
                    MetaValueIr::Path(path) => if is_single_identifier(path) {
                        Ok(HelperValueIr::DefinitionProvider(path.segments@[0].name))
                    } else {
                        Err((value_span, msg_definition_provider()))
                    },
                    _ => Err((value_span, msg_definition_provider())),
                },
                _ => Err((meta.span, msg_definition_provider())),
            },
            _ => match meta.body {
                MetaBodyIr::NameValue { value_span, value } => match value {
                    MetaValueIr::Path(path) => Ok(HelperValueIr::RuntimeCrate(path)),
                    _ => Err((value_span, msg_runtime_crate())),
                },
                _ => Err((meta.span, msg_runtime_crate())),
            },
        }
    }
}

/// The helper attribute one item produces on `target`, or the diagnostic
/// that rejects it.
pub open spec fn meta_result(meta: MetaIr, target: HelperTarget) -> Result<HelperAttributeIr, DiagnosticView> {
    match key_result(meta) {
        Err(message) => Err((meta.span, message)),
        Ok(name) => match helper_value(name, meta) {
            Ok(value) => Ok(
                HelperAttributeIr {
                    name,
                    value,
                    target,
                    span: meta.span,
                    value_span: value_span_of(meta.body),
                },
            ),
            Err(error) => Err(error),
        },
    }
}

fn unknown_helper(key: &str) -> (message: String)
    ensures
        message@ == msg_unknown_helper(key@),
{
    join3("unknown reflection helper `", key, "`")
}

fn helper_message(name: HelperName, tail: &str) -> (message: String)
    ensures
        message@ == "`"@ + helper_spelling(name) + tail@,
{
    join3("`", name.as_str(), tail)
}

fn error(span: usize, message: String) -> (diagnostic: Diagnostic)
    ensures
        diagnostic_view(diagnostic) == (span, message@),
{
    Diagnostic { span, message }
}

/// Resolves the helper key of one item.
pub fn helper_key(meta: &MetaIr) -> (result: Result<HelperName, String>)
    ensures
        match (result, key_result(*meta)) {
            (Ok(name), Ok(expected)) => name == expected,
            (Err(message), Err(expected)) => message@ == expected,
            _ => false,
        },
{
    match &meta.ident {
        None => Err(unknown_helper(meta.path_text.as_str())),
        Some(ident) => match HelperName::from_str(ident.as_str()) {
            Some(name) => Ok(name),
            None => Err(unknown_helper(ident.as_str())),
        },
    }
}

fn flag_helper(name: HelperName) -> (flag: bool)
    ensures
        flag == is_flag(name),
{
    match name {
        HelperName::Opaque => true,
        HelperName::Skip => true,
        HelperName::ReadOnly => true,
        HelperName::NoConstruct => true,
        HelperName::NoInvoke => true,
        HelperName::CatchUnwind => true,
        HelperName::ThreadSafe => true,
        _ => false,
    }
}

fn read_string(name: HelperName, meta: MetaIr) -> (result: Result<String, Diagnostic>)
    ensures
        match (result, string_value(name, meta)) {
            (Ok(text), Ok(expected)) => text == expected,
            (Err(diagnostic), Err(expected)) => diagnostic_view(diagnostic) == expected,
            _ => false,
        },
{
    let span = meta.span;
    match meta.body {
        MetaBodyIr::NameValue { value_span, value } => match value {
            MetaValueIr::Str(text) => Ok(text),
            _ => Err(error(value_span, helper_message(name, "` requires a string literal value"))),
        },
        _ => Err(error(span, helper_message(name, "` requires a string literal value"))),
    }
}

fn read_path_list(name: HelperName, meta: MetaIr) -> (result: Result<Vec<PathIr>, Diagnostic>)
    ensures
        match (result, path_list_value(name, meta)) {
            (Ok(paths), Ok(expected)) => paths == expected,
            (Err(diagnostic), Err(expected)) => diagnostic_view(diagnostic) == expected,
            _ => false,
        },
{
    let span = meta.span;
    match meta.body {
        MetaBodyIr::List { list_span, arguments } => match arguments {
            ListArgumentsIr::Paths(paths) => if paths.len() == 0 {
                Err(error(list_span, helper_message(name, "` requires at least one path")))
            } else {
                Ok(paths)
            },
            ListArgumentsIr::Invalid(diagnostic) => Err(diagnostic),
            _ => Err(error(span, helper_message(name, "` requires a parenthesized path list"))),
        },
        _ => Err(error(span, helper_message(name, "` requires a parenthesized path list"))),
    }
}

fn read_value(name: HelperName, meta: MetaIr) -> (result: Result<HelperValueIr, Diagnostic>)
    ensures
        match (result, helper_value(name, meta)) {
            (Ok(value), Ok(expected)) => value == expected,
            (Err(diagnostic), Err(expected)) => diagnostic_view(diagnostic) == expected,
            _ => false,
        },
{
    let span = meta.span;
    if flag_helper(name) {
        return match meta.body {
            MetaBodyIr::Path { .. } => Ok(HelperValueIr::Flag),
            _ => Err(error(span, helper_message(name, "` does not accept a value"))),
        };
    }
    match name {
        HelperName::Rename => match read_string(name, meta) {
            Ok(text) => Ok(HelperValueIr::Rename(text)),
            Err(diagnostic) => Err(diagnostic),
        },
        HelperName::ExternalTraitId => match read_string(name, meta) {
            Ok(text) => Ok(HelperValueIr::ExternalTraitId(text)),
            Err(diagnostic) => Err(diagnostic),
        },
        HelperName::Capabilities | HelperName::Supertrait => match read_path_list(name, meta) {
            Ok(paths) => Ok(HelperValueIr::Paths(paths)),
            Err(diagnostic) => Err(diagnostic),
        },
        HelperName::DynCompatible => match meta.body {
            MetaBodyIr::Path { .. } => Ok(HelperValueIr::Flag),
            _ => match read_path_list(name, meta) {
                Ok(paths) => Ok(HelperValueIr::DynCompatible(paths)),
                Err(diagnostic) => Err(diagnostic),
            },
        },
        HelperName::Default => match meta.body {
            MetaBodyIr::Path { .. } => Ok(HelperValueIr::DefaultPath(None)),
            MetaBodyIr::NameValue { value_span, value } => match value {
                MetaValueIr::Path(path) => Ok(HelperValueIr::DefaultPath(Some(path))),
                _ => Err(error(value_span, String::from_str("`default` provider must be a Rust path"))),
            },
            MetaBodyIr::List { .. } => Err(
                error(span, String::from_str("`default` accepts either no value or `= provider_path`")),
            ),
        },
        HelperName::Specialize => match meta.body {
            MetaBodyIr::List { list_span, arguments } => match arguments {
                ListArgumentsIr::Bindings(bindings) => if bindings.len() == 0 {
                    Err(error(list_span, String::from_str("`specialize` requires at least one named argument")))
                } else {
                    Ok(HelperValueIr::Specialization(SpecializationIr { bindings, span: list_span }))
                },
                ListArgumentsIr::Invalid(diagnostic) => Err(diagnostic),
                _ => Err(error(span, String::from_str("`specialize` requires named arguments"))),
            },
            _ => Err(error(span, String::from_str("`specialize` requires named arguments"))),
        },
        HelperName::ExternalTrait => match meta.body {
            MetaBodyIr::List { list_span, arguments } => match arguments {
                ListArgumentsIr::ExternalTrait { path, id, id_span } => Ok(
                    HelperValueIr::ExternalTrait(ExternalTraitIr { path, id, id_span, span: list_span }),
                ),
                ListArgumentsIr::Invalid(diagnostic) => Err(diagnostic),
                _ => Err(error(span, String::from_str("`external_trait` requires `(path, id = \"...\")`"))),
            },
            _ => Err(error(span, String::from_str("`external_trait` requires `(path, id = \"...\")`"))),
        },
        HelperName::DefinitionProviderV2 => match meta.body {
            MetaBodyIr::NameValue { value_span, value } => match value {
                MetaValueIr::Path(path) => {
                    if !path.leading_colon && path.qualified_self.is_none() && path.segments.len() == 1 && match &path.segments[0].arguments {
                        PathArgumentsIr::Empty => true,
                        _ => false,
                    } {
                        let PathIr { mut segments, .. } = path;
                        let segment = segments.remove(0);
                        Ok(HelperValueIr::DefinitionProvider(segment.name))
                    } else {
                        Err(error(value_span, String::from_str("`definition_provider_v2` requires an identifier value")))
                    }
                },
                _ => Err(error(value_span, String::from_str("`definition_provider_v2` requires an identifier value"))),
            },
            _ => Err(error(span, String::from_str("`definition_provider_v2` requires an identifier value"))),
        },
        _ => match meta.body {
            MetaBodyIr::NameValue { value_span, value } => match value {
                MetaValueIr::Path(path) => Ok(HelperValueIr::RuntimeCrate(path)),
                _ => Err(error(value_span, String::from_str("`crate` requires a Rust facade path"))),
            },
            _ => Err(error(span, String::from_str("`crate` requires a Rust facade path"))),
        },
    }
}

/// Converts one helper item into the helper attribute it places on
/// `target`, or the diagnostic that rejects it.
pub fn convert_meta(meta: MetaIr, target: HelperTarget) -> (result: Result<HelperAttributeIr, Diagnostic>)
    ensures
        match (result, meta_result(meta, target)) {
            (Ok(attribute), Ok(expected)) => attribute == expected,
            (Err(diagnostic), Err(expected)) => diagnostic_view(diagnostic) == expected,
            _ => false,
        },
{
    let span = meta.span;
    let name = match helper_key(&meta) {
        Ok(name) => name,
        Err(message) => {
            return Err(error(span, message));
        },
    };
    let value_span = match &meta.body {
        MetaBodyIr::Path { path_span } => *path_span,
        MetaBodyIr::List { list_span, .. } => *list_span,
        MetaBodyIr::NameValue { value_span, .. } => *value_span,
    };
    match read_value(name, meta) {
        Ok(value) => Ok(HelperAttributeIr { name, value, target, span, value_span }),
        Err(diagnostic) => Err(diagnostic),
    }
}

// ---------------------------------------------------------------------------
// Item lists and attributes
// ---------------------------------------------------------------------------

/// The helpers and the diagnostics that a list of items produces, each in
/// source order.
pub open spec fn metas_outcome(metas: Seq<MetaIr>, target: HelperTarget) -> (Seq<HelperAttributeIr>, Seq<
    DiagnosticView,
>)
    decreases metas.len(),
{
    if metas.len() == 0 {
        (Seq::empty(), Seq::empty())
    } else {
        let (helpers, diagnostics) = metas_outcome(metas.drop_last(), target);
        match meta_result(metas.last(), target) {
            Ok(attribute) => (helpers.push(attribute), diagnostics),
            Err(diagnostic) => (helpers, diagnostics.push(diagnostic)),
        }
    }
}

/// Converts the comma-separated items of a macro or helper attribute.
pub fn parse_helper_metas(metas: Vec<MetaIr>, target: HelperTarget) -> (result: (
    Vec<HelperAttributeIr>,
    Vec<Diagnostic>,
))
    ensures
        result.0@ == metas_outcome(metas@, target).0,
        views(result.1@) == metas_outcome(metas@, target).1,
{
    let ghost initial = metas@;
    assert(initial.len() == metas.len());
    let mut rest = metas;
    let mut helpers: Vec<HelperAttributeIr> = Vec::new();
    let mut diagnostics: Vec<Diagnostic> = Vec::new();
    let mut index: usize = 0;
    while rest.len() > 0
        invariant
            index <= initial.len(),
            initial.len() <= usize::MAX,
            rest@ == initial.skip(index as int),
            helpers@ == metas_outcome(initial.take(index as int), target).0,
            views(diagnostics@) == metas_outcome(initial.take(index as int), target).1,
        decreases rest.len(),
    {
        let ghost before = rest@;
        let meta = rest.remove(0);
        assert(initial.take(index + 1).drop_last() == initial.take(index as int));
        assert(initial.take(index + 1).last() == meta);
        assert(rest@ == initial.skip(index + 1));
        match convert_meta(meta, target) {
            Ok(attribute) => helpers.push(attribute),
            Err(diagnostic) => {
                let ghost prior = views(diagnostics@);
                diagnostics.push(diagnostic);
                assert(views(diagnostics@) =~= prior.push(diagnostic_view(diagnostic)));
            },
        }
        index += 1;
    }
    assert(initial.take(index as int) == initial);
    (helpers, diagnostics)
}

/// The form of one source attribute.
#[derive(Debug)]
pub enum ReflectFormIr {
    /// `#[path]`.
    Bare,
    /// `#[path(...)]`: the items, or the diagnostic that rejects the list.
    List(Result<Vec<MetaIr>, Diagnostic>),
    /// `#[path = value]`.
    NameValue,
}

/// One source attribute of a declaration element.
#[derive(Debug)]
pub struct ReflectAttributeIr {
    /// Whether the attribute path is the single identifier `reflect`.
    pub is_reflect: bool,
    pub span: usize,
    pub form: ReflectFormIr,
}

/// The helpers and the diagnostics that an element's attributes produce:
/// only `#[reflect(...)]` attributes are read, and the bare and name-value
/// forms are rejected.
pub open spec fn attributes_outcome(attributes: Seq<ReflectAttributeIr>, target: HelperTarget) -> (Seq<
    HelperAttributeIr,
>, Seq<DiagnosticView>)
    decreases attributes.len(),
{
    if attributes.len() == 0 {
        (Seq::empty(), Seq::empty())
    } else {
        let (helpers, diagnostics) = attributes_outcome(attributes.drop_last(), target);
        let attribute = attributes.last();
        if !attribute.is_reflect {
            (helpers, diagnostics)
        } else {
            match attribute.form {
                ReflectFormIr::Bare => (helpers, diagnostics.push((attribute.span, msg_bare_reflect()))),
                ReflectFormIr::NameValue => (helpers, diagnostics.push((attribute.span, msg_reflect_name_value()))),
                ReflectFormIr::List(Ok(metas)) => (
                    helpers + metas_outcome(metas@, target).0,
                    diagnostics + metas_outcome(metas@, target).1,
                ),
                ReflectFormIr::List(Err(diagnostic)) => (helpers, diagnostics.push(diagnostic_view(diagnostic))),
            }
        }
    }
}

/// Parses the helper attributes of one declaration element.
pub fn parse_attributes(attributes: Vec<ReflectAttributeIr>, target: HelperTarget) -> (result: (
    Vec<HelperAttributeIr>,
    Vec<Diagnostic>,
))
    ensures
        result.0@ == attributes_outcome(attributes@, target).0,
        views(result.1@) == attributes_outcome(attributes@, target).1,
{
    let ghost initial = attributes@;
    assert(initial.len() == attributes.len());
    let mut rest = attributes;
    let mut helpers: Vec<HelperAttributeIr> = Vec::new();
    let mut diagnostics: Vec<Diagnostic> = Vec::new();
    let mut index: usize = 0;
    while rest.len() > 0
        invariant
            index <= initial.len(),
            initial.len() <= usize::MAX,
            rest@ == initial.skip(index as int),
            helpers@ == attributes_outcome(initial.take(index as int), target).0,
            views(diagnostics@) == attributes_outcome(initial.take(index as int), target).1,
        decreases rest.len(),
    {
        let attribute = rest.remove(0);
        assert(initial.take(index + 1).drop_last() == initial.take(index as int));
        assert(initial.take(index + 1).last() == attribute);
        assert(rest@ == initial.skip(index + 1));
        let ghost prior_helpers = helpers@;
        let ghost prior = views(diagnostics@);
        if attribute.is_reflect {
            let span = attribute.span;
            match attribute.form {
                ReflectFormIr::Bare => {
                    diagnostics.push(
                        error(span, String::from_str("bare `#[reflect]` is not a valid helper attribute")),
                    );
                    assert(views(diagnostics@) =~= prior.push((span, msg_bare_reflect())));
                },
                ReflectFormIr::NameValue => {
                    diagnostics.push(
                        error(span, String::from_str("`reflect` helpers must use `#[reflect(...)]` syntax")),
                    );
                    assert(views(diagnostics@) =~= prior.push((span, msg_reflect_name_value())));
                },
                ReflectFormIr::List(Ok(metas)) => {
                    let ghost items = metas@;
                    let (mut more_helpers, more_diagnostics) = parse_helper_metas(metas, target);
                    helpers.append(&mut more_helpers);
                    crate::diagnostics::append_diagnostics(&mut diagnostics, more_diagnostics);
                    assert(helpers@ =~= prior_helpers + metas_outcome(items, target).0);
                },
                ReflectFormIr::List(Err(diagnostic)) => {
                    let ghost view = diagnostic_view(diagnostic);
                    diagnostics.push(diagnostic);
                    assert(views(diagnostics@) =~= prior.push(view));
                },
            }
        }
        index += 1;
    }
    assert(initial.take(index as int) == initial);
    (helpers, diagnostics)
}

/// How a specialization argument written as a type is read: a plain path
/// such as `N` or `std::string::String` may name a type or a constant, and
/// any other type is a type.
pub open spec fn specialization_type_value(ty: TypeIr) -> SpecializationValueIr {
    match ty.kind {
        TypeKindIr::Path(path) => if path.qualified_self is None && forall|i: int|
            0 <= i < path.segments@.len() ==> (#[trigger] path.segments@[i]).arguments is Empty {
            SpecializationValueIr::AmbiguousPath(ty.tokens)
        } else {
            SpecializationValueIr::Type(ty)
        },
        _ => SpecializationValueIr::Type(ty),
    }
}

/// Classifies a specialization argument that parses as a type.
pub fn specialization_value(ty: TypeIr) -> (value: SpecializationValueIr)
    ensures
        value == specialization_type_value(ty),
{
    let plain = match &ty.kind {
        TypeKindIr::Path(path) => {
            let mut plain = path.qualified_self.is_none();
            let mut index: usize = 0;
            while index < path.segments.len()
                invariant
                    index <= path.segments@.len(),
                    plain == (path.qualified_self is None && forall|i: int|
                        0 <= i < index ==> (#[trigger] path.segments@[i]).arguments is Empty),
                decreases path.segments.len() - index,
            {
                let empty = match &path.segments[index].arguments {
                    PathArgumentsIr::Empty => true,
                    _ => false,
                };
                plain = plain && empty;
                index += 1;
            }
            plain
        },
        _ => false,
    };
    if plain {
        let TypeIr { tokens, .. } = ty;
        SpecializationValueIr::AmbiguousPath(tokens)
    } else {
        SpecializationValueIr::Type(ty)
    }
}

} // verus!

//! Source-oriented diagnostics and their exact message texts.

use vstd::prelude::*;
use vstd::string::StringExecFns;

use crate::helper::helper_spelling;
use crate::helper::target_label;
use crate::helper::HelperName;
use crate::helper::HelperTarget;
use crate::ir::GenericKindIr;
use crate::text::join3;
use crate::text::join4;
use crate::text::join5;
use crate::text::join7;

verus! {

/// One diagnostic: the span handle it points at and its message.
#[derive(Debug)]
pub struct Diagnostic {
    pub span: usize,
    pub message: String,
}

/// The mathematical value of a diagnostic.
pub type DiagnosticView = (usize, Seq<char>);

/// The value of one diagnostic.
pub open spec fn diagnostic_view(diagnostic: Diagnostic) -> DiagnosticView {
    (diagnostic.span, diagnostic.message@)
}

/// The values of a diagnostic list.
pub open spec fn views(diagnostics: Seq<Diagnostic>) -> Seq<DiagnosticView> {
    diagnostics.map_values(|diagnostic: Diagnostic| diagnostic_view(diagnostic))
}

/// Appends one diagnostic.
pub fn push_diagnostic(diagnostics: &mut Vec<Diagnostic>, span: usize, message: String)
    ensures
        views(final(diagnostics)@) == views(old(diagnostics)@).push((span, message@)),
{
    let ghost message_view = message@;
    diagnostics.push(Diagnostic { span, message });
    assert(views(diagnostics@) =~= views(old(diagnostics)@).push((span, message_view)));
}

/// Appends all diagnostics of `more`.
pub fn append_diagnostics(diagnostics: &mut Vec<Diagnostic>, more: Vec<Diagnostic>)
    ensures
        views(final(diagnostics)@) == views(old(diagnostics)@) + views(more@),
{
    let mut more = more;
    let ghost initial = views(diagnostics@);
    let ghost added = views(more@);
    diagnostics.append(&mut more);
    assert(views(diagnostics@) =~= initial + added);
}

/// The empty diagnostic list value.
pub open spec fn no_diagnostics() -> Seq<DiagnosticView> {
    Seq::empty()
}

/// One diagnostic as a list value.
pub open spec fn one(span: usize, message: Seq<char>) -> Seq<DiagnosticView> {
    seq![(span, message)]
}

/// The diagnostic list value when `condition` holds, otherwise nothing.
pub open spec fn report_if(condition: bool, span: usize, message: Seq<char>) -> Seq<DiagnosticView> {
    if condition {
        one(span, message)
    } else {
        no_diagnostics()
    }
}

pub open spec fn msg_not_valid_on(name: HelperName, target: HelperTarget) -> Seq<char> {
    "`"@ + helper_spelling(name) + "` is not valid on a "@ + target_label(target)
}

pub fn not_valid_on(name: HelperName, target: HelperTarget) -> (message: String)
    ensures
        message@ == msg_not_valid_on(name, target),
{
    join4("`", name.as_str(), "` is not valid on a ", target.as_str())
}

pub open spec fn msg_duplicate_helper(name: HelperName) -> Seq<char> {
    "duplicate `"@ + helper_spelling(name) + "` reflection helper"@
}

pub fn duplicate_helper(name: HelperName) -> (message: String)
    ensures
        message@ == msg_duplicate_helper(name),
{
    join3("duplicate `", name.as_str(), "` reflection helper")
}

pub open spec fn msg_duplicate_capability(source: Seq<char>) -> Seq<char> {
    "duplicate capability `"@ + source + "`"@
}

pub fn duplicate_capability(source: &str) -> (message: String)
    ensures
        message@ == msg_duplicate_capability(source@),
{
    join3("duplicate capability `", source, "`")
}

pub open spec fn msg_conflict(left: HelperName, right: HelperName) -> Seq<char> {
    "`"@ + helper_spelling(left) + "` cannot be combined with `"@ + helper_spelling(right) + "`"@
}

pub fn conflict(left: HelperName, right: HelperName) -> (message: String)
    ensures
        message@ == msg_conflict(left, right),
{
    join5("`", left.as_str(), "` cannot be combined with `", right.as_str(), "`")
}

pub open spec fn msg_empty_rename(rust_name: Seq<char>) -> Seq<char> {
    "reflection rename cannot be empty for Rust member `"@ + rust_name + "`"@
}

pub fn empty_rename(rust_name: &str) -> (message: String)
    ensures
        message@ == msg_empty_rename(rust_name@),
{
    join3("reflection rename cannot be empty for Rust member `", rust_name, "`")
}

pub open spec fn msg_unnamed_rename() -> Seq<char> {
    "`rename` is not supported on an unnamed field"@
}

pub fn unnamed_rename() -> (message: String)
    ensures
        message@ == msg_unnamed_rename(),
{
    String::from_str("`rename` is not supported on an unnamed field")
}

pub open spec fn msg_query_conflict(
    member_kind: Seq<char>,
    query_name: Seq<char>,
    rust_name: Seq<char>,
    existing: Seq<char>,
) -> Seq<char> {
    member_kind + " query name `"@ + query_name + "` for Rust member `"@ + rust_name
        + "` conflicts with Rust member `"@ + existing + "`"@
}

pub fn query_conflict(member_kind: &str, query_name: &str, rust_name: &str, existing: &str) -> (message: String)
    ensures
        message@ == msg_query_conflict(member_kind@, query_name@, rust_name@, existing@),
{
    let head = join4(member_kind, " query name `", query_name, "` for Rust member `");
    join5(head.as_str(), rust_name, "` conflicts with Rust member `", existing, "`")
}

pub open spec fn msg_provider_requires_generic() -> Seq<char> {
    "definition_provider_v2 requires a generic type"@
}

pub fn provider_requires_generic() -> (message: String)
    ensures
        message@ == msg_provider_requires_generic(),
{
    String::from_str("definition_provider_v2 requires a generic type")
}

pub open spec fn msg_union() -> Seq<char> {
    "Reflect cannot be derived for unions"@
}

pub fn union_rejected() -> (message: String)
    ensures
        message@ == msg_union(),
{
    String::from_str("Reflect cannot be derived for unions")
}

pub open spec fn msg_dyn_short_path() -> Seq<char> {
    "`dyn_compatible` inherited associated types must use `Supertrait::Item` paths"@
}

pub fn dyn_short_path() -> (message: String)
    ensures
        message@ == msg_dyn_short_path(),
{
    String::from_str("`dyn_compatible` inherited associated types must use `Supertrait::Item` paths")
}

pub open spec fn msg_dyn_not_direct() -> Seq<char> {
    "`dyn_compatible` associated-type prefixes must name a direct supertrait"@
}

pub fn dyn_not_direct() -> (message: String)
    ensures
        message@ == msg_dyn_not_direct(),
{
    String::from_str("`dyn_compatible` associated-type prefixes must name a direct supertrait")
}

pub open spec fn msg_dyn_duplicate(item: Seq<char>) -> Seq<char> {
    "duplicate inherited dyn associated type `"@ + item + "`"@
}

pub fn dyn_duplicate(item: &str) -> (message: String)
    ensures
        message@ == msg_dyn_duplicate(item@),
{
    join3("duplicate inherited dyn associated type `", item, "`")
}

pub open spec fn msg_external_id_on_inherent() -> Seq<char> {
    "`external_trait_id` is only valid on a trait impl"@
}

pub fn external_id_on_inherent() -> (message: String)
    ensures
        message@ == msg_external_id_on_inherent(),
{
    String::from_str("`external_trait_id` is only valid on a trait impl")
}

pub open spec fn msg_catch_unwind_async() -> Seq<char> {
    "`catch_unwind` cannot be used on an async method; panics raised while polling follow ordinary Future semantics"@
}

pub fn catch_unwind_async() -> (message: String)
    ensures
        message@ == msg_catch_unwind_async(),
{
    String::from_str(
        "`catch_unwind` cannot be used on an async method; panics raised while polling follow ordinary Future semantics",
    )
}

pub open spec fn msg_mapping_unmatched(source: Seq<char>) -> Seq<char> {
    "external trait mapping `"@ + source + "` does not match a direct supertrait"@
}

pub fn mapping_unmatched(source: &str) -> (message: String)
    ensures
        message@ == msg_mapping_unmatched(source@),
{
    join3("external trait mapping `", source, "` does not match a direct supertrait")
}

pub open spec fn msg_path_mapped_twice(source: Seq<char>) -> Seq<char> {
    "external trait path `"@ + source + "` is mapped more than once"@
}

pub fn path_mapped_twice(source: &str) -> (message: String)
    ensures
        message@ == msg_path_mapped_twice(source@),
{
    join3("external trait path `", source, "` is mapped more than once")
}

pub open spec fn msg_id_mapped_twice(id: Seq<char>) -> Seq<char> {
    "external trait ID `"@ + id + "` is mapped more than once"@
}

pub fn id_mapped_twice(id: &str) -> (message: String)
    ensures
        message@ == msg_id_mapped_twice(id@),
{
    join3("external trait ID `", id, "` is mapped more than once")
}

pub open spec fn msg_reflected_unmatched(source: Seq<char>) -> Seq<char> {
    "reflected supertrait `"@ + source + "` does not match a direct supertrait"@
}

pub fn reflected_unmatched(source: &str) -> (message: String)
    ensures
        message@ == msg_reflected_unmatched(source@),
{
    join3("reflected supertrait `", source, "` does not match a direct supertrait")
}

pub open spec fn msg_reflected_twice(source: Seq<char>) -> Seq<char> {
    "reflected supertrait `"@ + source + "` is listed more than once"@
}

pub fn reflected_twice(source: &str) -> (message: String)
    ensures
        message@ == msg_reflected_twice(source@),
{
    join3("reflected supertrait `", source, "` is listed more than once")
}

pub open spec fn msg_unclassified_supertrait(path: Seq<char>) -> Seq<char> {
    "direct supertrait `"@ + path + "` needs #[reflect(supertrait("@ + path
        + "))] or #[reflect(external_trait("@ + path + ", id = \"...\"))]"@
}

pub fn unclassified_supertrait(path: &str) -> (message: String)
    ensures
        message@ == msg_unclassified_supertrait(path@),
{
    join7(
        "direct supertrait `",
        path,
        "` needs #[reflect(supertrait(",
        path,
        "))] or #[reflect(external_trait(",
        path,
        ", id = \"...\"))]",
    )
}

pub open spec fn msg_not_stable_id(value: Seq<char>) -> Seq<char> {
    "`"@ + value + "` is not a dot-separated stable identifier"@
}

pub fn not_stable_id(value: &str) -> (message: String)
    ensures
        message@ == msg_not_stable_id(value@),
{
    join3("`", value, "` is not a dot-separated stable identifier")
}

pub open spec fn msg_reserved_namespace() -> Seq<char> {
    "external IDs cannot use the reserved `qubit.reflect` namespace"@
}

pub fn reserved_namespace() -> (message: String)
    ensures
        message@ == msg_reserved_namespace(),
{
    String::from_str("external IDs cannot use the reserved `qubit.reflect` namespace")
}

pub open spec fn msg_duplicate_specialization(name: Seq<char>) -> Seq<char> {
    "duplicate specialization argument `"@ + name + "`"@
}

pub fn duplicate_specialization(name: &str) -> (message: String)
    ensures
        message@ == msg_duplicate_specialization(name@),
{
    join3("duplicate specialization argument `", name, "`")
}

pub open spec fn msg_unknown_specialization(name: Seq<char>) -> Seq<char> {
    "unknown specialization parameter `"@ + name + "`"@
}

pub fn unknown_specialization(name: &str) -> (message: String)
    ensures
        message@ == msg_unknown_specialization(name@),
{
    join3("unknown specialization parameter `", name, "`")
}

/// The `Debug` spelling of a generic parameter kind.
pub open spec fn kind_label(kind: GenericKindIr) -> Seq<char> {
    match kind {
        GenericKindIr::Lifetime => "Lifetime"@,
        GenericKindIr::Type => "Type"@,
        GenericKindIr::Const => "Const"@,
    }
}

fn kind_str(kind: GenericKindIr) -> (label: &'static str)
    ensures
        label@ == kind_label(kind),
{
    match kind {
        GenericKindIr::Lifetime => "Lifetime",
        GenericKindIr::Type => "Type",
        GenericKindIr::Const => "Const",
    }
}

pub open spec fn msg_kind_mismatch(name: Seq<char>, kind: GenericKindIr) -> Seq<char> {
    "specialization value for `"@ + name + "` does not match its "@ + kind_label(kind)
        + " parameter kind"@
}

pub fn kind_mismatch(name: &str, kind: GenericKindIr) -> (message: String)
    ensures
        message@ == msg_kind_mismatch(name@, kind),
{
    join5("specialization value for `", name, "` does not match its ", kind_str(kind), " parameter kind")
}

pub open spec fn msg_missing_specialization(name: Seq<char>) -> Seq<char> {
    "missing specialization argument `"@ + name + "`"@
}

pub fn missing_specialization(name: &str) -> (message: String)
    ensures
        message@ == msg_missing_specialization(name@),
{
    join3("missing specialization argument `", name, "`")
}

} // verus!

//! Semantic validation of parsed reflection declarations.
//!
//! Every check reports a diagnostic at the offending span; all diagnostics of
//! one declaration are collected in source order.

use vstd::prelude::*;
use vstd::string::StrSliceExecFns;
use vstd::string::StringExecFns;

use crate::helper::helper_allowed;
use crate::helper::HelperName;
use crate::helper::HelperTarget;
use crate::ir::HelperAttributeIr;
use crate::ir::HelperValueIr;
use crate::ir::PathIr;
use crate::ir::FieldIr;
use crate::ir::VariantIr;
use crate::ir::MethodIr;
use crate::ir::TypeDeclarationIr;
use crate::ir::TypeDeclarationKindIr;
use crate::text::decimal;
use crate::text::chars_of;
use crate::text::starts_with;
use crate::text::str_eq;
use crate::text::is_identifier_start;
use crate::text::is_identifier_continue;
use crate::ir::GenericParamIr;
use crate::ir::GenericBoundIr;
use crate::ir::ExternalTraitIr;
use crate::ir::TraitDeclarationIr;
use crate::ir::ImplDeclarationIr;
use crate::ir::DeclarationIr;
use crate::ir::ParsedDeclaration;
use crate::ir::ValidatedDeclaration;
use crate::ir::GenericKindIr;
use crate::ir::SpecializationIr;
use crate::ir::SpecializationBindingIr;
use crate::ir::SpecializationValueIr;
use crate::ir::AssociatedTypeIr;
use crate::ir::AssociatedConstIr;
use crate::text::decimal_string;
use crate::diagnostics::Diagnostic;
use crate::diagnostics::DiagnosticView;
use crate::diagnostics::append_diagnostics;
use crate::diagnostics::catch_unwind_async;
use crate::diagnostics::conflict;
use crate::diagnostics::duplicate_capability;
use crate::diagnostics::duplicate_helper;
use crate::diagnostics::duplicate_specialization;
use crate::diagnostics::dyn_duplicate;
use crate::diagnostics::dyn_not_direct;
use crate::diagnostics::dyn_short_path;
use crate::diagnostics::empty_rename;
use crate::diagnostics::external_id_on_inherent;
use crate::diagnostics::id_mapped_twice;
use crate::diagnostics::kind_mismatch;
use crate::diagnostics::mapping_unmatched;
use crate::diagnostics::missing_specialization;
use crate::diagnostics::msg_catch_unwind_async;
use crate::diagnostics::msg_conflict;
use crate::diagnostics::msg_duplicate_capability;
use crate::diagnostics::msg_duplicate_helper;
use crate::diagnostics::msg_duplicate_specialization;
use crate::diagnostics::msg_dyn_duplicate;
use crate::diagnostics::msg_dyn_not_direct;
use crate::diagnostics::msg_dyn_short_path;
use crate::diagnostics::msg_empty_rename;
use crate::diagnostics::msg_external_id_on_inherent;
use crate::diagnostics::msg_id_mapped_twice;
use crate::diagnostics::msg_kind_mismatch;
use crate::diagnostics::msg_mapping_unmatched;
use crate::diagnostics::msg_missing_specialization;
use crate::diagnostics::msg_not_stable_id;
use crate::diagnostics::msg_not_valid_on;
use crate::diagnostics::msg_path_mapped_twice;
use crate::diagnostics::msg_provider_requires_generic;
use crate::diagnostics::msg_query_conflict;
use crate::diagnostics::msg_reflected_twice;
use crate::diagnostics::msg_reflected_unmatched;
use crate::diagnostics::msg_reserved_namespace;
use crate::diagnostics::msg_unclassified_supertrait;
use crate::diagnostics::msg_union;
use crate::diagnostics::msg_unknown_specialization;
use crate::diagnostics::msg_unnamed_rename;
use crate::diagnostics::no_diagnostics;
use crate::diagnostics::not_stable_id;
use crate::diagnostics::not_valid_on;
use crate::diagnostics::one;
use crate::diagnostics::path_mapped_twice;
use crate::diagnostics::provider_requires_generic;
use crate::diagnostics::push_diagnostic;
use crate::diagnostics::query_conflict;
use crate::diagnostics::reflected_twice;
use crate::diagnostics::reflected_unmatched;
use crate::diagnostics::report_if;
use crate::diagnostics::reserved_namespace;
use crate::diagnostics::unclassified_supertrait;
use crate::diagnostics::union_rejected;
use crate::diagnostics::unknown_specialization;
use crate::diagnostics::unnamed_rename;
use crate::diagnostics::views;

verus! {

/// Concatenates `item(0) + item(1) + ... + item(count - 1)`.
pub open spec fn gather(count: nat, item: spec_fn(int) -> Seq<DiagnosticView>) -> Seq<DiagnosticView>
    decreases count,
{
    if count == 0 {
        Seq::empty()
    } else {
        gather((count - 1) as nat, item) + item(count - 1)
    }
}

/// Unfolds one step of [`gather`].
pub proof fn lemma_gather_step(count: nat, item: spec_fn(int) -> Seq<DiagnosticView>)
    ensures
        gather(count + 1, item) == gather(count, item) + item(count as int),
{
}

/// Whether `k` is the first position of a helper named `name`.
pub open spec fn is_first_named(attributes: Seq<HelperAttributeIr>, name: HelperName, k: int) -> bool {
    &&& 0 <= k < attributes.len()
    &&& attributes[k].name == name
    &&& forall|j: int| 0 <= j < k ==> attributes[j].name != name
}

/// The position of the first helper named `name`, if any.
pub open spec fn first_named(attributes: Seq<HelperAttributeIr>, name: HelperName) -> Option<int> {
    if exists|k: int| is_first_named(attributes, name, k) {
        Some(choose|k: int| is_first_named(attributes, name, k))
    } else {
        None
    }
}

/// Whether some helper is named `name`.
pub open spec fn has_named(attributes: Seq<HelperAttributeIr>, name: HelperName) -> bool {
    exists|k: int| 0 <= k < attributes.len() && (#[trigger] attributes[k]).name == name
}

/// Returns the position of the first helper named `name`.
pub fn find_helper(attributes: &Vec<HelperAttributeIr>, name: HelperName) -> (found: Option<usize>)
    ensures
        match found {
            Some(k) => first_named(attributes@, name) == Some(k as int),
            None => first_named(attributes@, name) is None && !has_named(attributes@, name),
        },
{
    let mut index: usize = 0;
    while index < attributes.len()
        invariant
            index <= attributes.len(),
            forall|j: int| 0 <= j < index ==> attributes@[j].name != name,
        decreases attributes.len() - index,
    {
        if attributes[index].name == name {
            assert(is_first_named(attributes@, name, index as int));
            let ghost chosen = choose|k: int| is_first_named(attributes@, name, k);
            assert(chosen == index as int) by {
                assert(is_first_named(attributes@, name, chosen));
                if chosen < index {
                } else if chosen > index {
                    assert(attributes@[index as int].name != name);
                }
            }
            return Some(index);
        }
        index += 1;
    }
    assert forall|k: int| !is_first_named(attributes@, name, k) by {}
    None
}

/// Whether a helper may repeat on one element.
pub open spec fn repeatable(name: HelperName) -> bool {
    name == HelperName::Specialize || name == HelperName::ExternalTrait
}

/// Whether an earlier helper of the list has the same key as helper `i`.
pub open spec fn repeats_earlier(attributes: Seq<HelperAttributeIr>, i: int) -> bool {
    exists|j: int| 0 <= j < i && attributes[j].name == attributes[i].name
}

/// Whether an earlier path of the list has the same source as path `k`.
pub open spec fn path_repeats_earlier(paths: Seq<PathIr>, k: int) -> bool {
    exists|j: int| 0 <= j < k && paths[j].source@ == paths[k].source@
}

/// Duplicate capability paths inside one helper value.
pub open spec fn capability_diagnostics(value: HelperValueIr) -> Seq<DiagnosticView> {
    match value {
        HelperValueIr::Paths(paths) => gather(
            paths@.len(),
            |k: int|
                report_if(
                    path_repeats_earlier(paths@, k),
                    paths@[k].span,
                    msg_duplicate_capability(paths@[k].source@),
                ),
        ),
        _ => no_diagnostics(),
    }
}

/// Placement, cardinality, and value diagnostics of helper `i`.
pub open spec fn helper_diagnostics(attributes: Seq<HelperAttributeIr>, i: int) -> Seq<DiagnosticView> {
    let attribute = attributes[i];
    report_if(
        !helper_allowed(attribute.name, attribute.target),
        attribute.span,
        msg_not_valid_on(attribute.name, attribute.target),
    ) + report_if(
        !repeatable(attribute.name) && repeats_earlier(attributes, i),
        attribute.span,
        msg_duplicate_helper(attribute.name),
    ) + capability_diagnostics(attribute.value)
}

/// The conflict diagnostic for `left` and `right`, reported at the first
/// `right` helper.
pub open spec fn conflict_diagnostics(
    attributes: Seq<HelperAttributeIr>,
    left: HelperName,
    right: HelperName,
) -> Seq<DiagnosticView> {
    match first_named(attributes, right) {
        Some(k) => one(attributes[k].span, msg_conflict(left, right)),
        None => no_diagnostics(),
    }
}

/// The policies that `skip` excludes on each target.
pub open spec fn skip_conflicts(attributes: Seq<HelperAttributeIr>, target: HelperTarget) -> Seq<DiagnosticView> {
    match target {
        HelperTarget::Field => conflict_diagnostics(attributes, HelperName::Skip, HelperName::ReadOnly)
            + conflict_diagnostics(attributes, HelperName::Skip, HelperName::NoConstruct),
        HelperTarget::Variant => conflict_diagnostics(attributes, HelperName::Skip, HelperName::NoConstruct),
        HelperTarget::Method => conflict_diagnostics(attributes, HelperName::Skip, HelperName::NoInvoke)
            + conflict_diagnostics(attributes, HelperName::Skip, HelperName::CatchUnwind)
            + conflict_diagnostics(attributes, HelperName::Skip, HelperName::ThreadSafe),
        _ => no_diagnostics(),
    }
}

/// Mutually exclusive policy pairs.
pub open spec fn policy_conflicts(attributes: Seq<HelperAttributeIr>) -> Seq<DiagnosticView> {
    (match first_named(attributes, HelperName::Skip) {
        Some(k) => skip_conflicts(attributes, attributes[k].target),
        None => no_diagnostics(),
    }) + if has_named(attributes, HelperName::NoInvoke) {
        conflict_diagnostics(attributes, HelperName::NoInvoke, HelperName::CatchUnwind)
            + conflict_diagnostics(attributes, HelperName::NoInvoke, HelperName::ThreadSafe)
    } else {
        no_diagnostics()
    }
}

/// All diagnostics of one helper list: per-helper checks in source order,
/// then policy conflicts.
pub open spec fn attribute_list_diagnostics(attributes: Seq<HelperAttributeIr>) -> Seq<DiagnosticView> {
    gather(attributes.len(), |i: int| helper_diagnostics(attributes, i)) + policy_conflicts(attributes)
}

fn path_seen_before(paths: &Vec<PathIr>, k: usize) -> (seen: bool)
    requires
        k < paths@.len(),
    ensures
        seen == path_repeats_earlier(paths@, k as int),
{
    let mut j: usize = 0;
    while j < k
        invariant
            k < paths@.len(),
            j <= k,
            forall|l: int| 0 <= l < j ==> paths@[l].source@ != paths@[k as int].source@,
        decreases k - j,
    {
        if paths[j].source == paths[k].source {
            return true;
        }
        j += 1;
    }
    false
}

fn validate_capability_paths(value: &HelperValueIr) -> (diagnostics: Vec<Diagnostic>)
    ensures
        views(diagnostics@) == capability_diagnostics(*value),
{
    let mut diagnostics: Vec<Diagnostic> = Vec::new();
    if let HelperValueIr::Paths(paths) = value {
        let ghost item = |k: int|
            report_if(
                path_repeats_earlier(paths@, k),
                paths@[k].span,
                msg_duplicate_capability(paths@[k].source@),
            );
        let mut k: usize = 0;
        while k < paths.len()
            invariant
                k <= paths@.len(),
                item == (|j: int|
                    report_if(
                        path_repeats_earlier(paths@, j),
                        paths@[j].span,
                        msg_duplicate_capability(paths@[j].source@),
                    )),
                views(diagnostics@) == gather(k as nat, item),
            decreases paths.len() - k,
        {
            proof {
                lemma_gather_step(k as nat, item);
            }
            if path_seen_before(paths, k) {
                let message = duplicate_capability(paths[k].source.as_str());
                push_diagnostic(&mut diagnostics, paths[k].span, message);
            }
            assert(views(diagnostics@) =~= gather((k + 1) as nat, item));
            k += 1;
        }
    }
    diagnostics
}

fn helper_repeats(attributes: &Vec<HelperAttributeIr>, i: usize) -> (repeats: bool)
    requires
        i < attributes@.len(),
    ensures
        repeats == repeats_earlier(attributes@, i as int),
{
    let mut j: usize = 0;
    while j < i
        invariant
            i < attributes@.len(),
            j <= i,
            forall|l: int| 0 <= l < j ==> attributes@[l].name != attributes@[i as int].name,
        decreases i - j,
    {
        if attributes[j].name == attributes[i].name {
            return true;
        }
        j += 1;
    }
    false
}

fn report_conflict(attributes: &Vec<HelperAttributeIr>, left: HelperName, right: HelperName) -> (diagnostics: Vec<Diagnostic>)
    ensures
        views(diagnostics@) == conflict_diagnostics(attributes@, left, right),
{
    let mut diagnostics: Vec<Diagnostic> = Vec::new();
    if let Some(k) = find_helper(attributes, right) {
        push_diagnostic(&mut diagnostics, attributes[k].span, conflict(left, right));
    }
    assert(views(diagnostics@) =~= conflict_diagnostics(attributes@, left, right));
    diagnostics
}

fn validate_conflicts(attributes: &Vec<HelperAttributeIr>) -> (diagnostics: Vec<Diagnostic>)
    ensures
        views(diagnostics@) == policy_conflicts(attributes@),
{
    let mut diagnostics: Vec<Diagnostic> = Vec::new();
    if let Some(k) = find_helper(attributes, HelperName::Skip) {
        match attributes[k].target {
            HelperTarget::Field => {
                append_diagnostics(&mut diagnostics, report_conflict(attributes, HelperName::Skip, HelperName::ReadOnly));
                append_diagnostics(&mut diagnostics, report_conflict(attributes, HelperName::Skip, HelperName::NoConstruct));
            },
            HelperTarget::Variant => {
                append_diagnostics(&mut diagnostics, report_conflict(attributes, HelperName::Skip, HelperName::NoConstruct));
            },
            HelperTarget::Method => {
                append_diagnostics(&mut diagnostics, report_conflict(attributes, HelperName::Skip, HelperName::NoInvoke));
                append_diagnostics(&mut diagnostics, report_conflict(attributes, HelperName::Skip, HelperName::CatchUnwind));
                append_diagnostics(&mut diagnostics, report_conflict(attributes, HelperName::Skip, HelperName::ThreadSafe));
            },
            _ => {},
        }
    }
    let ghost skip_part = views(diagnostics@);
    assert(skip_part =~= match first_named(attributes@, HelperName::Skip) {
        Some(k) => skip_conflicts(attributes@, attributes@[k].target),
        None => no_diagnostics(),
    });
    if find_helper(attributes, HelperName::NoInvoke).is_some() {
        append_diagnostics(&mut diagnostics, report_conflict(attributes, HelperName::NoInvoke, HelperName::CatchUnwind));
        append_diagnostics(&mut diagnostics, report_conflict(attributes, HelperName::NoInvoke, HelperName::ThreadSafe));
    }
    proof {
        if has_named(attributes@, HelperName::NoInvoke) {
            let w = choose|k: int| 0 <= k < attributes@.len() && (#[trigger] attributes@[k]).name == HelperName::NoInvoke;
            assert(attributes@[w].name == HelperName::NoInvoke);
        }
    }
    assert(views(diagnostics@) =~= policy_conflicts(attributes@));
    diagnostics
}

/// Validates legality, cardinality, values, and mutually exclusive policies of
/// one helper list.
pub fn validate_attributes(attributes: &Vec<HelperAttributeIr>) -> (diagnostics: Vec<Diagnostic>)
    ensures
        views(diagnostics@) == attribute_list_diagnostics(attributes@),
{
    let mut diagnostics: Vec<Diagnostic> = Vec::new();
    let ghost item = |i: int| helper_diagnostics(attributes@, i);
    let mut i: usize = 0;
    while i < attributes.len()
        invariant
            i <= attributes@.len(),
            item == (|j: int| helper_diagnostics(attributes@, j)),
            views(diagnostics@) == gather(i as nat, item),
        decreases attributes.len() - i,
    {
        proof {
            lemma_gather_step(i as nat, item);
        }
        let attribute = &attributes[i];
        let ghost before = views(diagnostics@);
        if !attribute.name.supports(attribute.target) {
            push_diagnostic(&mut diagnostics, attribute.span, not_valid_on(attribute.name, attribute.target));
        }
        let repeatable_name = attribute.name == HelperName::Specialize || attribute.name == HelperName::ExternalTrait;
        if !repeatable_name && helper_repeats(attributes, i) {
            push_diagnostic(&mut diagnostics, attribute.span, duplicate_helper(attribute.name));
        }
        append_diagnostics(&mut diagnostics, validate_capability_paths(&attribute.value));
        assert(views(diagnostics@) =~= before + helper_diagnostics(attributes@, i as int));
        i += 1;
    }
    append_diagnostics(&mut diagnostics, validate_conflicts(attributes));
    diagnostics
}

impl HelperAttributeIr {
    /// Returns the rename value when this is a `rename` helper.
    pub fn rename(&self) -> (value: Option<&String>)
        ensures
            match value {
                Some(value) => rename_value(*self) == Some(value@),
                None => rename_value(*self) is None,
            },
    {
        match &self.value {
            HelperValueIr::Rename(value) => Some(value),
            _ => None,
        }
    }

    /// Returns the specialization carried by this helper, if any.
    pub fn specialization(&self) -> (value: Option<&SpecializationIr>)
        ensures
            match value {
                Some(value) => self.value == HelperValueIr::Specialization(*value),
                None => !(self.value is Specialization),
            },
    {
        match &self.value {
            HelperValueIr::Specialization(value) => Some(value),
            _ => None,
        }
    }
}

/// How many helpers are named `name`.
pub open spec fn count_named(attributes: Seq<HelperAttributeIr>, name: HelperName) -> nat
    decreases attributes.len(),
{
    if attributes.len() == 0 {
        0
    } else {
        count_named(attributes.drop_last(), name) + if attributes.last().name == name {
            1nat
        } else {
            0nat
        }
    }
}

impl TypeDeclarationIr {
    /// Counts occurrences of `name` on the type declaration.
    pub fn helper_count(&self, name: HelperName) -> (count: usize)
        ensures
            count == count_named(self.attributes@, name),
    {
        let mut count: usize = 0;
        let mut index: usize = 0;
        while index < self.attributes.len()
            invariant
                index <= self.attributes@.len(),
                count == count_named(self.attributes@.take(index as int), name),
                count <= index,
            decreases self.attributes.len() - index,
        {
            assert(self.attributes@.take(index + 1).drop_last() =~= self.attributes@.take(index as int));
            if self.attributes[index].name == name {
                count += 1;
            }
            index += 1;
        }
        assert(self.attributes@.take(self.attributes@.len() as int) =~= self.attributes@);
        count
    }
}

/// The rename literal carried by a helper, if it is a `rename` helper.
pub open spec fn rename_value(attribute: HelperAttributeIr) -> Option<Seq<char>> {
    match attribute.value {
        HelperValueIr::Rename(value) => Some(value@),
        _ => None,
    }
}

/// The empty-rename diagnostic of one member.
pub open spec fn query_name_diagnostics(attributes: Seq<HelperAttributeIr>, rust_name: Seq<char>) -> Seq<DiagnosticView> {
    match first_named(attributes, HelperName::Rename) {
        Some(k) => match attributes[k].value {
            HelperValueIr::Rename(value) => report_if(
                value@.len() == 0,
                attributes[k].value_span,
                msg_empty_rename(rust_name),
            ),
            _ => no_diagnostics(),
        },
        None => no_diagnostics(),
    }
}

/// Validates that a rename literal is not empty.
pub fn validate_query_name(attributes: &Vec<HelperAttributeIr>, rust_name: &str) -> (diagnostics: Vec<Diagnostic>)
    ensures
        views(diagnostics@) == query_name_diagnostics(attributes@, rust_name@),
{
    let mut diagnostics: Vec<Diagnostic> = Vec::new();
    if let Some(k) = find_helper(attributes, HelperName::Rename) {
        if let HelperValueIr::Rename(value) = &attributes[k].value {
            if value.as_str().unicode_len() == 0 {
                push_diagnostic(&mut diagnostics, attributes[k].value_span, empty_rename(rust_name));
            }
        }
    }
    assert(views(diagnostics@) =~= query_name_diagnostics(attributes@, rust_name@));
    diagnostics
}

/// One member of a query-name scope: its Rust name, helpers, and span.
pub struct QueryMember<'a> {
    pub rust_name: String,
    pub attributes: &'a Vec<HelperAttributeIr>,
    pub span: usize,
}

/// The value of a scope member.
pub type MemberView = (Seq<char>, Seq<HelperAttributeIr>, usize);

pub open spec fn member_view(member: QueryMember) -> MemberView {
    (member.rust_name@, member.attributes@, member.span)
}

/// The query name of a member: its rename literal, or its Rust name.
pub open spec fn member_query(member: MemberView) -> Seq<char> {
    match first_named(member.1, HelperName::Rename) {
        Some(k) => match member.1[k].value {
            HelperValueIr::Rename(value) => value@,
            _ => member.0,
        },
        None => member.0,
    }
}

/// The span at which a member's query-name conflicts are reported.
pub open spec fn member_span(member: MemberView) -> usize {
    match first_named(member.1, HelperName::Rename) {
        Some(k) => member.1[k].value_span,
        None => member.2,
    }
}

/// Whether `j` is the latest member before `i` with the same query name.
pub open spec fn is_latest_same_query(members: Seq<MemberView>, i: int, j: int) -> bool {
    &&& 0 <= j < i
    &&& member_query(members[j]) == member_query(members[i])
    &&& forall|l: int| j < l < i ==> member_query(members[l]) != member_query(members[i])
}

/// The latest earlier member sharing the query name of member `i`.
pub open spec fn latest_same_query(members: Seq<MemberView>, i: int) -> Option<int> {
    if exists|j: int| is_latest_same_query(members, i, j) {
        Some(choose|j: int| is_latest_same_query(members, i, j))
    } else {
        None
    }
}

/// The conflict diagnostic of member `i`.
pub open spec fn scope_member_diagnostics(members: Seq<MemberView>, i: int, member_kind: Seq<char>) -> Seq<DiagnosticView> {
    match latest_same_query(members, i) {
        Some(j) => one(
            member_span(members[i]),
            msg_query_conflict(member_kind, member_query(members[i]), members[i].0, members[j].0),
        ),
        None => no_diagnostics(),
    }
}

/// Query-name uniqueness diagnostics of one member scope.
pub open spec fn scope_diagnostics(members: Seq<MemberView>, member_kind: Seq<char>) -> Seq<DiagnosticView> {
    gather(members.len(), |i: int| scope_member_diagnostics(members, i, member_kind))
}

fn member_query_of(member: &QueryMember) -> (result: (String, usize))
    ensures
        result.0@ == member_query(member_view(*member)),
        result.1 == member_span(member_view(*member)),
{
    match find_helper(member.attributes, HelperName::Rename) {
        Some(k) => {
            let span = member.attributes[k].value_span;
            match &member.attributes[k].value {
                HelperValueIr::Rename(value) => (value.clone(), span),
                _ => (member.rust_name.clone(), span),
            }
        },
        None => (member.rust_name.clone(), member.span),
    }
}

fn latest_equal_before(items: &Vec<String>, i: usize) -> (found: Option<usize>)
    requires
        i < items@.len(),
    ensures
        match found {
            Some(j) => j < i && items@[j as int]@ == items@[i as int]@ && forall|l: int|
                j < l < i ==> items@[l]@ != items@[i as int]@,
            None => forall|l: int| 0 <= l < i ==> items@[l]@ != items@[i as int]@,
        },
{
    let mut j = i;
    while j > 0
        invariant
            j <= i < items@.len(),
            forall|l: int| j <= l < i ==> items@[l]@ != items@[i as int]@,
        decreases j,
    {
        if items[j - 1] == items[i] {
            return Some(j - 1);
        }
        j -= 1;
    }
    None
}

/// Validates query-name uniqueness in one member scope.
pub fn validate_query_name_scope(members: &Vec<QueryMember>, member_kind: &str) -> (diagnostics: Vec<Diagnostic>)
    ensures
        views(diagnostics@) == scope_diagnostics(members@.map_values(|m: QueryMember| member_view(m)), member_kind@),
{
    let ghost viewed = members@.map_values(|m: QueryMember| member_view(m));
    let mut queries: Vec<String> = Vec::new();
    let mut spans: Vec<usize> = Vec::new();
    let mut index: usize = 0;
    while index < members.len()
        invariant
            index <= members@.len(),
            viewed == members@.map_values(|m: QueryMember| member_view(m)),
            queries@.len() == index,
            spans@.len() == index,
            forall|j: int| 0 <= j < index ==> (#[trigger] queries@[j])@ == member_query(viewed[j]),
            forall|j: int| 0 <= j < index ==> (#[trigger] spans@[j]) == member_span(viewed[j]),
        decreases members.len() - index,
    {
        let (query, span) = member_query_of(&members[index]);
        queries.push(query);
        spans.push(span);
        index += 1;
    }
    let mut diagnostics: Vec<Diagnostic> = Vec::new();
    let ghost item = |i: int| scope_member_diagnostics(viewed, i, member_kind@);
    let mut i: usize = 0;
    while i < members.len()
        invariant
            i <= members@.len(),
            viewed == members@.map_values(|m: QueryMember| member_view(m)),
            queries@.len() == members@.len(),
            spans@.len() == members@.len(),
            forall|j: int| 0 <= j < members@.len() ==> (#[trigger] queries@[j])@ == member_query(viewed[j]),
            forall|j: int| 0 <= j < members@.len() ==> (#[trigger] spans@[j]) == member_span(viewed[j]),
            item == (|j: int| scope_member_diagnostics(viewed, j, member_kind@)),
            views(diagnostics@) == gather(i as nat, item),
        decreases members.len() - i,
    {
        proof {
            lemma_gather_step(i as nat, item);
        }
        let found = latest_equal_before(&queries, i);
        let ghost viewed_i = viewed[i as int];
        match found {
            Some(j) => {
                assert forall|l: int| j < l < i implies member_query(viewed[l]) != member_query(viewed[i as int]) by {
                    assert(queries@[l]@ != queries@[i as int]@);
                }
                assert(queries@[j as int]@ == queries@[i as int]@);
                assert(is_latest_same_query(viewed, i as int, j as int));
                let ghost chosen = choose|l: int| is_latest_same_query(viewed, i as int, l);
                assert(chosen == j as int) by {
                    assert(is_latest_same_query(viewed, i as int, chosen));
                    if chosen < j {
                        assert(member_query(viewed[j as int]) == member_query(viewed[i as int]));
                    } else if chosen > j {
                        assert(member_query(viewed[chosen]) == member_query(viewed[i as int]));
                        assert(queries@[chosen]@ == queries@[i as int]@);
                    }
                }
                let message = query_conflict(member_kind, queries[i].as_str(), members[i].rust_name.as_str(), members[j].rust_name.as_str());
                push_diagnostic(&mut diagnostics, spans[i], message);
            },
            None => {
                assert forall|l: int| !is_latest_same_query(viewed, i as int, l) by {
                    if 0 <= l < i {
                        assert(queries@[l]@ != queries@[i as int]@);
                    }
                }
            },
        }
        assert(views(diagnostics@) =~= gather((i + 1) as nat, item));
        i += 1;
    }
    diagnostics
}

/// Scope members of the named fields, in source order.
pub open spec fn field_members(fields: Seq<FieldIr>) -> Seq<MemberView>
    decreases fields.len(),
{
    if fields.len() == 0 {
        Seq::empty()
    } else {
        let field = fields.last();
        field_members(fields.drop_last()) + match field.name {
            Some(name) => seq![(name@, field.attributes@, field.span)],
            None => Seq::empty(),
        }
    }
}

/// Scope members of the variants, in source order.
pub open spec fn variant_members(variants: Seq<VariantIr>) -> Seq<MemberView> {
    variants.map_values(|variant: VariantIr| (variant.name@, variant.attributes@, variant.span))
}

/// Scope members of the methods, in source order.
pub open spec fn method_members(methods: Seq<MethodIr>) -> Seq<MemberView> {
    methods.map_values(|method: MethodIr| (method.name@, method.attributes@, method.span))
}

fn field_members_of<'a>(fields: &'a Vec<FieldIr>) -> (members: Vec<QueryMember<'a>>)
    ensures
        members@.map_values(|m: QueryMember| member_view(m)) == field_members(fields@),
{
    let mut members: Vec<QueryMember<'a>> = Vec::new();
    let mut i: usize = 0;
    while i < fields.len()
        invariant
            i <= fields@.len(),
            members@.map_values(|m: QueryMember| member_view(m)) == field_members(fields@.take(i as int)),
        decreases fields.len() - i,
    {
        let ghost before = members@.map_values(|m: QueryMember| member_view(m));
        assert(fields@.take(i + 1).drop_last() == fields@.take(i as int));
        let field = &fields[i];
        if let Some(name) = &field.name {
            members.push(QueryMember { rust_name: name.clone(), attributes: &field.attributes, span: field.span });
        }
        assert(members@.map_values(|m: QueryMember| member_view(m)) =~= field_members(fields@.take(i + 1)));
        i += 1;
    }
    assert(fields@.take(fields@.len() as int) == fields@);
    members
}

fn variant_members_of<'a>(variants: &'a Vec<VariantIr>) -> (members: Vec<QueryMember<'a>>)
    ensures
        members@.map_values(|m: QueryMember| member_view(m)) == variant_members(variants@),
{
    let mut members: Vec<QueryMember<'a>> = Vec::new();
    let mut i: usize = 0;
    while i < variants.len()
        invariant
            i <= variants@.len(),
            members@.map_values(|m: QueryMember| member_view(m)) == variant_members(variants@.take(i as int)),
        decreases variants.len() - i,
    {
        let ghost before = members@.map_values(|m: QueryMember| member_view(m));
        let variant = &variants[i];
        members.push(QueryMember { rust_name: variant.name.clone(), attributes: &variant.attributes, span: variant.span });
        let ghost pushed = members@.map_values(|m: QueryMember| member_view(m));
        assert(pushed =~= before.push(member_view(members@[i as int])));
        assert(variants@.take(i + 1) =~= variants@.take(i as int).push(variants@[i as int]));
        assert(pushed =~= variant_members(variants@.take(i + 1)));
        i += 1;
    }
    assert(variants@.take(variants@.len() as int) == variants@);
    members
}

fn method_members_of<'a>(methods: &'a Vec<MethodIr>) -> (members: Vec<QueryMember<'a>>)
    ensures
        members@.map_values(|m: QueryMember| member_view(m)) == method_members(methods@),
{
    let mut members: Vec<QueryMember<'a>> = Vec::new();
    let mut i: usize = 0;
    while i < methods.len()
        invariant
            i <= methods@.len(),
            members@.map_values(|m: QueryMember| member_view(m)) == method_members(methods@.take(i as int)),
        decreases methods.len() - i,
    {
        let ghost before = members@.map_values(|m: QueryMember| member_view(m));
        let method = &methods[i];
        members.push(QueryMember { rust_name: method.name.clone(), attributes: &method.attributes, span: method.span });
        let ghost pushed = members@.map_values(|m: QueryMember| member_view(m));
        assert(pushed =~= before.push(member_view(members@[i as int])));
        assert(methods@.take(i + 1) =~= methods@.take(i as int).push(methods@[i as int]));
        assert(pushed =~= method_members(methods@.take(i + 1)));
        i += 1;
    }
    assert(methods@.take(methods@.len() as int) == methods@);
    members
}

/// The Rust member name of a field: its identifier, or its decimal index.
pub open spec fn field_rust_name(field: FieldIr) -> Seq<char> {
    match field.name {
        Some(name) => name@,
        None => decimal(field.index as nat),
    }
}

/// Diagnostics of one field.
pub open spec fn field_diagnostics(field: FieldIr) -> Seq<DiagnosticView> {
    attribute_list_diagnostics(field.attributes@)
        + query_name_diagnostics(field.attributes@, field_rust_name(field))
        + if field.name is None {
        match first_named(field.attributes@, HelperName::Rename) {
            Some(k) => one(field.attributes@[k].span, msg_unnamed_rename()),
            None => no_diagnostics(),
        }
    } else {
        no_diagnostics()
    }
}

/// Diagnostics of a field list.
pub open spec fn fields_diagnostics(fields: Seq<FieldIr>) -> Seq<DiagnosticView> {
    gather(fields.len(), |i: int| field_diagnostics(fields[i]))
}

/// Validates field helper policies in source order.
pub fn validate_fields(fields: &Vec<FieldIr>) -> (diagnostics: Vec<Diagnostic>)
    ensures
        views(diagnostics@) == fields_diagnostics(fields@),
{
    let mut diagnostics: Vec<Diagnostic> = Vec::new();
    let ghost item = |i: int| field_diagnostics(fields@[i]);
    let mut i: usize = 0;
    while i < fields.len()
        invariant
            i <= fields@.len(),
            item == (|j: int| field_diagnostics(fields@[j])),
            views(diagnostics@) == gather(i as nat, item),
        decreases fields.len() - i,
    {
        proof {
            lemma_gather_step(i as nat, item);
        }
        let ghost before = views(diagnostics@);
        let field = &fields[i];
        append_diagnostics(&mut diagnostics, validate_attributes(&field.attributes));
        let rust_name = match &field.name {
            Some(name) => name.clone(),
            None => decimal_string(field.index),
        };
        append_diagnostics(&mut diagnostics, validate_query_name(&field.attributes, rust_name.as_str()));
        if field.name.is_none() {
            if let Some(k) = find_helper(&field.attributes, HelperName::Rename) {
                push_diagnostic(&mut diagnostics, field.attributes[k].span, unnamed_rename());
            }
        }
        assert(views(diagnostics@) =~= before + field_diagnostics(fields@[i as int]));
        i += 1;
    }
    diagnostics
}

/// Diagnostics of one enum variant.
pub open spec fn variant_diagnostics(variant: VariantIr) -> Seq<DiagnosticView> {
    attribute_list_diagnostics(variant.attributes@)
        + query_name_diagnostics(variant.attributes@, variant.name@)
        + fields_diagnostics(variant.fields@)
        + scope_diagnostics(field_members(variant.fields@), "field"@)
}

/// `definition_provider_v2` diagnostics of a type declaration.
pub open spec fn provider_diagnostics(declaration: TypeDeclarationIr) -> Seq<DiagnosticView> {
    let attributes = declaration.attributes@;
    if declaration.generics.params@.len() == 0 {
        gather(
            attributes.len(),
            |i: int|
                report_if(
                    attributes[i].name == HelperName::DefinitionProviderV2,
                    attributes[i].span,
                    msg_provider_requires_generic(),
                ),
        )
    } else {
        no_diagnostics()
    }
}

/// All diagnostics of a struct, enum, or union declaration.
pub open spec fn type_diagnostics(declaration: TypeDeclarationIr) -> Seq<DiagnosticView> {
    attribute_list_diagnostics(declaration.attributes@)
        + provider_diagnostics(declaration)
        + report_if(declaration.kind == TypeDeclarationKindIr::Union, declaration.span, msg_union())
        + query_name_diagnostics(declaration.attributes@, declaration.name@)
        + fields_diagnostics(declaration.fields@)
        + scope_diagnostics(field_members(declaration.fields@), "field"@)
        + scope_diagnostics(variant_members(declaration.variants@), "variant"@)
        + gather(declaration.variants@.len(), |i: int| variant_diagnostics(declaration.variants@[i]))
}

fn validate_provider(declaration: &TypeDeclarationIr) -> (diagnostics: Vec<Diagnostic>)
    ensures
        views(diagnostics@) == provider_diagnostics(*declaration),
{
    let mut diagnostics: Vec<Diagnostic> = Vec::new();
    if declaration.generics.params.len() == 0 {
        let attributes = &declaration.attributes;
        let ghost item = |i: int|
            report_if(
                attributes@[i].name == HelperName::DefinitionProviderV2,
                attributes@[i].span,
                msg_provider_requires_generic(),
            );
        let mut i: usize = 0;
        while i < attributes.len()
            invariant
                i <= attributes@.len(),
                item == (|j: int|
                    report_if(
                        attributes@[j].name == HelperName::DefinitionProviderV2,
                        attributes@[j].span,
                        msg_provider_requires_generic(),
                    )),
                views(diagnostics@) == gather(i as nat, item),
            decreases attributes.len() - i,
        {
            proof {
                lemma_gather_step(i as nat, item);
            }
            if attributes[i].name == HelperName::DefinitionProviderV2 {
                push_diagnostic(&mut diagnostics, attributes[i].span, provider_requires_generic());
            }
            assert(views(diagnostics@) =~= gather((i + 1) as nat, item));
            i += 1;
        }
    }
    diagnostics
}

fn validate_variant(variant: &VariantIr) -> (diagnostics: Vec<Diagnostic>)
    ensures
        views(diagnostics@) == variant_diagnostics(*variant),
{
    let mut diagnostics = validate_attributes(&variant.attributes);
    append_diagnostics(&mut diagnostics, validate_query_name(&variant.attributes, variant.name.as_str()));
    append_diagnostics(&mut diagnostics, validate_fields(&variant.fields));
    let members = field_members_of(&variant.fields);
    append_diagnostics(&mut diagnostics, validate_query_name_scope(&members, "field"));
    diagnostics
}

fn validate_type_head(declaration: &TypeDeclarationIr) -> (diagnostics: Vec<Diagnostic>)
    ensures
        views(diagnostics@) == attribute_list_diagnostics(declaration.attributes@)
            + provider_diagnostics(*declaration)
            + report_if(declaration.kind == TypeDeclarationKindIr::Union, declaration.span, msg_union())
            + query_name_diagnostics(declaration.attributes@, declaration.name@),
{
    let mut diagnostics = validate_attributes(&declaration.attributes);
    append_diagnostics(&mut diagnostics, validate_provider(declaration));
    if declaration.kind == TypeDeclarationKindIr::Union {
        push_diagnostic(&mut diagnostics, declaration.span, union_rejected());
    }
    let ghost after_union = views(diagnostics@);
    assert(after_union =~= attribute_list_diagnostics(declaration.attributes@)
        + provider_diagnostics(*declaration)
        + report_if(declaration.kind == TypeDeclarationKindIr::Union, declaration.span, msg_union()));
    append_diagnostics(&mut diagnostics, validate_query_name(&declaration.attributes, declaration.name.as_str()));
    diagnostics
}

fn validate_type_members(declaration: &TypeDeclarationIr) -> (diagnostics: Vec<Diagnostic>)
    ensures
        views(diagnostics@) == fields_diagnostics(declaration.fields@)
            + scope_diagnostics(field_members(declaration.fields@), "field"@)
            + scope_diagnostics(variant_members(declaration.variants@), "variant"@),
{
    let mut diagnostics = validate_fields(&declaration.fields);
    let field_scope = field_members_of(&declaration.fields);
    append_diagnostics(&mut diagnostics, validate_query_name_scope(&field_scope, "field"));
    let variant_scope = variant_members_of(&declaration.variants);
    append_diagnostics(&mut diagnostics, validate_query_name_scope(&variant_scope, "variant"));
    diagnostics
}

fn validate_variants(variants: &Vec<VariantIr>) -> (diagnostics: Vec<Diagnostic>)
    ensures
        views(diagnostics@) == gather(variants@.len(), |i: int| variant_diagnostics(variants@[i])),
{
    let mut diagnostics: Vec<Diagnostic> = Vec::new();
    let ghost item = |i: int| variant_diagnostics(variants@[i]);
    let mut i: usize = 0;
    while i < variants.len()
        invariant
            i <= variants@.len(),
            item == (|j: int| variant_diagnostics(variants@[j])),
            views(diagnostics@) == gather(i as nat, item),
        decreases variants.len() - i,
    {
        proof {
            lemma_gather_step(i as nat, item);
        }
        append_diagnostics(&mut diagnostics, validate_variant(&variants[i]));
        i += 1;
    }
    diagnostics
}

/// Validates a struct, enum, or rejected union declaration.
pub fn validate_type(declaration: &TypeDeclarationIr) -> (diagnostics: Vec<Diagnostic>)
    ensures
        views(diagnostics@) == type_diagnostics(*declaration),
{
    let mut diagnostics = validate_type_head(declaration);
    let ghost head = views(diagnostics@);
    let members = validate_type_members(declaration);
    let ghost middle = views(members@);
    append_diagnostics(&mut diagnostics, members);
    let variants = validate_variants(&declaration.variants);
    let ghost tail = views(variants@);
    append_diagnostics(&mut diagnostics, variants);
    assert(views(diagnostics@) =~= type_diagnostics(*declaration));
    diagnostics
}

/// Whether character `i` of `value` begins a segment.
pub open spec fn starts_segment(value: Seq<char>, i: int) -> bool {
    i == 0 || value[i - 1] == '.'
}

/// Whether character `i` of `value` fits the stable identifier grammar.
pub open spec fn stable_char_ok(value: Seq<char>, i: int) -> bool {
    &&& value[i] == '.' || is_identifier_continue(value[i])
    &&& starts_segment(value, i) ==> is_identifier_start(value[i])
}

/// Whether `value` is a dot-separated stable identifier: one or more
/// non-empty segments, each an ASCII letter or `_` followed by ASCII letters,
/// digits, or `_`.
pub open spec fn is_stable_id(value: Seq<char>) -> bool {
    &&& value.len() > 0
    &&& value.last() != '.'
    &&& forall|i: int| 0 <= i < value.len() ==> #[trigger] stable_char_ok(value, i)
}

/// Whether `value` lies in the reserved `qubit.reflect` namespace.
pub open spec fn is_reserved_id(value: Seq<char>) -> bool {
    value == "qubit.reflect"@ || ("qubit.reflect."@.len() <= value.len() && value.subrange(
        0,
        "qubit.reflect."@.len() as int,
    ) == "qubit.reflect."@)
}

/// Diagnostics of one stable identifier literal.
pub open spec fn stable_id_diagnostics(value: Seq<char>, span: usize) -> Seq<DiagnosticView> {
    report_if(!is_stable_id(value), span, msg_not_stable_id(value)) + report_if(
        is_reserved_id(value),
        span,
        msg_reserved_namespace(),
    )
}

fn is_start_char(character: char) -> (result: bool)
    ensures
        result == is_identifier_start(character),
{
    character == '_' || ('a' <= character && character <= 'z') || ('A' <= character && character <= 'Z')
}

fn is_continue_char(character: char) -> (result: bool)
    ensures
        result == is_identifier_continue(character),
{
    is_start_char(character) || ('0' <= character && character <= '9')
}

/// Returns whether `value` is a dot-separated stable identifier.
pub fn stable_id_is_valid(value: &str) -> (valid: bool)
    ensures
        valid == is_stable_id(value@),
{
    let characters = chars_of(value);
    if characters.len() == 0 {
        return false;
    }
    if characters[characters.len() - 1] == '.' {
        return false;
    }
    let mut i: usize = 0;
    while i < characters.len()
        invariant
            characters@ == value@,
            characters@.len() > 0,
            characters@.last() != '.',
            i <= characters@.len(),
            forall|j: int| 0 <= j < i ==> #[trigger] stable_char_ok(characters@, j),
        decreases characters.len() - i,
    {
        let character = characters[i];
        let at_start = i == 0 || characters[i - 1] == '.';
        if at_start && !is_start_char(character) {
            assert(!stable_char_ok(characters@, i as int));
            return false;
        }
        if character != '.' && !is_continue_char(character) {
            assert(!stable_char_ok(characters@, i as int));
            return false;
        }
        assert(stable_char_ok(characters@, i as int));
        i += 1;
    }
    true
}

/// Validates the stable identifier grammar and the reserved namespace.
pub fn validate_stable_id(value: &str, span: usize) -> (diagnostics: Vec<Diagnostic>)
    ensures
        views(diagnostics@) == stable_id_diagnostics(value@, span),
{
    let mut diagnostics: Vec<Diagnostic> = Vec::new();
    if !stable_id_is_valid(value) {
        push_diagnostic(&mut diagnostics, span, not_stable_id(value));
    }
    if str_eq(value, "qubit.reflect") || starts_with(value, "qubit.reflect.") {
        push_diagnostic(&mut diagnostics, span, reserved_namespace());
    }
    assert(views(diagnostics@) =~= stable_id_diagnostics(value@, span));
    diagnostics
}

/// The kind of the (last) non-lifetime generic parameter named `name`.
pub open spec fn parameter_kind(params: Seq<GenericParamIr>, name: Seq<char>) -> Option<GenericKindIr>
    decreases params.len(),
{
    if params.len() == 0 {
        None
    } else if params.last().kind != GenericKindIr::Lifetime && params.last().name@ == name {
        Some(params.last().kind)
    } else {
        parameter_kind(params.drop_last(), name)
    }
}

/// Whether a specialization value fits a parameter kind.
pub open spec fn kind_matches(kind: GenericKindIr, value: SpecializationValueIr) -> bool {
    match kind {
        GenericKindIr::Type => value is Type || value is AmbiguousPath,
        GenericKindIr::Const => value is Const || value is AmbiguousPath,
        GenericKindIr::Lifetime => false,
    }
}

/// Diagnostics of specialization binding `i`.
pub open spec fn binding_diagnostics(
    bindings: Seq<SpecializationBindingIr>,
    i: int,
    params: Seq<GenericParamIr>,
) -> Seq<DiagnosticView> {
    let binding = bindings[i];
    report_if(
        exists|j: int| 0 <= j < i && bindings[j].name@ == binding.name@,
        binding.span,
        msg_duplicate_specialization(binding.name@),
    ) + match parameter_kind(params, binding.name@) {
        None => one(binding.span, msg_unknown_specialization(binding.name@)),
        Some(kind) => report_if(
            !kind_matches(kind, binding.value),
            binding.value_span,
            msg_kind_mismatch(binding.name@, kind),
        ),
    }
}

/// The missing-argument diagnostic for parameter `i`, reported once per name.
pub open spec fn missing_binding_diagnostics(
    specialization: SpecializationIr,
    params: Seq<GenericParamIr>,
    i: int,
) -> Seq<DiagnosticView> {
    let param = params[i];
    report_if(
        param.kind != GenericKindIr::Lifetime && !(exists|j: int|
            0 <= j < i && params[j].kind != GenericKindIr::Lifetime && params[j].name@ == param.name@)
            && !(exists|k: int|
            0 <= k < specialization.bindings@.len() && specialization.bindings@[k].name@ == param.name@),
        specialization.span,
        msg_missing_specialization(param.name@),
    )
}

/// Diagnostics of one named specialization against its generic parameters.
pub open spec fn specialization_diagnostics(
    specialization: SpecializationIr,
    params: Seq<GenericParamIr>,
) -> Seq<DiagnosticView> {
    gather(
        specialization.bindings@.len(),
        |i: int| binding_diagnostics(specialization.bindings@, i, params),
    ) + gather(params.len(), |i: int| missing_binding_diagnostics(specialization, params, i))
}

fn lookup_parameter_kind(params: &Vec<GenericParamIr>, name: &String) -> (kind: Option<GenericKindIr>)
    ensures
        kind == parameter_kind(params@, name@),
{
    let mut index = params.len();
    assert(params@.take(params@.len() as int) == params@);
    while index > 0
        invariant
            index <= params@.len(),
            parameter_kind(params@, name@) == parameter_kind(params@.take(index as int), name@),
        decreases index,
    {
        let ghost prefix = params@.take(index as int);
        assert(prefix.drop_last() == params@.take(index - 1));
        assert(prefix.last() == params@[index - 1]);
        let param = &params[index - 1];
        if param.kind != GenericKindIr::Lifetime && param.name == *name {
            return Some(param.kind);
        }
        index -= 1;
    }
    None
}

fn binding_named_before(bindings: &Vec<SpecializationBindingIr>, end: usize, name: &String) -> (found: bool)
    requires
        end <= bindings@.len(),
    ensures
        found == exists|l: int| 0 <= l < end && bindings@[l].name@ == name@,
{
    let mut j: usize = 0;
    while j < end
        invariant
            end <= bindings@.len(),
            j <= end,
            forall|l: int| 0 <= l < j ==> bindings@[l].name@ != name@,
        decreases end - j,
    {
        if bindings[j].name == *name {
            return true;
        }
        j += 1;
    }
    false
}

fn parameter_named_before(params: &Vec<GenericParamIr>, end: usize, name: &String) -> (found: bool)
    requires
        end <= params@.len(),
    ensures
        found == exists|l: int|
            0 <= l < end && params@[l].kind != GenericKindIr::Lifetime && params@[l].name@ == name@,
{
    let mut j: usize = 0;
    while j < end
        invariant
            end <= params@.len(),
            j <= end,
            forall|l: int| 0 <= l < j ==> !(params@[l].kind != GenericKindIr::Lifetime && params@[l].name@ == name@),
        decreases end - j,
    {
        if params[j].kind != GenericKindIr::Lifetime && params[j].name == *name {
            return true;
        }
        j += 1;
    }
    false
}

fn validate_binding(bindings: &Vec<SpecializationBindingIr>, i: usize, params: &Vec<GenericParamIr>) -> (diagnostics: Vec<Diagnostic>)
    requires
        i < bindings@.len(),
    ensures
        views(diagnostics@) == binding_diagnostics(bindings@, i as int, params@),
{
    let mut diagnostics: Vec<Diagnostic> = Vec::new();
    let binding = &bindings[i];
    let duplicate = binding_named_before(bindings, i, &binding.name);
    if duplicate {
        push_diagnostic(&mut diagnostics, binding.span, duplicate_specialization(binding.name.as_str()));
    }
    match lookup_parameter_kind(params, &binding.name) {
        None => {
            push_diagnostic(&mut diagnostics, binding.span, unknown_specialization(binding.name.as_str()));
        },
        Some(kind) => {
            let matches = match kind {
                GenericKindIr::Type => match &binding.value {
                    SpecializationValueIr::Type(_) => true,
                    SpecializationValueIr::AmbiguousPath(_) => true,
                    SpecializationValueIr::Const(_) => false,
                },
                GenericKindIr::Const => match &binding.value {
                    SpecializationValueIr::Const(_) => true,
                    SpecializationValueIr::AmbiguousPath(_) => true,
                    SpecializationValueIr::Type(_) => false,
                },
                GenericKindIr::Lifetime => false,
            };
            if !matches {
                push_diagnostic(&mut diagnostics, binding.value_span, kind_mismatch(binding.name.as_str(), kind));
            }
        },
    }
    assert(views(diagnostics@) =~= binding_diagnostics(bindings@, i as int, params@));
    diagnostics
}

fn validate_missing(specialization: &SpecializationIr, params: &Vec<GenericParamIr>, i: usize) -> (diagnostics: Vec<Diagnostic>)
    requires
        i < params@.len(),
    ensures
        views(diagnostics@) == missing_binding_diagnostics(*specialization, params@, i as int),
{
    let mut diagnostics: Vec<Diagnostic> = Vec::new();
    let param = &params[i];
    if param.kind != GenericKindIr::Lifetime {
        let earlier = parameter_named_before(params, i, &param.name);
        let bound = binding_named_before(&specialization.bindings, specialization.bindings.len(), &param.name);
        if !earlier && !bound {
            push_diagnostic(&mut diagnostics, specialization.span, missing_specialization(param.name.as_str()));
        }
    }
    assert(views(diagnostics@) =~= missing_binding_diagnostics(*specialization, params@, i as int));
    diagnostics
}

/// Validates named specialization completeness and value kinds.
pub fn validate_specialization(specialization: &SpecializationIr, params: &Vec<GenericParamIr>) -> (diagnostics: Vec<Diagnostic>)
    ensures
        views(diagnostics@) == specialization_diagnostics(*specialization, params@),
{
    let bindings = &specialization.bindings;
    let mut diagnostics: Vec<Diagnostic> = Vec::new();
    let ghost item = |i: int| binding_diagnostics(bindings@, i, params@);
    let mut i: usize = 0;
    while i < bindings.len()
        invariant
            i <= bindings@.len(),
            item == (|j: int| binding_diagnostics(bindings@, j, params@)),
            views(diagnostics@) == gather(i as nat, item),
        decreases bindings.len() - i,
    {
        proof {
            lemma_gather_step(i as nat, item);
        }
        append_diagnostics(&mut diagnostics, validate_binding(bindings, i, params));
        i += 1;
    }
    let ghost first = views(diagnostics@);
    let ghost missing = |i: int| missing_binding_diagnostics(*specialization, params@, i);
    let mut i: usize = 0;
    while i < params.len()
        invariant
            i <= params@.len(),
            missing == (|j: int| missing_binding_diagnostics(*specialization, params@, j)),
            views(diagnostics@) == first + gather(i as nat, missing),
        decreases params.len() - i,
    {
        proof {
            lemma_gather_step(i as nat, missing);
        }
        append_diagnostics(&mut diagnostics, validate_missing(specialization, params, i));
        assert(views(diagnostics@) =~= first + gather((i + 1) as nat, missing));
        i += 1;
    }
    diagnostics
}

/// Diagnostics of a list of specializations against one generic list.
pub open spec fn specializations_diagnostics(
    specializations: Seq<SpecializationIr>,
    params: Seq<GenericParamIr>,
) -> Seq<DiagnosticView> {
    gather(specializations.len(), |i: int| specialization_diagnostics(specializations[i], params))
}

fn validate_specializations(specializations: &Vec<SpecializationIr>, params: &Vec<GenericParamIr>) -> (diagnostics: Vec<Diagnostic>)
    ensures
        views(diagnostics@) == specializations_diagnostics(specializations@, params@),
{
    let mut diagnostics: Vec<Diagnostic> = Vec::new();
    let ghost item = |i: int| specialization_diagnostics(specializations@[i], params@);
    let mut i: usize = 0;
    while i < specializations.len()
        invariant
            i <= specializations@.len(),
            item == (|j: int| specialization_diagnostics(specializations@[j], params@)),
            views(diagnostics@) == gather(i as nat, item),
        decreases specializations.len() - i,
    {
        proof {
            lemma_gather_step(i as nat, item);
        }
        append_diagnostics(&mut diagnostics, validate_specialization(&specializations[i], params));
        i += 1;
    }
    diagnostics
}

/// Diagnostics of one method.
pub open spec fn method_diagnostics(method: MethodIr) -> Seq<DiagnosticView> {
    attribute_list_diagnostics(method.attributes@) + (if method.qualifiers.is_async {
        match first_named(method.attributes@, HelperName::CatchUnwind) {
            Some(k) => one(method.attributes@[k].span, msg_catch_unwind_async()),
            None => no_diagnostics(),
        }
    } else {
        no_diagnostics()
    }) + query_name_diagnostics(method.attributes@, method.name@) + specializations_diagnostics(
        method.specializations@,
        method.generics.params@,
    )
}

/// Validates one method and each of its specializations.
pub fn validate_method(method: &MethodIr) -> (diagnostics: Vec<Diagnostic>)
    ensures
        views(diagnostics@) == method_diagnostics(*method),
{
    let mut diagnostics = validate_attributes(&method.attributes);
    if method.qualifiers.is_async {
        if let Some(k) = find_helper(&method.attributes, HelperName::CatchUnwind) {
            push_diagnostic(&mut diagnostics, method.attributes[k].span, catch_unwind_async());
        }
    }
    let ghost head = views(diagnostics@);
    assert(head =~= attribute_list_diagnostics(method.attributes@) + (if method.qualifiers.is_async {
        match first_named(method.attributes@, HelperName::CatchUnwind) {
            Some(k) => one(method.attributes@[k].span, msg_catch_unwind_async()),
            None => no_diagnostics(),
        }
    } else {
        no_diagnostics()
    }));
    append_diagnostics(&mut diagnostics, validate_query_name(&method.attributes, method.name.as_str()));
    append_diagnostics(&mut diagnostics, validate_specializations(&method.specializations, &method.generics.params));
    diagnostics
}

/// Diagnostics of every method, in source order.
pub open spec fn methods_diagnostics(methods: Seq<MethodIr>) -> Seq<DiagnosticView> {
    gather(methods.len(), |i: int| method_diagnostics(methods[i]))
}

fn validate_methods(methods: &Vec<MethodIr>) -> (diagnostics: Vec<Diagnostic>)
    ensures
        views(diagnostics@) == methods_diagnostics(methods@),
{
    let mut diagnostics: Vec<Diagnostic> = Vec::new();
    let ghost item = |i: int| method_diagnostics(methods@[i]);
    let mut i: usize = 0;
    while i < methods.len()
        invariant
            i <= methods@.len(),
            item == (|j: int| method_diagnostics(methods@[j])),
            views(diagnostics@) == gather(i as nat, item),
        decreases methods.len() - i,
    {
        proof {
            lemma_gather_step(i as nat, item);
        }
        append_diagnostics(&mut diagnostics, validate_method(&methods[i]));
        i += 1;
    }
    diagnostics
}

/// Helper diagnostics of associated types and consts.
pub open spec fn associated_diagnostics(
    types: Seq<AssociatedTypeIr>,
    consts: Seq<AssociatedConstIr>,
) -> Seq<DiagnosticView> {
    gather(types.len(), |i: int| attribute_list_diagnostics(types[i].attributes@)) + gather(
        consts.len(),
        |i: int| attribute_list_diagnostics(consts[i].attributes@),
    )
}

fn validate_associated(types: &Vec<AssociatedTypeIr>, consts: &Vec<AssociatedConstIr>) -> (diagnostics: Vec<Diagnostic>)
    ensures
        views(diagnostics@) == associated_diagnostics(types@, consts@),
{
    let mut diagnostics: Vec<Diagnostic> = Vec::new();
    let ghost item = |i: int| attribute_list_diagnostics(types@[i].attributes@);
    let mut i: usize = 0;
    while i < types.len()
        invariant
            i <= types@.len(),
            item == (|j: int| attribute_list_diagnostics(types@[j].attributes@)),
            views(diagnostics@) == gather(i as nat, item),
        decreases types.len() - i,
    {
        proof {
            lemma_gather_step(i as nat, item);
        }
        append_diagnostics(&mut diagnostics, validate_attributes(&types[i].attributes));
        i += 1;
    }
    let ghost first = views(diagnostics@);
    let ghost rest = |i: int| attribute_list_diagnostics(consts@[i].attributes@);
    let mut i: usize = 0;
    while i < consts.len()
        invariant
            i <= consts@.len(),
            rest == (|j: int| attribute_list_diagnostics(consts@[j].attributes@)),
            views(diagnostics@) == first + gather(i as nat, rest),
        decreases consts.len() - i,
    {
        proof {
            lemma_gather_step(i as nat, rest);
        }
        append_diagnostics(&mut diagnostics, validate_attributes(&consts[i].attributes));
        assert(views(diagnostics@) =~= first + gather((i + 1) as nat, rest));
        i += 1;
    }
    diagnostics
}

/// The path sources of the direct trait bounds, in source order.
pub open spec fn direct_sources(bounds: Seq<GenericBoundIr>) -> Seq<Seq<char>>
    decreases bounds.len(),
{
    if bounds.len() == 0 {
        Seq::empty()
    } else {
        direct_sources(bounds.drop_last()) + match bounds.last() {
            GenericBoundIr::Trait { path, .. } => seq![path.source@],
            _ => Seq::empty(),
        }
    }
}

/// The character values of a string list.
pub open spec fn texts(items: Seq<String>) -> Seq<Seq<char>> {
    items.map_values(|item: String| item@)
}

fn direct_sources_of(bounds: &Vec<GenericBoundIr>) -> (sources: Vec<String>)
    ensures
        texts(sources@) == direct_sources(bounds@),
{
    let mut sources: Vec<String> = Vec::new();
    let mut i: usize = 0;
    while i < bounds.len()
        invariant
            i <= bounds@.len(),
            texts(sources@) == direct_sources(bounds@.take(i as int)),
        decreases bounds.len() - i,
    {
        let ghost before = texts(sources@);
        assert(bounds@.take(i + 1).drop_last() == bounds@.take(i as int));
        if let GenericBoundIr::Trait { path, .. } = &bounds[i] {
            sources.push(path.source.clone());
        }
        assert(texts(sources@) =~= direct_sources(bounds@.take(i + 1)));
        i += 1;
    }
    assert(bounds@.take(bounds@.len() as int) == bounds@);
    sources
}

fn text_listed(items: &Vec<String>, end: usize, value: &String) -> (found: bool)
    requires
        end <= items@.len(),
    ensures
        found == exists|l: int| 0 <= l < end && items@[l]@ == value@,
{
    let mut j: usize = 0;
    while j < end
        invariant
            end <= items@.len(),
            j <= end,
            forall|l: int| 0 <= l < j ==> items@[l]@ != value@,
        decreases end - j,
    {
        if items[j] == *value {
            return true;
        }
        j += 1;
    }
    false
}

/// Whether a direct supertrait source is among the listed ones.
pub open spec fn is_direct(direct: Seq<Seq<char>>, source: Seq<char>) -> bool {
    exists|l: int| 0 <= l < direct.len() && direct[l] == source
}

/// Diagnostics of external trait mapping `i`.
pub open spec fn mapping_diagnostics(
    mappings: Seq<ExternalTraitIr>,
    i: int,
    direct: Seq<Seq<char>>,
) -> Seq<DiagnosticView> {
    let mapping = mappings[i];
    stable_id_diagnostics(mapping.id@, mapping.id_span) + report_if(
        !is_direct(direct, mapping.path.source@),
        mapping.path.span,
        msg_mapping_unmatched(mapping.path.source@),
    ) + report_if(
        exists|j: int| 0 <= j < i && mappings[j].path.source@ == mapping.path.source@,
        mapping.span,
        msg_path_mapped_twice(mapping.path.source@),
    ) + report_if(
        exists|j: int| 0 <= j < i && mappings[j].id@ == mapping.id@,
        mapping.id_span,
        msg_id_mapped_twice(mapping.id@),
    )
}

/// Diagnostics of reflected supertrait `i`.
pub open spec fn reflected_diagnostics(paths: Seq<PathIr>, i: int, direct: Seq<Seq<char>>) -> Seq<DiagnosticView> {
    let path = paths[i];
    report_if(!is_direct(direct, path.source@), path.span, msg_reflected_unmatched(path.source@))
        + report_if(path_repeats_earlier(paths, i), path.span, msg_reflected_twice(path.source@))
}

/// The classification diagnostic of direct supertrait `i`, reported once per
/// distinct source.
pub open spec fn classification_diagnostics(declaration: TraitDeclarationIr, direct: Seq<Seq<char>>, i: int) -> Seq<DiagnosticView> {
    let source = direct[i];
    report_if(
        !(exists|j: int| 0 <= j < i && direct[j] == source) && !(exists|k: int|
            0 <= k < declaration.external_traits@.len()
                && declaration.external_traits@[k].path.source@ == source) && !(exists|k: int|
            0 <= k < declaration.reflected_supertraits@.len()
                && declaration.reflected_supertraits@[k].source@ == source),
        declaration.span,
        msg_unclassified_supertrait(source),
    )
}

/// Diagnostics of external mappings and reflected supertrait lists.
pub open spec fn external_diagnostics(declaration: TraitDeclarationIr) -> Seq<DiagnosticView> {
    let direct = direct_sources(declaration.supertraits@);
    gather(
        declaration.external_traits@.len(),
        |i: int| mapping_diagnostics(declaration.external_traits@, i, direct),
    ) + gather(
        declaration.reflected_supertraits@.len(),
        |i: int| reflected_diagnostics(declaration.reflected_supertraits@, i, direct),
    ) + gather(direct.len(), |i: int| classification_diagnostics(declaration, direct, i))
}

fn mapping_path_before(mappings: &Vec<ExternalTraitIr>, i: usize) -> (found: bool)
    requires
        i < mappings@.len(),
    ensures
        found == exists|j: int| 0 <= j < i && mappings@[j].path.source@ == mappings@[i as int].path.source@,
{
    let mut j: usize = 0;
    while j < i
        invariant
            i < mappings@.len(),
            j <= i,
            forall|l: int| 0 <= l < j ==> mappings@[l].path.source@ != mappings@[i as int].path.source@,
        decreases i - j,
    {
        if mappings[j].path.source == mappings[i].path.source {
            return true;
        }
        j += 1;
    }
    false
}

fn mapping_id_before(mappings: &Vec<ExternalTraitIr>, end: usize, id: &String) -> (found: bool)
    requires
        end <= mappings@.len(),
    ensures
        found == exists|j: int| 0 <= j < end && mappings@[j].id@ == id@,
{
    let mut j: usize = 0;
    while j < end
        invariant
            end <= mappings@.len(),
            j <= end,
            forall|l: int| 0 <= l < j ==> mappings@[l].id@ != id@,
        decreases end - j,
    {
        if mappings[j].id == *id {
            return true;
        }
        j += 1;
    }
    false
}

fn mapping_path_listed(mappings: &Vec<ExternalTraitIr>, source: &String) -> (found: bool)
    ensures
        found == exists|k: int| 0 <= k < mappings@.len() && mappings@[k].path.source@ == source@,
{
    let mut j: usize = 0;
    while j < mappings.len()
        invariant
            j <= mappings@.len(),
            forall|l: int| 0 <= l < j ==> mappings@[l].path.source@ != source@,
        decreases mappings.len() - j,
    {
        if mappings[j].path.source == *source {
            return true;
        }
        j += 1;
    }
    false
}

fn path_listed(paths: &Vec<PathIr>, source: &String) -> (found: bool)
    ensures
        found == exists|k: int| 0 <= k < paths@.len() && paths@[k].source@ == source@,
{
    let mut j: usize = 0;
    while j < paths.len()
        invariant
            j <= paths@.len(),
            forall|l: int| 0 <= l < j ==> paths@[l].source@ != source@,
        decreases paths.len() - j,
    {
        if paths[j].source == *source {
            return true;
        }
        j += 1;
    }
    false
}

fn validate_mapping(mappings: &Vec<ExternalTraitIr>, i: usize, direct: &Vec<String>) -> (diagnostics: Vec<Diagnostic>)
    requires
        i < mappings@.len(),
    ensures
        views(diagnostics@) == mapping_diagnostics(mappings@, i as int, texts(direct@)),
{
    let mapping = &mappings[i];
    let mut diagnostics = validate_stable_id(mapping.id.as_str(), mapping.id_span);
    let listed = text_listed(direct, direct.len(), &mapping.path.source);
    proof {
        let d = texts(direct@);
        assert forall|l: int| 0 <= l < d.len() implies #[trigger] d[l] == direct@[l]@ by {}
        if listed {
            let l = choose|l: int| 0 <= l < direct.len() && direct@[l]@ == mapping.path.source@;
            assert(d[l] == mapping.path.source@);
        }
        if is_direct(d, mapping.path.source@) {
            let l = choose|l: int| 0 <= l < d.len() && d[l] == mapping.path.source@;
            assert(direct@[l]@ == mapping.path.source@);
        }
    }
    if !listed {
        push_diagnostic(&mut diagnostics, mapping.path.span, mapping_unmatched(mapping.path.source.as_str()));
    }
    if mapping_path_before(mappings, i) {
        push_diagnostic(&mut diagnostics, mapping.span, path_mapped_twice(mapping.path.source.as_str()));
    }
    if mapping_id_before(mappings, i, &mapping.id) {
        push_diagnostic(&mut diagnostics, mapping.id_span, id_mapped_twice(mapping.id.as_str()));
    }
    assert(views(diagnostics@) =~= mapping_diagnostics(mappings@, i as int, texts(direct@)));
    diagnostics
}

fn validate_reflected(paths: &Vec<PathIr>, i: usize, direct: &Vec<String>) -> (diagnostics: Vec<Diagnostic>)
    requires
        i < paths@.len(),
    ensures
        views(diagnostics@) == reflected_diagnostics(paths@, i as int, texts(direct@)),
{
    let path = &paths[i];
    let mut diagnostics: Vec<Diagnostic> = Vec::new();
    let listed = text_listed(direct, direct.len(), &path.source);
    proof {
        let d = texts(direct@);
        assert forall|l: int| 0 <= l < d.len() implies #[trigger] d[l] == direct@[l]@ by {}
        if listed {
            let l = choose|l: int| 0 <= l < direct.len() && direct@[l]@ == path.source@;
            assert(d[l] == path.source@);
        }
        if is_direct(d, path.source@) {
            let l = choose|l: int| 0 <= l < d.len() && d[l] == path.source@;
            assert(direct@[l]@ == path.source@);
        }
    }
    if !listed {
        push_diagnostic(&mut diagnostics, path.span, reflected_unmatched(path.source.as_str()));
    }
    if path_seen_before(paths, i) {
        push_diagnostic(&mut diagnostics, path.span, reflected_twice(path.source.as_str()));
    }
    assert(views(diagnostics@) =~= reflected_diagnostics(paths@, i as int, texts(direct@)));
    diagnostics
}

fn validate_classification(declaration: &TraitDeclarationIr, direct: &Vec<String>, i: usize) -> (diagnostics: Vec<Diagnostic>)
    requires
        i < direct@.len(),
    ensures
        views(diagnostics@) == classification_diagnostics(*declaration, texts(direct@), i as int),
{
    let mut diagnostics: Vec<Diagnostic> = Vec::new();
    let source = &direct[i];
    let earlier = text_listed(direct, i, source);
    let mapped = mapping_path_listed(&declaration.external_traits, source);
    let reflected = path_listed(&declaration.reflected_supertraits, source);
    proof {
        let d = texts(direct@);
        assert forall|l: int| 0 <= l < d.len() implies #[trigger] d[l] == direct@[l]@ by {}
        if earlier {
            let l = choose|l: int| 0 <= l < i && direct@[l]@ == source@;
            assert(d[l] == d[i as int]);
        }
        if exists|j: int| 0 <= j < i && d[j] == d[i as int] {
            let j = choose|j: int| 0 <= j < i && d[j] == d[i as int];
            assert(direct@[j]@ == source@);
        }
    }
    if !earlier && !mapped && !reflected {
        push_diagnostic(&mut diagnostics, declaration.span, unclassified_supertrait(source.as_str()));
    }
    assert(views(diagnostics@) =~= classification_diagnostics(*declaration, texts(direct@), i as int));
    diagnostics
}

/// Validates external trait identities and detects same-input conflicts.
pub fn validate_external_traits(declaration: &TraitDeclarationIr) -> (diagnostics: Vec<Diagnostic>)
    ensures
        views(diagnostics@) == external_diagnostics(*declaration),
{
    let direct = direct_sources_of(&declaration.supertraits);
    let ghost d = texts(direct@);
    let mappings = &declaration.external_traits;
    let mut diagnostics: Vec<Diagnostic> = Vec::new();
    let ghost first = |i: int| mapping_diagnostics(mappings@, i, d);
    let mut i: usize = 0;
    while i < mappings.len()
        invariant
            i <= mappings@.len(),
            d == texts(direct@),
            first == (|j: int| mapping_diagnostics(mappings@, j, d)),
            views(diagnostics@) == gather(i as nat, first),
        decreases mappings.len() - i,
    {
        proof {
            lemma_gather_step(i as nat, first);
        }
        append_diagnostics(&mut diagnostics, validate_mapping(mappings, i, &direct));
        i += 1;
    }
    let ghost after_mappings = views(diagnostics@);
    let paths = &declaration.reflected_supertraits;
    let ghost second = |i: int| reflected_diagnostics(paths@, i, d);
    let mut i: usize = 0;
    while i < paths.len()
        invariant
            i <= paths@.len(),
            d == texts(direct@),
            second == (|j: int| reflected_diagnostics(paths@, j, d)),
            views(diagnostics@) == after_mappings + gather(i as nat, second),
        decreases paths.len() - i,
    {
        proof {
            lemma_gather_step(i as nat, second);
        }
        append_diagnostics(&mut diagnostics, validate_reflected(paths, i, &direct));
        assert(views(diagnostics@) =~= after_mappings + gather((i + 1) as nat, second));
        i += 1;
    }
    let ghost after_reflected = views(diagnostics@);
    let ghost third = |i: int| classification_diagnostics(*declaration, d, i);
    let mut i: usize = 0;
    while i < direct.len()
        invariant
            i <= direct@.len(),
            d == texts(direct@),
            d == direct_sources(declaration.supertraits@),
            third == (|j: int| classification_diagnostics(*declaration, d, j)),
            views(diagnostics@) == after_reflected + gather(i as nat, third),
        decreases direct.len() - i,
    {
        proof {
            lemma_gather_step(i as nat, third);
        }
        append_diagnostics(&mut diagnostics, validate_classification(declaration, &direct, i));
        assert(views(diagnostics@) =~= after_reflected + gather((i + 1) as nat, third));
        i += 1;
    }
    diagnostics
}

/// The inherited associated-type paths of `dyn_compatible` helpers, each with
/// the value span of its helper, in source order.
pub open spec fn dyn_entries(attributes: Seq<HelperAttributeIr>) -> Seq<(usize, PathIr)>
    decreases attributes.len(),
{
    if attributes.len() == 0 {
        Seq::empty()
    } else {
        let attribute = attributes.last();
        dyn_entries(attributes.drop_last()) + match attribute.value {
            HelperValueIr::DynCompatible(paths) => paths@.map_values(|path: PathIr| (attribute.value_span, path)),
            _ => Seq::empty(),
        }
    }
}

/// Whether `supertrait` is the owner prefix of `Supertrait::Item`.
pub open spec fn is_owner_prefix(supertrait: PathIr, inherited: PathIr) -> bool {
    &&& supertrait.segments@.len() + 1 == inherited.segments@.len()
    &&& forall|t: int|
        0 <= t < supertrait.segments@.len() ==> supertrait.segments@[t].name@ == inherited.segments@[t].name@
}

/// Whether the prefix of an inherited path names a direct supertrait.
pub open spec fn names_direct_supertrait(supertraits: Seq<GenericBoundIr>, inherited: PathIr) -> bool {
    exists|b: int|
        0 <= b < supertraits.len() && match #[trigger] supertraits[b] {
            GenericBoundIr::Trait { path, .. } => is_owner_prefix(path, inherited),
            _ => false,
        }
}

/// The inherited item name of `Supertrait::Item`.
pub open spec fn dyn_item(inherited: PathIr) -> Seq<char> {
    inherited.segments@.last().name@
}

/// Whether an inherited path passes the shape and owner checks.
pub open spec fn dyn_accepted(supertraits: Seq<GenericBoundIr>, inherited: PathIr) -> bool {
    inherited.segments@.len() >= 2 && names_direct_supertrait(supertraits, inherited)
}

/// The diagnostic of inherited entry `k`.
pub open spec fn dyn_entry_diagnostics(
    supertraits: Seq<GenericBoundIr>,
    entries: Seq<(usize, PathIr)>,
    k: int,
) -> Seq<DiagnosticView> {
    let (span, inherited) = entries[k];
    if inherited.segments@.len() < 2 {
        one(span, msg_dyn_short_path())
    } else if !names_direct_supertrait(supertraits, inherited) {
        one(span, msg_dyn_not_direct())
    } else {
        report_if(
            exists|j: int|
                0 <= j < k && dyn_accepted(supertraits, entries[j].1) && dyn_item(entries[j].1) == dyn_item(inherited),
            span,
            msg_dyn_duplicate(dyn_item(inherited)),
        )
    }
}

/// Diagnostics of the `dyn_compatible` inherited associated types.
pub open spec fn dyn_diagnostics(declaration: TraitDeclarationIr) -> Seq<DiagnosticView> {
    let entries = dyn_entries(declaration.attributes@);
    gather(entries.len(), |k: int| dyn_entry_diagnostics(declaration.supertraits@, entries, k))
}

/// The value of an entry list.
pub open spec fn entry_values(entries: Seq<(usize, &PathIr)>) -> Seq<(usize, PathIr)> {
    entries.map_values(|entry: (usize, &PathIr)| (entry.0, *entry.1))
}

fn dyn_entries_of<'a>(attributes: &'a Vec<HelperAttributeIr>) -> (entries: Vec<(usize, &'a PathIr)>)
    ensures
        entry_values(entries@) == dyn_entries(attributes@),
{
    let mut entries: Vec<(usize, &'a PathIr)> = Vec::new();
    let mut i: usize = 0;
    while i < attributes.len()
        invariant
            i <= attributes@.len(),
            entry_values(entries@) == dyn_entries(attributes@.take(i as int)),
        decreases attributes.len() - i,
    {
        assert(attributes@.take(i + 1).drop_last() == attributes@.take(i as int));
        let attribute = &attributes[i];
        let ghost before = entry_values(entries@);
        if let HelperValueIr::DynCompatible(paths) = &attribute.value {
            let mut k: usize = 0;
            while k < paths.len()
                invariant
                    k <= paths@.len(),
                    entry_values(entries@) == before + paths@.take(k as int).map_values(
                        |path: PathIr| (attribute.value_span, path),
                    ),
                decreases paths.len() - k,
            {
                let ghost prev = entries@;
                entries.push((attribute.value_span, &paths[k]));
                proof {
                    let f = |path: PathIr| (attribute.value_span, path);
                    assert(paths@.take(k + 1) =~= paths@.take(k as int).push(paths@[k as int]));
                    assert(paths@.take(k + 1).map_values(f) =~= paths@.take(k as int).map_values(f).push(
                        f(paths@[k as int]),
                    ));
                    assert(entry_values(entries@) =~= entry_values(prev).push((attribute.value_span, paths@[k as int])));
                }
                assert(entry_values(entries@) =~= before + paths@.take(k + 1).map_values(
                    |path: PathIr| (attribute.value_span, path),
                ));
                k += 1;
            }
            assert(paths@.take(paths@.len() as int) == paths@);
        }
        assert(entry_values(entries@) =~= dyn_entries(attributes@.take(i + 1)));
        i += 1;
    }
    assert(attributes@.take(attributes@.len() as int) == attributes@);
    entries
}

fn owner_prefix_matches(supertrait: &PathIr, inherited: &PathIr) -> (matches: bool)
    ensures
        matches == is_owner_prefix(*supertrait, *inherited),
{
    if supertrait.segments.len() >= inherited.segments.len()
        || supertrait.segments.len() + 1 != inherited.segments.len() {
        return false;
    }
    let mut t: usize = 0;
    while t < supertrait.segments.len()
        invariant
            supertrait.segments@.len() + 1 == inherited.segments@.len(),
            t <= supertrait.segments@.len(),
            forall|u: int| 0 <= u < t ==> supertrait.segments@[u].name@ == inherited.segments@[u].name@,
        decreases supertrait.segments.len() - t,
    {
        if supertrait.segments[t].name != inherited.segments[t].name {
            return false;
        }
        t += 1;
    }
    true
}

fn names_direct(supertraits: &Vec<GenericBoundIr>, inherited: &PathIr) -> (direct: bool)
    ensures
        direct == names_direct_supertrait(supertraits@, *inherited),
{
    let mut b: usize = 0;
    while b < supertraits.len()
        invariant
            b <= supertraits@.len(),
            forall|c: int|
                0 <= c < b ==> !(match #[trigger] supertraits@[c] {
                    GenericBoundIr::Trait { path, .. } => is_owner_prefix(path, *inherited),
                    _ => false,
                }),
        decreases supertraits.len() - b,
    {
        if let GenericBoundIr::Trait { path, .. } = &supertraits[b] {
            if owner_prefix_matches(path, inherited) {
                return true;
            }
        }
        b += 1;
    }
    false
}

fn dyn_accepted_exec(supertraits: &Vec<GenericBoundIr>, inherited: &PathIr) -> (accepted: bool)
    ensures
        accepted == dyn_accepted(supertraits@, *inherited),
{
    inherited.segments.len() >= 2 && names_direct(supertraits, inherited)
}

fn earlier_duplicate(supertraits: &Vec<GenericBoundIr>, entries: &Vec<(usize, &PathIr)>, k: usize, item: &String) -> (duplicate: bool)
    requires
        k < entries@.len(),
    ensures
        duplicate == exists|j: int|
            0 <= j < k && dyn_accepted(supertraits@, entry_values(entries@)[j].1)
                && dyn_item(entry_values(entries@)[j].1) == item@,
{
    let ghost values = entry_values(entries@);
    let mut j: usize = 0;
    while j < k
        invariant
            k < entries@.len(),
            values == entry_values(entries@),
            j <= k,
            forall|l: int|
                0 <= l < j ==> !(dyn_accepted(supertraits@, values[l].1) && dyn_item(values[l].1) == item@),
        decreases k - j,
    {
        let other = entries[j].1;
        assert(*other == values[j as int].1);
        if dyn_accepted_exec(supertraits, other) && other.segments[other.segments.len() - 1].name == *item {
            assert(dyn_accepted(supertraits@, values[j as int].1) && dyn_item(values[j as int].1) == item@);
            return true;
        }
        j += 1;
    }
    false
}

fn validate_dyn_entry(supertraits: &Vec<GenericBoundIr>, entries: &Vec<(usize, &PathIr)>, k: usize) -> (diagnostics: Vec<Diagnostic>)
    requires
        k < entries@.len(),
    ensures
        views(diagnostics@) == dyn_entry_diagnostics(supertraits@, entry_values(entries@), k as int),
{
    let ghost values = entry_values(entries@);
    let mut diagnostics: Vec<Diagnostic> = Vec::new();
    let span = entries[k].0;
    let inherited = entries[k].1;
    if inherited.segments.len() < 2 {
        push_diagnostic(&mut diagnostics, span, dyn_short_path());
    } else if !names_direct(supertraits, inherited) {
        push_diagnostic(&mut diagnostics, span, dyn_not_direct());
    } else {
        let item = &inherited.segments[inherited.segments.len() - 1].name;
        let duplicate = earlier_duplicate(supertraits, entries, k, item);
        if duplicate {
            push_diagnostic(&mut diagnostics, span, dyn_duplicate(item.as_str()));
        }
    }
    assert(views(diagnostics@) =~= dyn_entry_diagnostics(supertraits@, values, k as int));
    diagnostics
}

/// Validates the inherited associated types named by `dyn_compatible`.
pub fn validate_dyn_compatible(declaration: &TraitDeclarationIr) -> (diagnostics: Vec<Diagnostic>)
    ensures
        views(diagnostics@) == dyn_diagnostics(*declaration),
{
    let entries = dyn_entries_of(&declaration.attributes);
    let ghost values = entry_values(entries@);
    let mut diagnostics: Vec<Diagnostic> = Vec::new();
    let ghost item = |k: int| dyn_entry_diagnostics(declaration.supertraits@, values, k);
    let mut k: usize = 0;
    while k < entries.len()
        invariant
            k <= entries@.len(),
            values == entry_values(entries@),
            values == dyn_entries(declaration.attributes@),
            item == (|j: int| dyn_entry_diagnostics(declaration.supertraits@, values, j)),
            views(diagnostics@) == gather(k as nat, item),
        decreases entries.len() - k,
    {
        proof {
            lemma_gather_step(k as nat, item);
        }
        append_diagnostics(&mut diagnostics, validate_dyn_entry(&declaration.supertraits, &entries, k));
        k += 1;
    }
    diagnostics
}

/// All diagnostics of a reflected trait declaration.
pub open spec fn trait_diagnostics(declaration: TraitDeclarationIr) -> Seq<DiagnosticView> {
    attribute_list_diagnostics(declaration.attributes@)
        + query_name_diagnostics(declaration.attributes@, declaration.name@)
        + external_diagnostics(declaration)
        + dyn_diagnostics(declaration)
        + methods_diagnostics(declaration.methods@)
        + associated_diagnostics(declaration.associated_types@, declaration.associated_consts@)
        + scope_diagnostics(method_members(declaration.methods@), "method"@)
}

/// Validates trait-level mappings, methods, and associated-item helpers.
pub fn validate_trait(declaration: &TraitDeclarationIr) -> (diagnostics: Vec<Diagnostic>)
    ensures
        views(diagnostics@) == trait_diagnostics(*declaration),
{
    let mut diagnostics = validate_attributes(&declaration.attributes);
    append_diagnostics(&mut diagnostics, validate_query_name(&declaration.attributes, declaration.name.as_str()));
    append_diagnostics(&mut diagnostics, validate_external_traits(declaration));
    append_diagnostics(&mut diagnostics, validate_dyn_compatible(declaration));
    append_diagnostics(&mut diagnostics, validate_methods(&declaration.methods));
    append_diagnostics(&mut diagnostics, validate_associated(&declaration.associated_types, &declaration.associated_consts));
    let members = method_members_of(&declaration.methods);
    append_diagnostics(&mut diagnostics, validate_query_name_scope(&members, "method"));
    diagnostics
}

/// `external_trait_id` placement and grammar diagnostics of an impl.
pub open spec fn impl_identity_diagnostics(declaration: ImplDeclarationIr) -> Seq<DiagnosticView> {
    let attributes = declaration.attributes@;
    (if declaration.trait_path is None {
        gather(
            attributes.len(),
            |i: int|
                report_if(
                    attributes[i].name == HelperName::ExternalTraitId,
                    attributes[i].span,
                    msg_external_id_on_inherent(),
                ),
        )
    } else {
        no_diagnostics()
    }) + gather(
        attributes.len(),
        |i: int|
            match attributes[i].value {
                HelperValueIr::ExternalTraitId(id) => stable_id_diagnostics(id@, attributes[i].value_span),
                _ => no_diagnostics(),
            },
    )
}

fn validate_impl_identity(declaration: &ImplDeclarationIr) -> (diagnostics: Vec<Diagnostic>)
    ensures
        views(diagnostics@) == impl_identity_diagnostics(*declaration),
{
    let attributes = &declaration.attributes;
    let mut diagnostics: Vec<Diagnostic> = Vec::new();
    if declaration.trait_path.is_none() {
        let ghost item = |i: int|
            report_if(
                attributes@[i].name == HelperName::ExternalTraitId,
                attributes@[i].span,
                msg_external_id_on_inherent(),
            );
        let mut i: usize = 0;
        while i < attributes.len()
            invariant
                i <= attributes@.len(),
                item == (|j: int|
                    report_if(
                        attributes@[j].name == HelperName::ExternalTraitId,
                        attributes@[j].span,
                        msg_external_id_on_inherent(),
                    )),
                views(diagnostics@) == gather(i as nat, item),
            decreases attributes.len() - i,
        {
            proof {
                lemma_gather_step(i as nat, item);
            }
            if attributes[i].name == HelperName::ExternalTraitId {
                push_diagnostic(&mut diagnostics, attributes[i].span, external_id_on_inherent());
            }
            assert(views(diagnostics@) =~= gather((i + 1) as nat, item));
            i += 1;
        }
    }
    let ghost first = views(diagnostics@);
    let ghost ids = |i: int|
        match attributes@[i].value {
            HelperValueIr::ExternalTraitId(id) => stable_id_diagnostics(id@, attributes@[i].value_span),
            _ => no_diagnostics(),
        };
    let mut i: usize = 0;
    while i < attributes.len()
        invariant
            i <= attributes@.len(),
            ids == (|j: int|
                match attributes@[j].value {
                    HelperValueIr::ExternalTraitId(id) => stable_id_diagnostics(id@, attributes@[j].value_span),
                    _ => no_diagnostics(),
                }),
            views(diagnostics@) == first + gather(i as nat, ids),
        decreases attributes.len() - i,
    {
        proof {
            lemma_gather_step(i as nat, ids);
        }
        let ghost before = views(diagnostics@);
        if let HelperValueIr::ExternalTraitId(id) = &attributes[i].value {
            append_diagnostics(&mut diagnostics, validate_stable_id(id.as_str(), attributes[i].value_span));
        }
        assert(views(diagnostics@) =~= before + ids(i as int));
        assert(views(diagnostics@) =~= first + gather((i + 1) as nat, ids));
        i += 1;
    }
    diagnostics
}

/// All diagnostics of a reflected impl declaration.
pub open spec fn impl_diagnostics(declaration: ImplDeclarationIr) -> Seq<DiagnosticView> {
    attribute_list_diagnostics(declaration.attributes@)
        + impl_identity_diagnostics(declaration)
        + specializations_diagnostics(declaration.specializations@, declaration.generics.params@)
        + methods_diagnostics(declaration.methods@)
        + associated_diagnostics(declaration.associated_types@, declaration.associated_consts@)
        + scope_diagnostics(method_members(declaration.methods@), "method"@)
}

/// Validates impl-level identity, specializations, methods, and associated
/// items.
pub fn validate_impl(declaration: &ImplDeclarationIr) -> (diagnostics: Vec<Diagnostic>)
    ensures
        views(diagnostics@) == impl_diagnostics(*declaration),
{
    let mut diagnostics = validate_attributes(&declaration.attributes);
    append_diagnostics(&mut diagnostics, validate_impl_identity(declaration));
    append_diagnostics(&mut diagnostics, validate_specializations(&declaration.specializations, &declaration.generics.params));
    append_diagnostics(&mut diagnostics, validate_methods(&declaration.methods));
    append_diagnostics(&mut diagnostics, validate_associated(&declaration.associated_types, &declaration.associated_consts));
    let members = method_members_of(&declaration.methods);
    append_diagnostics(&mut diagnostics, validate_query_name_scope(&members, "method"));
    diagnostics
}

/// All semantic diagnostics of a declaration, in source order.
pub open spec fn validation_diagnostics(declaration: DeclarationIr) -> Seq<DiagnosticView> {
    match declaration {
        DeclarationIr::Type(value) => type_diagnostics(value),
        DeclarationIr::Trait(value) => trait_diagnostics(value),
        DeclarationIr::Impl(value) => impl_diagnostics(value),
    }
}

/// Collects the semantic diagnostics of a declaration without consuming it;
/// an empty list means the declaration is valid.
pub fn validation_error(declaration: &DeclarationIr) -> (diagnostics: Vec<Diagnostic>)
    ensures
        views(diagnostics@) == validation_diagnostics(*declaration),
{
    match declaration {
        DeclarationIr::Type(value) => validate_type(value),
        DeclarationIr::Trait(value) => validate_trait(value),
        DeclarationIr::Impl(value) => validate_impl(value),
    }
}

/// Validates all locally provable invariants of a parsed declaration.
pub fn validate_declaration(declaration: ParsedDeclaration) -> (result: Result<ValidatedDeclaration, Vec<Diagnostic>>)
    ensures
        match result {
            Ok(validated) => validated.declaration == declaration.declaration
                && validation_diagnostics(declaration.declaration).len() == 0,
            Err(diagnostics) => views(diagnostics@) == validation_diagnostics(declaration.declaration)
                && diagnostics@.len() > 0,
        },
{
    let diagnostics = validation_error(&declaration.declaration);
    if diagnostics.len() == 0 {
        Ok(ValidatedDeclaration { declaration: declaration.declaration })
    } else {
        Err(diagnostics)
    }
}

} // verus!

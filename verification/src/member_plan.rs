//! Per-member decisions of derived descriptors: the shape of a struct, each
//! field's query name, access policy, construction and update roles, the
//! requested capabilities, and the runtime visibility of a member.

use vstd::prelude::*;

use crate::helper::HelperName;
use crate::ir::FieldIr;
use crate::ir::HelperAttributeIr;
use crate::ir::HelperValueIr;
use crate::ir::VariantIr;
use crate::ir::PathIr;
use crate::ir::VisibilityIr;
use crate::text::chars_of;
use crate::text::str_eq;
use crate::validate::find_helper;
use crate::validate::first_named;
use crate::validate::has_named;
use crate::validate::rename_value;

verus! {

/// The shape of a derived struct.
#[derive(Clone, Copy, Debug, PartialEq, Eq, Structural)]
pub enum StructKindIr {
    Unit,
    Newtype,
    Tuple,
    Named,
}

/// The shape of a struct with these fields: no field is a unit struct, one
/// unnamed field a newtype, unnamed fields a tuple struct.
pub open spec fn struct_kind_of(fields: Seq<FieldIr>) -> StructKindIr {
    if fields.len() == 0 {
        StructKindIr::Unit
    } else if fields.len() == 1 && fields[0].name is None {
        StructKindIr::Newtype
    } else if fields[0].name is None {
        StructKindIr::Tuple
    } else {
        StructKindIr::Named
    }
}

/// Returns the shape of a struct with these fields.
pub fn struct_kind(fields: &Vec<FieldIr>) -> (kind: StructKindIr)
    ensures
        kind == struct_kind_of(fields@),
{
    if fields.len() == 0 {
        StructKindIr::Unit
    } else if fields.len() == 1 && fields[0].name.is_none() {
        StructKindIr::Newtype
    } else if fields[0].name.is_none() {
        StructKindIr::Tuple
    } else {
        StructKindIr::Named
    }
}

fn has_helper(attributes: &Vec<HelperAttributeIr>, name: HelperName) -> (found: bool)
    ensures
        found == has_named(attributes@, name),
{
    let mut index: usize = 0;
    while index < attributes.len()
        invariant
            index <= attributes@.len(),
            forall|j: int| 0 <= j < index ==> attributes@[j].name != name,
        decreases attributes.len() - index,
    {
        if attributes[index].name == name {
            return true;
        }
        index += 1;
    }
    false
}

/// How a reflected field may be read and written.
#[derive(Clone, Copy, Debug, PartialEq, Eq, Structural)]
pub enum AccessPolicyIr {
    Skipped,
    ReadOnly,
    ReadWrite,
}

/// The access policy of a field: `skip` hides it, `read_only` forbids
/// writes, and otherwise it is read-write; `skip` wins over `read_only`.
pub open spec fn access_policy_of(attributes: Seq<HelperAttributeIr>) -> AccessPolicyIr {
    if has_named(attributes, HelperName::Skip) {
        AccessPolicyIr::Skipped
    } else if has_named(attributes, HelperName::ReadOnly) {
        AccessPolicyIr::ReadOnly
    } else {
        AccessPolicyIr::ReadWrite
    }
}

/// Returns the access policy of a field.
pub fn field_access_policy(field: &FieldIr) -> (policy: AccessPolicyIr)
    ensures
        policy == access_policy_of(field.attributes@),
{
    if has_helper(&field.attributes, HelperName::Skip) {
        AccessPolicyIr::Skipped
    } else if has_helper(&field.attributes, HelperName::ReadOnly) {
        AccessPolicyIr::ReadOnly
    } else {
        AccessPolicyIr::ReadWrite
    }
}

/// Returns whether a write to a variant field needs a preflight check: it
/// does unless the field is skipped or read-only.
pub fn field_has_set_preflight(field: &FieldIr) -> (preflight: bool)
    ensures
        preflight == (access_policy_of(field.attributes@) == AccessPolicyIr::ReadWrite),
{
    !has_helper(&field.attributes, HelperName::Skip) && !has_helper(&field.attributes, HelperName::ReadOnly)
}

/// The role of a field in safe struct construction.
#[derive(Clone, Copy, Debug, PartialEq, Eq, Structural)]
pub enum ConstructionFieldIr {
    /// Filled only by its default provider.
    ProviderOnly,
    /// Supplied by the caller or by its default provider.
    Defaulted,
    /// Cannot be supplied: no default provider exists.
    Unavailable,
    /// Must be supplied by the caller.
    Required,
}

/// The construction role of a field: a `default` provider makes it
/// defaulted, or provider-only when `skip` or `no_construct` restricts it; a
/// restricted field without a provider is unavailable.
pub open spec fn construction_field_of(attributes: Seq<HelperAttributeIr>) -> ConstructionFieldIr {
    let restricted = has_named(attributes, HelperName::Skip) || has_named(attributes, HelperName::NoConstruct);
    if has_named(attributes, HelperName::Default) {
        if restricted {
            ConstructionFieldIr::ProviderOnly
        } else {
            ConstructionFieldIr::Defaulted
        }
    } else if restricted {
        ConstructionFieldIr::Unavailable
    } else {
        ConstructionFieldIr::Required
    }
}

/// Returns the construction role of a field.
pub fn construction_field(field: &FieldIr) -> (role: ConstructionFieldIr)
    ensures
        role == construction_field_of(field.attributes@),
{
    let restricted = has_helper(&field.attributes, HelperName::Skip) || has_helper(
        &field.attributes,
        HelperName::NoConstruct,
    );
    if has_helper(&field.attributes, HelperName::Default) {
        if restricted {
            ConstructionFieldIr::ProviderOnly
        } else {
            ConstructionFieldIr::Defaulted
        }
    } else if restricted {
        ConstructionFieldIr::Unavailable
    } else {
        ConstructionFieldIr::Required
    }
}

/// Returns whether an owned update may replace a field: a skipped field may
/// not be updated.
pub fn field_update_allowed(field: &FieldIr) -> (allowed: bool)
    ensures
        allowed == !has_named(field.attributes@, HelperName::Skip),
{
    !has_helper(&field.attributes, HelperName::Skip)
}

/// Where a field's default value comes from.
#[derive(Clone, Copy, Debug)]
pub enum DefaultProviderIr<'a> {
    /// The field type's `Default` implementation.
    TypeDefault,
    /// A function called without arguments.
    Function(&'a PathIr),
}

/// Whether every `default` helper among the helpers carries a provider path
/// value, as the helper grammar produces it.
pub open spec fn default_values_well_formed(attributes: Seq<HelperAttributeIr>) -> bool {
    forall|k: int|
        0 <= k < attributes.len() && (#[trigger] attributes[k]).name == HelperName::Default
            ==> attributes[k].value is DefaultPath
}

/// Returns where a field's default value comes from: the first `default`
/// helper names a function, or asks for the type's `Default`; `None` when
/// the field has no `default` helper.
pub fn default_provider(field: &FieldIr) -> (provider: Option<DefaultProviderIr<'_>>)
    requires
        default_values_well_formed(field.attributes@),
    ensures
        match provider {
            None => !has_named(field.attributes@, HelperName::Default),
            Some(provider) => first_named(field.attributes@, HelperName::Default) matches Some(k) && match (
                provider,
                field.attributes@[k].value,
            ) {
                (DefaultProviderIr::TypeDefault, HelperValueIr::DefaultPath(None)) => true,
                (DefaultProviderIr::Function(path), HelperValueIr::DefaultPath(Some(expected))) => *path
                    == expected,
                _ => false,
            },
        },
{
    match find_helper(&field.attributes, HelperName::Default) {
        None => None,
        Some(index) => {
            proof {
                assert(field.attributes@[index as int].name == HelperName::Default) by {
                    assert(first_named(field.attributes@, HelperName::Default) == Some(index as int));
                    assert(crate::validate::is_first_named(field.attributes@, HelperName::Default, index as int));
                }
            }
            match &field.attributes[index].value {
                HelperValueIr::DefaultPath(None) => Some(DefaultProviderIr::TypeDefault),
                HelperValueIr::DefaultPath(Some(path)) => Some(DefaultProviderIr::Function(path)),
                _ => {
                    proof {
                        assert(false);
                    }
                    None
                },
            }
        },
    }
}

/// Returns whether an enum variant gets a constructor: neither `skip` nor
/// `no_construct` is set on it.
pub fn variant_constructible(variant: &VariantIr) -> (constructible: bool)
    ensures
        constructible == !(has_named(variant.attributes@, HelperName::Skip) || has_named(
            variant.attributes@,
            HelperName::NoConstruct,
        )),
{
    !(has_helper(&variant.attributes, HelperName::Skip) || has_helper(&variant.attributes, HelperName::NoConstruct))
}

/// The first rename literal among the helpers, if any.
pub open spec fn first_rename(attributes: Seq<HelperAttributeIr>) -> Option<Seq<char>>
    decreases attributes.len(),
{
    if attributes.len() == 0 {
        None
    } else {
        match rename_value(attributes[0]) {
            Some(value) => Some(value),
            None => first_rename(attributes.drop_first()),
        }
    }
}

/// The query name of a field: none for an unnamed field, else its first
/// rename or its identifier.
pub open spec fn query_name_of(field: FieldIr) -> Option<Seq<char>> {
    match field.name {
        None => None,
        Some(name) => match first_rename(field.attributes@) {
            Some(value) => Some(value),
            None => Some(name@),
        },
    }
}

/// Returns the query name of a field.
pub fn field_query_name(field: &FieldIr) -> (query: Option<String>)
    ensures
        match (query, query_name_of(*field)) {
            (Some(query), Some(expected)) => query@ == expected,
            (None, None) => true,
            _ => false,
        },
{
    let name = match &field.name {
        None => {
            return None;
        },
        Some(name) => name,
    };
    let mut index: usize = 0;
    proof {
        assert(field.attributes@.skip(0) == field.attributes@);
    }
    while index < field.attributes.len()
        invariant
            index <= field.attributes@.len(),
            field.name == Some(*name),
            first_rename(field.attributes@) == first_rename(field.attributes@.skip(index as int)),
        decreases field.attributes.len() - index,
    {
        assert(field.attributes@.skip(index as int).drop_first() == field.attributes@.skip(index + 1));
        assert(field.attributes@.skip(index as int)[0] == field.attributes@[index as int]);
        if let Some(value) = field.attributes[index].rename() {
            assert(first_rename(field.attributes@.skip(index as int)) == Some(value@));
            return Some(value.clone());
        }
        index += 1;
    }
    Some(name.clone())
}

/// A capability requested with `capabilities(...)`.
#[derive(Clone, Copy, Debug, PartialEq, Eq, Structural)]
pub enum CapabilityIr {
    Clone,
    Default,
    Send,
    Sync,
    /// A user capability path called as a descriptor provider.
    Custom,
}

/// Whether `text` holds `::` at position `i`.
pub open spec fn separator_at(text: Seq<char>, i: int) -> bool {
    0 <= i && i + 1 < text.len() && text[i] == ':' && text[i + 1] == ':'
}

/// The text after the last `::` of `text`, or all of it.
pub open spec fn last_piece(text: Seq<char>) -> Seq<char> {
    if exists|i: int| separator_at(text, i) {
        let i = choose|i: int| separator_at(text, i) && forall|j: int| i < j ==> !separator_at(text, j);
        text.skip(i + 2)
    } else {
        text
    }
}

/// The capability a path requests, by the text after its last `::`.
pub open spec fn capability_of(source: Seq<char>) -> CapabilityIr {
    let piece = last_piece(source);
    if piece == "Clone"@ {
        CapabilityIr::Clone
    } else if piece == "Default"@ {
        CapabilityIr::Default
    } else if piece == "Send"@ {
        CapabilityIr::Send
    } else if piece == "Sync"@ {
        CapabilityIr::Sync
    } else {
        CapabilityIr::Custom
    }
}

fn piece_after_last_separator(text: &str) -> (piece: Vec<char>)
    ensures
        piece@ == last_piece(text@),
{
    let characters = chars_of(text);
    let mut index = characters.len();
    while index >= 2
        invariant
            characters@ == text@,
            index <= characters@.len(),
            forall|j: int| index - 1 <= j ==> !separator_at(text@, j),
        decreases index,
    {
        if characters[index - 2] == ':' && characters[index - 1] == ':' {
            let ghost found = index - 2;
            assert(separator_at(text@, found));
            assert(separator_at(text@, found) && forall|j: int| found < j ==> !separator_at(text@, j));
            let ghost chosen = choose|i: int| separator_at(text@, i) && forall|j: int| i < j ==> !separator_at(text@, j);
            assert(chosen == found) by {
                if chosen < found {
                    assert(!separator_at(text@, found));
                } else if chosen > found {
                    assert(!separator_at(text@, chosen));
                }
            }
            let mut piece: Vec<char> = Vec::new();
            let mut k = index;
            while k < characters.len()
                invariant
                    characters@ == text@,
                    index <= k <= characters@.len(),
                    piece@ == text@.subrange(index as int, k as int),
                decreases characters.len() - k,
            {
                piece.push(characters[k]);
                assert(text@.subrange(index as int, k + 1) == text@.subrange(index as int, k as int).push(
                    text@[k as int],
                ));
                k += 1;
            }
            assert(text@.skip(found + 2) =~= text@.subrange(index as int, characters@.len() as int));
            return piece;
        }
        index -= 1;
    }
    assert(!exists|i: int| separator_at(text@, i));
    characters
}

fn chars_equal(left: &Vec<char>, right: &str) -> (equal: bool)
    ensures
        equal == (left@ == right@),
{
    let expected = chars_of(right);
    if left.len() != expected.len() {
        return false;
    }
    let mut index: usize = 0;
    while index < left.len()
        invariant
            expected@ == right@,
            left@.len() == expected@.len(),
            index <= left@.len(),
            forall|j: int| 0 <= j < index ==> left@[j] == expected@[j],
        decreases left.len() - index,
    {
        if left[index] != expected[index] {
            assert(left@[index as int] != right@[index as int]);
            return false;
        }
        index += 1;
    }
    assert(left@ =~= right@);
    true
}

/// Returns the capability a path requests.
pub fn capability_kind(path: &PathIr) -> (capability: CapabilityIr)
    ensures
        capability == capability_of(path.source@),
{
    let piece = piece_after_last_separator(path.source.as_str());
    if chars_equal(&piece, "Clone") {
        CapabilityIr::Clone
    } else if chars_equal(&piece, "Default") {
        CapabilityIr::Default
    } else if chars_equal(&piece, "Send") {
        CapabilityIr::Send
    } else if chars_equal(&piece, "Sync") {
        CapabilityIr::Sync
    } else {
        CapabilityIr::Custom
    }
}

/// The runtime visibility of a member.
#[derive(Clone, Copy, Debug, PartialEq, Eq, Structural)]
pub enum RuntimeVisibilityIr {
    Public,
    Crate,
    Super,
    Private,
    /// Restricted to the path of the source visibility.
    Restricted,
}

/// The runtime visibility of a source visibility: `pub(self)` and an
/// inherited visibility are private.
pub open spec fn runtime_visibility_of(visibility: VisibilityIr) -> RuntimeVisibilityIr {
    match visibility {
        VisibilityIr::Public => RuntimeVisibilityIr::Public,
        VisibilityIr::Crate => RuntimeVisibilityIr::Crate,
        VisibilityIr::Super => RuntimeVisibilityIr::Super,
        VisibilityIr::SelfValue => RuntimeVisibilityIr::Private,
        VisibilityIr::Inherited => RuntimeVisibilityIr::Private,
        VisibilityIr::Restricted(_) => RuntimeVisibilityIr::Restricted,
    }
}

/// Returns the runtime visibility of a source visibility.
pub fn runtime_visibility(visibility: &VisibilityIr) -> (runtime: RuntimeVisibilityIr)
    ensures
        runtime == runtime_visibility_of(*visibility),
{
    match visibility {
        VisibilityIr::Public => RuntimeVisibilityIr::Public,
        VisibilityIr::Crate => RuntimeVisibilityIr::Crate,
        VisibilityIr::Super => RuntimeVisibilityIr::Super,
        VisibilityIr::SelfValue => RuntimeVisibilityIr::Private,
        VisibilityIr::Inherited => RuntimeVisibilityIr::Private,
        VisibilityIr::Restricted(_) => RuntimeVisibilityIr::Restricted,
    }
}

} // verus!

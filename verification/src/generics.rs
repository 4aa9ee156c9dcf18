//! Occurrences of generic parameters in field types, and the generic facts
//! that reflected metadata derives from them.

use vstd::prelude::*;

use crate::ir::GenericBoundIr;
use crate::ir::PathArgumentIr;
use crate::ir::PathArgumentsIr;
use crate::ir::PathSegmentIr;
use crate::ir::TokenTreeIr;
use crate::ir::TypeIr;
use crate::ir::TypeKindIr;
use crate::text::str_eq;

verus! {

// ---------------------------------------------------------------------------
// Type parameters
// ---------------------------------------------------------------------------

/// Whether a type refers to the type parameter `parameter`: as the first
/// segment of a path, or nested in a qualified self type, in path arguments,
/// in element types, or in trait bounds.
pub open spec fn uses_parameter(ty: TypeIr, parameter: Seq<char>) -> bool
    decreases ty,
{
    match ty.kind {
        TypeKindIr::Path(path) => {
            ||| (match path.qualified_self {
                Some(qualified) => uses_parameter(qualified.ty, parameter),
                None => false,
            })
            ||| (path.segments@.len() > 0 && path.segments@[0].name@ == parameter)
            ||| segments_use_parameter(path.segments@, parameter)
        },
        TypeKindIr::Reference { element, .. } => uses_parameter(*element, parameter),
        TypeKindIr::Slice(element) => uses_parameter(*element, parameter),
        TypeKindIr::Pointer { element, .. } => uses_parameter(*element, parameter),
        TypeKindIr::Array { element, .. } => uses_parameter(*element, parameter),
        TypeKindIr::Tuple(elements) => types_use_parameter(elements@, parameter),
        TypeKindIr::BareFunction { inputs, output, .. } => {
            types_use_parameter(inputs@, parameter) || match output {
                Some(output) => uses_parameter(*output, parameter),
                None => false,
            }
        },
        TypeKindIr::TraitObject { bounds, .. } => bounds_use_parameter(bounds@, parameter),
        TypeKindIr::ImplTrait { bounds } => bounds_use_parameter(bounds@, parameter),
        _ => false,
    }
}

/// Whether some type of the list refers to `parameter`.
pub open spec fn types_use_parameter(types: Seq<TypeIr>, parameter: Seq<char>) -> bool
    decreases types,
{
    if types.len() == 0 {
        false
    } else {
        uses_parameter(types[0], parameter) || types_use_parameter(types.drop_first(), parameter)
    }
}

/// Whether the arguments of some segment refer to `parameter`.
pub open spec fn segments_use_parameter(segments: Seq<PathSegmentIr>, parameter: Seq<char>) -> bool
    decreases segments,
{
    if segments.len() == 0 {
        false
    } else {
        arguments_use_parameter(segments[0].arguments, parameter) || segments_use_parameter(
            segments.drop_first(),
            parameter,
        )
    }
}

/// Whether path arguments contain `parameter` in a type position.
pub open spec fn arguments_use_parameter(arguments: PathArgumentsIr, parameter: Seq<char>) -> bool
    decreases arguments,
{
    match arguments {
        PathArgumentsIr::Empty => false,
        PathArgumentsIr::AngleBracketed(items) => argument_list_uses_parameter(items@, parameter),
        PathArgumentsIr::Parenthesized { inputs, output } => {
            types_use_parameter(inputs@, parameter) || match output {
                Some(output) => uses_parameter(*output, parameter),
                None => false,
            }
        },
    }
}

/// Whether some angle-bracketed argument refers to `parameter`.
pub open spec fn argument_list_uses_parameter(items: Seq<PathArgumentIr>, parameter: Seq<char>) -> bool
    decreases items,
{
    if items.len() == 0 {
        false
    } else {
        argument_uses_parameter(items[0], parameter) || argument_list_uses_parameter(items.drop_first(), parameter)
    }
}

/// Whether one angle-bracketed argument refers to `parameter`.
pub open spec fn argument_uses_parameter(item: PathArgumentIr, parameter: Seq<char>) -> bool
    decreases item,
{
    match item {
        PathArgumentIr::Type(ty) => uses_parameter(ty, parameter),
        PathArgumentIr::AssociatedType { ty, .. } => uses_parameter(ty, parameter),
        PathArgumentIr::Constraint { bounds, .. } => bounds_use_parameter(bounds@, parameter),
        _ => false,
    }
}

/// Whether some bound of the list refers to `parameter`.
pub open spec fn bounds_use_parameter(bounds: Seq<GenericBoundIr>, parameter: Seq<char>) -> bool
    decreases bounds,
{
    if bounds.len() == 0 {
        false
    } else {
        bound_uses_parameter_spec(bounds[0], parameter) || bounds_use_parameter(bounds.drop_first(), parameter)
    }
}

/// Whether one trait bound path refers to `parameter`.
pub open spec fn bound_uses_parameter_spec(bound: GenericBoundIr, parameter: Seq<char>) -> bool
    decreases bound,
{
    match bound {
        GenericBoundIr::Trait { path, .. } => {
            (match path.qualified_self {
                Some(qualified) => uses_parameter(qualified.ty, parameter),
                None => false,
            }) || segments_use_parameter(path.segments@, parameter)
        },
        _ => false,
    }
}

/// Returns whether one structured type node refers to `parameter`.
pub fn type_uses_parameter(ty: &TypeIr, parameter: &str) -> (uses: bool)
    ensures
        uses == uses_parameter(*ty, parameter@),
    decreases ty,
{
    match &ty.kind {
        TypeKindIr::Path(path) => {
            let qualified = match &path.qualified_self {
                Some(qualified) => type_uses_parameter(&qualified.ty, parameter),
                None => false,
            };
            let first = path.segments.len() > 0 && str_eq(path.segments[0].name.as_str(), parameter);
            qualified || first || segments_use_parameter_exec(&path.segments, parameter)
        },
        TypeKindIr::Reference { element, .. } => type_uses_parameter(element, parameter),
        TypeKindIr::Slice(element) => type_uses_parameter(element, parameter),
        TypeKindIr::Pointer { element, .. } => type_uses_parameter(element, parameter),
        TypeKindIr::Array { element, .. } => type_uses_parameter(element, parameter),
        TypeKindIr::Tuple(elements) => types_use_parameter_exec(elements, parameter),
        TypeKindIr::BareFunction { inputs, output, .. } => {
            types_use_parameter_exec(inputs, parameter) || match output {
                Some(output) => type_uses_parameter(output, parameter),
                None => false,
            }
        },
        TypeKindIr::TraitObject { bounds, .. } => bounds_use_parameter_exec(bounds, parameter),
        TypeKindIr::ImplTrait { bounds } => bounds_use_parameter_exec(bounds, parameter),
        _ => false,
    }
}

fn types_use_parameter_exec(types: &Vec<TypeIr>, parameter: &str) -> (uses: bool)
    ensures
        uses == types_use_parameter(types@, parameter@),
    decreases types,
{
    let mut index = types.len();
    let mut uses = false;
    while index > 0
        invariant
            index <= types.len(),
            uses == types_use_parameter(types@.skip(index as int), parameter@),
        decreases index,
    {
        index -= 1;
        let here = type_uses_parameter(&types[index], parameter);
        assert(types@.skip(index as int).drop_first() == types@.skip(index + 1));
        uses = here || uses;
    }
    assert(types@.skip(0) == types@);
    uses
}

fn segments_use_parameter_exec(segments: &Vec<PathSegmentIr>, parameter: &str) -> (uses: bool)
    ensures
        uses == segments_use_parameter(segments@, parameter@),
    decreases segments,
{
    let mut index = segments.len();
    let mut uses = false;
    while index > 0
        invariant
            index <= segments.len(),
            uses == segments_use_parameter(segments@.skip(index as int), parameter@),
        decreases index,
    {
        index -= 1;
        let here = path_arguments_use_parameter(&segments[index].arguments, parameter);
        assert(segments@.skip(index as int).drop_first() == segments@.skip(index + 1));
        uses = here || uses;
    }
    assert(segments@.skip(0) == segments@);
    uses
}

/// Returns whether path arguments contain `parameter` in a type position.
pub fn path_arguments_use_parameter(arguments: &PathArgumentsIr, parameter: &str) -> (uses: bool)
    ensures
        uses == arguments_use_parameter(*arguments, parameter@),
    decreases arguments,
{
    match arguments {
        PathArgumentsIr::Empty => false,
        PathArgumentsIr::AngleBracketed(items) => argument_list_uses_parameter_exec(items, parameter),
        PathArgumentsIr::Parenthesized { inputs, output } => {
            types_use_parameter_exec(inputs, parameter) || match output {
                Some(output) => type_uses_parameter(output, parameter),
                None => false,
            }
        },
    }
}

fn argument_list_uses_parameter_exec(items: &Vec<PathArgumentIr>, parameter: &str) -> (uses: bool)
    ensures
        uses == argument_list_uses_parameter(items@, parameter@),
    decreases items,
{
    let mut index = items.len();
    let mut uses = false;
    while index > 0
        invariant
            index <= items.len(),
            uses == argument_list_uses_parameter(items@.skip(index as int), parameter@),
        decreases index,
    {
        index -= 1;
        let here = argument_uses_parameter_exec(&items[index], parameter);
        assert(items@.skip(index as int).drop_first() == items@.skip(index + 1));
        uses = here || uses;
    }
    assert(items@.skip(0) == items@);
    uses
}

fn argument_uses_parameter_exec(item: &PathArgumentIr, parameter: &str) -> (uses: bool)
    ensures
        uses == argument_uses_parameter(*item, parameter@),
    decreases item,
{
    match item {
        PathArgumentIr::Type(ty) => type_uses_parameter(ty, parameter),
        PathArgumentIr::AssociatedType { ty, .. } => type_uses_parameter(ty, parameter),
        PathArgumentIr::Constraint { bounds, .. } => bounds_use_parameter_exec(bounds, parameter),
        _ => false,
    }
}

fn bounds_use_parameter_exec(bounds: &Vec<GenericBoundIr>, parameter: &str) -> (uses: bool)
    ensures
        uses == bounds_use_parameter(bounds@, parameter@),
    decreases bounds,
{
    let mut index = bounds.len();
    let mut uses = false;
    while index > 0
        invariant
            index <= bounds.len(),
            uses == bounds_use_parameter(bounds@.skip(index as int), parameter@),
        decreases index,
    {
        index -= 1;
        let here = bound_uses_parameter(&bounds[index], parameter);
        assert(bounds@.skip(index as int).drop_first() == bounds@.skip(index + 1));
        uses = here || uses;
    }
    assert(bounds@.skip(0) == bounds@);
    uses
}

/// Returns whether one trait bound path refers to `parameter`.
pub fn bound_uses_parameter(bound: &GenericBoundIr, parameter: &str) -> (uses: bool)
    ensures
        uses == bound_uses_parameter_spec(*bound, parameter@),
    decreases bound,
{
    match bound {
        GenericBoundIr::Trait { path, .. } => {
            let qualified = match &path.qualified_self {
                Some(qualified) => type_uses_parameter(&qualified.ty, parameter),
                None => false,
            };
            qualified || segments_use_parameter_exec(&path.segments, parameter)
        },
        _ => false,
    }
}

// ---------------------------------------------------------------------------
// Lifetime parameters
// ---------------------------------------------------------------------------

/// A lifetime spelling without its leading apostrophes.
pub open spec fn trim_quotes(lifetime: Seq<char>) -> Seq<char>
    decreases lifetime.len(),
{
    if lifetime.len() > 0 && lifetime[0] == '\'' {
        trim_quotes(lifetime.drop_first())
    } else {
        lifetime
    }
}

/// Whether a lifetime spelling names the lifetime parameter `lifetime`.
pub open spec fn names_lifetime(candidate: Seq<char>, lifetime: Seq<char>) -> bool {
    trim_quotes(candidate) == lifetime
}

/// Whether a type refers to the outer lifetime parameter `lifetime`; a bare
/// function's own `for<...>` binder shadows it, and bounds are not searched.
pub open spec fn uses_lifetime(ty: TypeIr, lifetime: Seq<char>) -> bool
    decreases ty,
{
    match ty.kind {
        TypeKindIr::Path(path) => {
            (match path.qualified_self {
                Some(qualified) => uses_lifetime(qualified.ty, lifetime),
                None => false,
            }) || segments_use_lifetime(path.segments@, lifetime)
        },
        TypeKindIr::Reference { lifetime: reference, element, .. } => {
            (match reference {
                Some(reference) => names_lifetime(reference@, lifetime),
                None => false,
            }) || uses_lifetime(*element, lifetime)
        },
        TypeKindIr::Slice(element) => uses_lifetime(*element, lifetime),
        TypeKindIr::Pointer { element, .. } => uses_lifetime(*element, lifetime),
        TypeKindIr::Array { element, .. } => uses_lifetime(*element, lifetime),
        TypeKindIr::Tuple(elements) => types_use_lifetime(elements@, lifetime),
        TypeKindIr::BareFunction { lifetimes, inputs, output, .. } => {
            &&& !(exists|i: int| 0 <= i < lifetimes@.len() && names_lifetime(#[trigger] lifetimes@[i]@, lifetime))
            &&& (types_use_lifetime(inputs@, lifetime) || match output {
                Some(output) => uses_lifetime(*output, lifetime),
                None => false,
            })
        },
        _ => false,
    }
}

/// Whether some type of the list refers to `lifetime`.
pub open spec fn types_use_lifetime(types: Seq<TypeIr>, lifetime: Seq<char>) -> bool
    decreases types,
{
    if types.len() == 0 {
        false
    } else {
        uses_lifetime(types[0], lifetime) || types_use_lifetime(types.drop_first(), lifetime)
    }
}

/// Whether the arguments of some segment refer to `lifetime`.
pub open spec fn segments_use_lifetime(segments: Seq<PathSegmentIr>, lifetime: Seq<char>) -> bool
    decreases segments,
{
    if segments.len() == 0 {
        false
    } else {
        arguments_use_lifetime(segments[0].arguments, lifetime) || segments_use_lifetime(
            segments.drop_first(),
            lifetime,
        )
    }
}

/// Whether path arguments refer to `lifetime`.
pub open spec fn arguments_use_lifetime(arguments: PathArgumentsIr, lifetime: Seq<char>) -> bool
    decreases arguments,
{
    match arguments {
        PathArgumentsIr::Empty => false,
        PathArgumentsIr::AngleBracketed(items) => argument_list_uses_lifetime(items@, lifetime),
        PathArgumentsIr::Parenthesized { inputs, output } => {
            types_use_lifetime(inputs@, lifetime) || match output {
                Some(output) => uses_lifetime(*output, lifetime),
                None => false,
            }
        },
    }
}

/// Whether some angle-bracketed argument refers to `lifetime`.
pub open spec fn argument_list_uses_lifetime(items: Seq<PathArgumentIr>, lifetime: Seq<char>) -> bool
    decreases items,
{
    if items.len() == 0 {
        false
    } else {
        argument_uses_lifetime(items[0], lifetime) || argument_list_uses_lifetime(items.drop_first(), lifetime)
    }
}

/// Whether one angle-bracketed argument refers to `lifetime`.
pub open spec fn argument_uses_lifetime(item: PathArgumentIr, lifetime: Seq<char>) -> bool
    decreases item,
{
    match item {
        PathArgumentIr::Lifetime(candidate) => names_lifetime(candidate@, lifetime),
        PathArgumentIr::Type(ty) => uses_lifetime(ty, lifetime),
        PathArgumentIr::AssociatedType { ty, .. } => uses_lifetime(ty, lifetime),
        _ => false,
    }
}

pub(crate) fn trimmed_equals(candidate: &str, lifetime: &str) -> (equal: bool)
    ensures
        equal == names_lifetime(candidate@, lifetime@),
{
    let characters = crate::text::chars_of(candidate);
    let mut start: usize = 0;
    assert(characters@.skip(0) == characters@);
    while start < characters.len() && characters[start] == '\''
        invariant
            characters@ == candidate@,
            start <= characters@.len(),
            trim_quotes(candidate@) == trim_quotes(characters@.skip(start as int)),
        decreases characters.len() - start,
    {
        assert(characters@.skip(start as int).drop_first() == characters@.skip(start + 1));
        start += 1;
    }
    let expected = crate::text::chars_of(lifetime);
    if characters.len() - start != expected.len() {
        return false;
    }
    let mut index: usize = 0;
    while index < expected.len()
        invariant
            characters@ == candidate@,
            expected@ == lifetime@,
            start <= characters@.len(),
            characters@.len() - start == expected@.len(),
            index <= expected@.len(),
            trim_quotes(candidate@) == characters@.skip(start as int),
            forall|j: int| 0 <= j < index ==> characters@[start + j] == expected@[j],
        decreases expected.len() - index,
    {
        assert(start + index < characters.len());
        if characters[start + index] != expected[index] {
            assert(characters@.skip(start as int)[index as int] != expected@[index as int]);
            return false;
        }
        index += 1;
    }
    assert(characters@.skip(start as int) =~= expected@);
    true
}

/// Returns whether one structured type node refers to an outer lifetime.
pub fn type_uses_lifetime(ty: &TypeIr, lifetime: &str) -> (uses: bool)
    ensures
        uses == uses_lifetime(*ty, lifetime@),
    decreases ty,
{
    match &ty.kind {
        TypeKindIr::Path(path) => {
            let qualified = match &path.qualified_self {
                Some(qualified) => type_uses_lifetime(&qualified.ty, lifetime),
                None => false,
            };
            qualified || segments_use_lifetime_exec(&path.segments, lifetime)
        },
        TypeKindIr::Reference { lifetime: reference, element, .. } => {
            let direct = match reference {
                Some(reference) => trimmed_equals(reference.as_str(), lifetime),
                None => false,
            };
            direct || type_uses_lifetime(element, lifetime)
        },
        TypeKindIr::Slice(element) => type_uses_lifetime(element, lifetime),
        TypeKindIr::Pointer { element, .. } => type_uses_lifetime(element, lifetime),
        TypeKindIr::Array { element, .. } => type_uses_lifetime(element, lifetime),
        TypeKindIr::Tuple(elements) => types_use_lifetime_exec(elements, lifetime),
        TypeKindIr::BareFunction { lifetimes, inputs, output, .. } => {
            let shadowed = binder_names_lifetime(lifetimes, lifetime);
            !shadowed && (types_use_lifetime_exec(inputs, lifetime) || match output {
                Some(output) => type_uses_lifetime(output, lifetime),
                None => false,
            })
        },
        _ => false,
    }
}

fn binder_names_lifetime(lifetimes: &Vec<String>, lifetime: &str) -> (found: bool)
    ensures
        found == exists|i: int| 0 <= i < lifetimes@.len() && names_lifetime(#[trigger] lifetimes@[i]@, lifetime@),
{
    let mut index: usize = 0;
    while index < lifetimes.len()
        invariant
            index <= lifetimes@.len(),
            forall|j: int| 0 <= j < index ==> !names_lifetime(#[trigger] lifetimes@[j]@, lifetime@),
        decreases lifetimes.len() - index,
    {
        if trimmed_equals(lifetimes[index].as_str(), lifetime) {
            return true;
        }
        index += 1;
    }
    false
}

fn types_use_lifetime_exec(types: &Vec<TypeIr>, lifetime: &str) -> (uses: bool)
    ensures
        uses == types_use_lifetime(types@, lifetime@),
    decreases types,
{
    let mut index = types.len();
    let mut uses = false;
    while index > 0
        invariant
            index <= types.len(),
            uses == types_use_lifetime(types@.skip(index as int), lifetime@),
        decreases index,
    {
        index -= 1;
        let here = type_uses_lifetime(&types[index], lifetime);
        assert(types@.skip(index as int).drop_first() == types@.skip(index + 1));
        uses = here || uses;
    }
    assert(types@.skip(0) == types@);
    uses
}

fn segments_use_lifetime_exec(segments: &Vec<PathSegmentIr>, lifetime: &str) -> (uses: bool)
    ensures
        uses == segments_use_lifetime(segments@, lifetime@),
    decreases segments,
{
    let mut index = segments.len();
    let mut uses = false;
    while index > 0
        invariant
            index <= segments.len(),
            uses == segments_use_lifetime(segments@.skip(index as int), lifetime@),
        decreases index,
    {
        index -= 1;
        let here = path_arguments_use_lifetime(&segments[index].arguments, lifetime);
        assert(segments@.skip(index as int).drop_first() == segments@.skip(index + 1));
        uses = here || uses;
    }
    assert(segments@.skip(0) == segments@);
    uses
}

/// Returns whether path arguments contain one outer lifetime.
pub fn path_arguments_use_lifetime(arguments: &PathArgumentsIr, lifetime: &str) -> (uses: bool)
    ensures
        uses == arguments_use_lifetime(*arguments, lifetime@),
    decreases arguments,
{
    match arguments {
        PathArgumentsIr::Empty => false,
        PathArgumentsIr::AngleBracketed(items) => argument_list_uses_lifetime_exec(items, lifetime),
        PathArgumentsIr::Parenthesized { inputs, output } => {
            types_use_lifetime_exec(inputs, lifetime) || match output {
                Some(output) => type_uses_lifetime(output, lifetime),
                None => false,
            }
        },
    }
}

fn argument_list_uses_lifetime_exec(items: &Vec<PathArgumentIr>, lifetime: &str) -> (uses: bool)
    ensures
        uses == argument_list_uses_lifetime(items@, lifetime@),
    decreases items,
{
    let mut index = items.len();
    let mut uses = false;
    while index > 0
        invariant
            index <= items.len(),
            uses == argument_list_uses_lifetime(items@.skip(index as int), lifetime@),
        decreases index,
    {
        index -= 1;
        let here = argument_uses_lifetime_exec(&items[index], lifetime);
        assert(items@.skip(index as int).drop_first() == items@.skip(index + 1));
        uses = here || uses;
    }
    assert(items@.skip(0) == items@);
    uses
}

fn argument_uses_lifetime_exec(item: &PathArgumentIr, lifetime: &str) -> (uses: bool)
    ensures
        uses == argument_uses_lifetime(*item, lifetime@),
    decreases item,
{
    match item {
        PathArgumentIr::Lifetime(candidate) => trimmed_equals(candidate.as_str(), lifetime),
        PathArgumentIr::Type(ty) => type_uses_lifetime(ty, lifetime),
        PathArgumentIr::AssociatedType { ty, .. } => type_uses_lifetime(ty, lifetime),
        _ => false,
    }
}

// ---------------------------------------------------------------------------
// Const parameters
// ---------------------------------------------------------------------------

/// Whether a const-expression token sequence is exactly the parameter's
/// identifier path.
pub open spec fn tokens_are_parameter(tokens: Seq<TokenTreeIr>, parameter: Seq<char>) -> bool {
    tokens.len() == 1 && match tokens[0] {
        TokenTreeIr::Ident { name, .. } => name@ == parameter,
        _ => false,
    }
}

/// Whether `ty` is the bare single-segment path `parameter`.
pub open spec fn is_parameter_type(ty: TypeIr, parameter: Seq<char>) -> bool {
    match ty.kind {
        TypeKindIr::Path(path) => {
            &&& path.qualified_self is None
            &&& path.segments@.len() == 1
            &&& path.segments@[0].name@ == parameter
            &&& path.segments@[0].arguments is Empty
        },
        _ => false,
    }
}

/// Whether a type refers to the const parameter `parameter`, directly, as an
/// array length, or as a const generic argument.
pub open spec fn uses_const(ty: TypeIr, parameter: Seq<char>) -> bool
    decreases ty,
{
    if is_parameter_type(ty, parameter) {
        true
    } else {
        match ty.kind {
            TypeKindIr::Path(path) => {
                (match path.qualified_self {
                    Some(qualified) => uses_const(qualified.ty, parameter),
                    None => false,
                }) || segments_use_const(path.segments@, parameter)
            },
            TypeKindIr::Reference { element, .. } => uses_const(*element, parameter),
            TypeKindIr::Slice(element) => uses_const(*element, parameter),
            TypeKindIr::Pointer { element, .. } => uses_const(*element, parameter),
            TypeKindIr::Array { element, length } => tokens_are_parameter(length@, parameter) || uses_const(
                *element,
                parameter,
            ),
            TypeKindIr::Tuple(elements) => types_use_const(elements@, parameter),
            TypeKindIr::BareFunction { inputs, output, .. } => {
                types_use_const(inputs@, parameter) || match output {
                    Some(output) => uses_const(*output, parameter),
                    None => false,
                }
            },
            _ => false,
        }
    }
}

/// Whether some type of the list refers to the const parameter.
pub open spec fn types_use_const(types: Seq<TypeIr>, parameter: Seq<char>) -> bool
    decreases types,
{
    if types.len() == 0 {
        false
    } else {
        uses_const(types[0], parameter) || types_use_const(types.drop_first(), parameter)
    }
}

/// Whether the arguments of some segment refer to the const parameter.
pub open spec fn segments_use_const(segments: Seq<PathSegmentIr>, parameter: Seq<char>) -> bool
    decreases segments,
{
    if segments.len() == 0 {
        false
    } else {
        arguments_use_const(segments[0].arguments, parameter) || segments_use_const(segments.drop_first(), parameter)
    }
}

/// Whether path arguments refer to the const parameter.
pub open spec fn arguments_use_const(arguments: PathArgumentsIr, parameter: Seq<char>) -> bool
    decreases arguments,
{
    match arguments {
        PathArgumentsIr::Empty => false,
        PathArgumentsIr::AngleBracketed(items) => argument_list_uses_const(items@, parameter),
        PathArgumentsIr::Parenthesized { inputs, output } => {
            types_use_const(inputs@, parameter) || match output {
                Some(output) => uses_const(*output, parameter),
                None => false,
            }
        },
    }
}

/// Whether some angle-bracketed argument refers to the const parameter.
pub open spec fn argument_list_uses_const(items: Seq<PathArgumentIr>, parameter: Seq<char>) -> bool
    decreases items,
{
    if items.len() == 0 {
        false
    } else {
        argument_uses_const(items[0], parameter) || argument_list_uses_const(items.drop_first(), parameter)
    }
}

/// Whether one angle-bracketed argument refers to the const parameter.
pub open spec fn argument_uses_const(item: PathArgumentIr, parameter: Seq<char>) -> bool
    decreases item,
{
    match item {
        PathArgumentIr::Const(value) => tokens_are_parameter(value@, parameter),
        PathArgumentIr::AssociatedConst { value, .. } => tokens_are_parameter(value@, parameter),
        PathArgumentIr::Type(ty) => uses_const(ty, parameter),
        PathArgumentIr::AssociatedType { ty, .. } => uses_const(ty, parameter),
        _ => false,
    }
}

/// Returns whether a const-expression token sequence is exactly the
/// parameter's identifier path.
pub fn token_is_parameter(tokens: &Vec<TokenTreeIr>, parameter: &str) -> (is_parameter: bool)
    ensures
        is_parameter == tokens_are_parameter(tokens@, parameter@),
{
    if tokens.len() != 1 {
        return false;
    }
    match &tokens[0] {
        TokenTreeIr::Ident { name, .. } => str_eq(name.as_str(), parameter),
        _ => false,
    }
}

/// Returns whether `ty` is the direct generic parameter named `parameter`.
pub fn type_is_parameter(ty: &TypeIr, parameter: &str) -> (is_parameter: bool)
    ensures
        is_parameter == is_parameter_type(*ty, parameter@),
{
    match &ty.kind {
        TypeKindIr::Path(path) => {
            path.qualified_self.is_none() && path.segments.len() == 1 && str_eq(
                path.segments[0].name.as_str(),
                parameter,
            ) && match &path.segments[0].arguments {
                PathArgumentsIr::Empty => true,
                _ => false,
            }
        },
        _ => false,
    }
}

/// Returns whether one structured type node refers to an outer const generic.
pub fn type_uses_const(ty: &TypeIr, parameter: &str) -> (uses: bool)
    ensures
        uses == uses_const(*ty, parameter@),
    decreases ty,
{
    if type_is_parameter(ty, parameter) {
        return true;
    }
    match &ty.kind {
        TypeKindIr::Path(path) => {
            let qualified = match &path.qualified_self {
                Some(qualified) => type_uses_const(&qualified.ty, parameter),
                None => false,
            };
            qualified || segments_use_const_exec(&path.segments, parameter)
        },
        TypeKindIr::Reference { element, .. } => type_uses_const(element, parameter),
        TypeKindIr::Slice(element) => type_uses_const(element, parameter),
        TypeKindIr::Pointer { element, .. } => type_uses_const(element, parameter),
        TypeKindIr::Array { element, length } => token_is_parameter(length, parameter) || type_uses_const(
            element,
            parameter,
        ),
        TypeKindIr::Tuple(elements) => types_use_const_exec(elements, parameter),
        TypeKindIr::BareFunction { inputs, output, .. } => {
            types_use_const_exec(inputs, parameter) || match output {
                Some(output) => type_uses_const(output, parameter),
                None => false,
            }
        },
        _ => false,
    }
}

fn types_use_const_exec(types: &Vec<TypeIr>, parameter: &str) -> (uses: bool)
    ensures
        uses == types_use_const(types@, parameter@),
    decreases types,
{
    let mut index = types.len();
    let mut uses = false;
    while index > 0
        invariant
            index <= types.len(),
            uses == types_use_const(types@.skip(index as int), parameter@),
        decreases index,
    {
        index -= 1;
        let here = type_uses_const(&types[index], parameter);
        assert(types@.skip(index as int).drop_first() == types@.skip(index + 1));
        uses = here || uses;
    }
    assert(types@.skip(0) == types@);
    uses
}

fn segments_use_const_exec(segments: &Vec<PathSegmentIr>, parameter: &str) -> (uses: bool)
    ensures
        uses == segments_use_const(segments@, parameter@),
    decreases segments,
{
    let mut index = segments.len();
    let mut uses = false;
    while index > 0
        invariant
            index <= segments.len(),
            uses == segments_use_const(segments@.skip(index as int), parameter@),
        decreases index,
    {
        index -= 1;
        let here = path_arguments_use_const(&segments[index].arguments, parameter);
        assert(segments@.skip(index as int).drop_first() == segments@.skip(index + 1));
        uses = here || uses;
    }
    assert(segments@.skip(0) == segments@);
    uses
}

/// Returns whether path arguments contain one outer const generic.
pub fn path_arguments_use_const(arguments: &PathArgumentsIr, parameter: &str) -> (uses: bool)
    ensures
        uses == arguments_use_const(*arguments, parameter@),
    decreases arguments,
{
    match arguments {
        PathArgumentsIr::Empty => false,
        PathArgumentsIr::AngleBracketed(items) => argument_list_uses_const_exec(items, parameter),
        PathArgumentsIr::Parenthesized { inputs, output } => {
            types_use_const_exec(inputs, parameter) || match output {
                Some(output) => type_uses_const(output, parameter),
                None => false,
            }
        },
    }
}

fn argument_list_uses_const_exec(items: &Vec<PathArgumentIr>, parameter: &str) -> (uses: bool)
    ensures
        uses == argument_list_uses_const(items@, parameter@),
    decreases items,
{
    let mut index = items.len();
    let mut uses = false;
    while index > 0
        invariant
            index <= items.len(),
            uses == argument_list_uses_const(items@.skip(index as int), parameter@),
        decreases index,
    {
        index -= 1;
        let here = argument_uses_const_exec(&items[index], parameter);
        assert(items@.skip(index as int).drop_first() == items@.skip(index + 1));
        uses = here || uses;
    }
    assert(items@.skip(0) == items@);
    uses
}

fn argument_uses_const_exec(item: &PathArgumentIr, parameter: &str) -> (uses: bool)
    ensures
        uses == argument_uses_const(*item, parameter@),
    decreases item,
{
    match item {
        PathArgumentIr::Const(value) => token_is_parameter(value, parameter),
        PathArgumentIr::AssociatedConst { value, .. } => token_is_parameter(value, parameter),
        PathArgumentIr::Type(ty) => type_uses_const(ty, parameter),
        PathArgumentIr::AssociatedType { ty, .. } => type_uses_const(ty, parameter),
        _ => false,
    }
}

} // verus!

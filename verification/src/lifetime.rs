//! Static-lifetime eligibility of types that cross a dynamic invocation
//! boundary.

use vstd::prelude::*;

use crate::ir::GenericBoundIr;
use crate::ir::PathArgumentIr;
use crate::ir::PathArgumentsIr;
use crate::ir::PathIr;
use crate::ir::PathSegmentIr;
use crate::ir::TypeIr;
use crate::ir::TypeKindIr;
use crate::generics::trim_quotes;
use crate::text::chars_of;
use crate::text::push_char;
use crate::text::str_eq;

verus! {

/// Whether a lifetime spelling is anything but `'static`.
pub open spec fn is_non_static(lifetime: Seq<char>) -> bool {
    lifetime != "'static"@
}

/// Whether some lifetime of the list is not `'static`.
pub open spec fn some_non_static(lifetimes: Seq<String>) -> bool {
    exists|i: int| 0 <= i < lifetimes.len() && is_non_static(#[trigger] lifetimes[i]@)
}

/// Whether a type may retain a borrow that is not `'static`.
pub open spec fn type_non_static(ty: TypeIr) -> bool
    decreases ty,
{
    match ty.kind {
        TypeKindIr::Path(path) => path_non_static(path),
        TypeKindIr::Reference { .. } => true,
        TypeKindIr::Tuple(items) => types_non_static(items@),
        TypeKindIr::Slice(element) => type_non_static(*element),
        TypeKindIr::Array { element, .. } => type_non_static(*element),
        TypeKindIr::Pointer { element, .. } => type_non_static(*element),
        TypeKindIr::BareFunction { lifetimes, inputs, output, .. } => {
            some_non_static(lifetimes@) || types_non_static(inputs@) || match output {
                Some(output) => type_non_static(*output),
                None => false,
            }
        },
        TypeKindIr::TraitObject { bounds, .. } => bounds_non_static(bounds@),
        TypeKindIr::ImplTrait { bounds } => bounds_non_static(bounds@),
        TypeKindIr::Never => false,
        TypeKindIr::Infer => true,
        TypeKindIr::Macro => true,
        TypeKindIr::Other => true,
    }
}

/// Whether some type of the list may retain a non-static borrow.
pub open spec fn types_non_static(types: Seq<TypeIr>) -> bool
    decreases types,
{
    if types.len() == 0 {
        false
    } else {
        type_non_static(types[0]) || types_non_static(types.drop_first())
    }
}

/// Whether a path (its qualified self or its arguments) retains a non-static
/// lifetime.
pub open spec fn path_non_static(path: PathIr) -> bool
    decreases path,
{
    (match path.qualified_self {
        Some(qualified) => type_non_static(qualified.ty),
        None => false,
    }) || segments_non_static(path.segments@)
}

/// Whether some segment's arguments retain a non-static lifetime.
pub open spec fn segments_non_static(segments: Seq<PathSegmentIr>) -> bool
    decreases segments,
{
    if segments.len() == 0 {
        false
    } else {
        arguments_non_static(segments[0].arguments) || segments_non_static(segments.drop_first())
    }
}

/// Whether one argument list retains a non-static lifetime.
pub open spec fn arguments_non_static(arguments: PathArgumentsIr) -> bool
    decreases arguments,
{
    match arguments {
        PathArgumentsIr::Empty => false,
        PathArgumentsIr::AngleBracketed(items) => argument_list_non_static(items@),
        PathArgumentsIr::Parenthesized { inputs, output } => {
            types_non_static(inputs@) || match output {
                Some(output) => type_non_static(*output),
                None => false,
            }
        },
    }
}

/// Whether some angle-bracketed argument retains a non-static lifetime.
pub open spec fn argument_list_non_static(items: Seq<PathArgumentIr>) -> bool
    decreases items,
{
    if items.len() == 0 {
        false
    } else {
        argument_non_static(items[0]) || argument_list_non_static(items.drop_first())
    }
}

/// Whether one angle-bracketed argument retains a non-static lifetime.
pub open spec fn argument_non_static(item: PathArgumentIr) -> bool
    decreases item,
{
    match item {
        PathArgumentIr::Lifetime(lifetime) => is_non_static(lifetime@),
        PathArgumentIr::Type(ty) => type_non_static(ty),
        PathArgumentIr::AssociatedType { ty, .. } => type_non_static(ty),
        PathArgumentIr::Constraint { bounds, .. } => bounds_non_static(bounds@),
        PathArgumentIr::Other(_) => true,
        PathArgumentIr::Const(_) => false,
        PathArgumentIr::AssociatedConst { .. } => false,
    }
}

/// Whether some bound of the list retains a non-static lifetime.
pub open spec fn bounds_non_static(bounds: Seq<GenericBoundIr>) -> bool
    decreases bounds,
{
    if bounds.len() == 0 {
        false
    } else {
        bound_non_static(bounds[0]) || bounds_non_static(bounds.drop_first())
    }
}

/// Whether one bound retains a non-static lifetime.
pub open spec fn bound_non_static(bound: GenericBoundIr) -> bool
    decreases bound,
{
    match bound {
        GenericBoundIr::Lifetime(lifetime) => is_non_static(lifetime@),
        GenericBoundIr::Trait { path, lifetimes, .. } => some_non_static(lifetimes@) || path_non_static(path),
        GenericBoundIr::Other(_) => true,
    }
}

fn lifetime_is_non_static(lifetime: &String) -> (result: bool)
    ensures
        result == is_non_static(lifetime@),
{
    !str_eq(lifetime.as_str(), "'static")
}

fn any_non_static(lifetimes: &Vec<String>) -> (result: bool)
    ensures
        result == some_non_static(lifetimes@),
{
    let mut index: usize = 0;
    while index < lifetimes.len()
        invariant
            index <= lifetimes.len(),
            forall|j: int| 0 <= j < index ==> !is_non_static(#[trigger] lifetimes@[j]@),
        decreases lifetimes.len() - index,
    {
        if lifetime_is_non_static(&lifetimes[index]) {
            return true;
        }
        index += 1;
    }
    false
}

/// Returns whether a type may retain a borrow that is not `'static`.
pub fn type_contains_non_static_lifetime(ty: &TypeIr) -> (result: bool)
    ensures
        result == type_non_static(*ty),
    decreases ty,
{
    match &ty.kind {
        TypeKindIr::Path(path) => path_contains_non_static_lifetime(path),
        TypeKindIr::Reference { .. } => true,
        TypeKindIr::Tuple(items) => any_type_non_static(items),
        TypeKindIr::Slice(element) => type_contains_non_static_lifetime(element),
        TypeKindIr::Array { element, .. } => type_contains_non_static_lifetime(element),
        TypeKindIr::Pointer { element, .. } => type_contains_non_static_lifetime(element),
        TypeKindIr::BareFunction { lifetimes, inputs, output, .. } => {
            any_non_static(lifetimes) || any_type_non_static(inputs) || match output {
                Some(output) => type_contains_non_static_lifetime(output),
                None => false,
            }
        },
        TypeKindIr::TraitObject { bounds, .. } => any_bound_non_static(bounds),
        TypeKindIr::ImplTrait { bounds } => any_bound_non_static(bounds),
        TypeKindIr::Never => false,
        TypeKindIr::Infer => true,
        TypeKindIr::Macro => true,
        TypeKindIr::Other => true,
    }
}

fn any_type_non_static(types: &Vec<TypeIr>) -> (result: bool)
    ensures
        result == types_non_static(types@),
    decreases types,
{
    let mut index = types.len();
    let mut result = false;
    while index > 0
        invariant
            index <= types.len(),
            result == types_non_static(types@.skip(index as int)),
        decreases index,
    {
        index -= 1;
        let here = type_contains_non_static_lifetime(&types[index]);
        assert(types@.skip(index as int).drop_first() == types@.skip(index + 1));
        result = here || result;
    }
    assert(types@.skip(0) == types@);
    result
}

/// Returns whether a path retains a non-static lifetime in its qualified
/// self type or in any segment's generic arguments.
pub fn path_contains_non_static_lifetime(path: &PathIr) -> (result: bool)
    ensures
        result == path_non_static(*path),
    decreases path,
{
    let qualified = match &path.qualified_self {
        Some(qualified) => type_contains_non_static_lifetime(&qualified.ty),
        None => false,
    };
    qualified || any_segment_non_static(&path.segments)
}

fn any_segment_non_static(segments: &Vec<PathSegmentIr>) -> (result: bool)
    ensures
        result == segments_non_static(segments@),
    decreases segments,
{
    let mut index = segments.len();
    let mut result = false;
    while index > 0
        invariant
            index <= segments.len(),
            result == segments_non_static(segments@.skip(index as int)),
        decreases index,
    {
        index -= 1;
        let here = arguments_contain_non_static(&segments[index].arguments);
        assert(segments@.skip(index as int).drop_first() == segments@.skip(index + 1));
        result = here || result;
    }
    assert(segments@.skip(0) == segments@);
    result
}

fn arguments_contain_non_static(arguments: &PathArgumentsIr) -> (result: bool)
    ensures
        result == arguments_non_static(*arguments),
    decreases arguments,
{
    match arguments {
        PathArgumentsIr::Empty => false,
        PathArgumentsIr::AngleBracketed(items) => any_argument_non_static(items),
        PathArgumentsIr::Parenthesized { inputs, output } => {
            any_type_non_static(inputs) || match output {
                Some(output) => type_contains_non_static_lifetime(output),
                None => false,
            }
        },
    }
}

fn any_argument_non_static(items: &Vec<PathArgumentIr>) -> (result: bool)
    ensures
        result == argument_list_non_static(items@),
    decreases items,
{
    let mut index = items.len();
    let mut result = false;
    while index > 0
        invariant
            index <= items.len(),
            result == argument_list_non_static(items@.skip(index as int)),
        decreases index,
    {
        index -= 1;
        let here = argument_contains_non_static(&items[index]);
        assert(items@.skip(index as int).drop_first() == items@.skip(index + 1));
        result = here || result;
    }
    assert(items@.skip(0) == items@);
    result
}

fn argument_contains_non_static(item: &PathArgumentIr) -> (result: bool)
    ensures
        result == argument_non_static(*item),
    decreases item,
{
    match item {
        PathArgumentIr::Lifetime(lifetime) => lifetime_is_non_static(lifetime),
        PathArgumentIr::Type(ty) => type_contains_non_static_lifetime(ty),
        PathArgumentIr::AssociatedType { ty, .. } => type_contains_non_static_lifetime(ty),
        PathArgumentIr::Constraint { bounds, .. } => any_bound_non_static(bounds),
        PathArgumentIr::Other(_) => true,
        PathArgumentIr::Const(_) => false,
        PathArgumentIr::AssociatedConst { .. } => false,
    }
}

fn any_bound_non_static(bounds: &Vec<GenericBoundIr>) -> (result: bool)
    ensures
        result == bounds_non_static(bounds@),
    decreases bounds,
{
    let mut index = bounds.len();
    let mut result = false;
    while index > 0
        invariant
            index <= bounds.len(),
            result == bounds_non_static(bounds@.skip(index as int)),
        decreases index,
    {
        index -= 1;
        let here = bound_contains_non_static_lifetime(&bounds[index]);
        assert(bounds@.skip(index as int).drop_first() == bounds@.skip(index + 1));
        result = here || result;
    }
    assert(bounds@.skip(0) == bounds@);
    result
}

/// Returns whether a bound retains a non-static lifetime.
pub fn bound_contains_non_static_lifetime(bound: &GenericBoundIr) -> (result: bool)
    ensures
        result == bound_non_static(*bound),
    decreases bound,
{
    match bound {
        GenericBoundIr::Lifetime(lifetime) => lifetime_is_non_static(lifetime),
        GenericBoundIr::Trait { path, lifetimes, .. } => {
            any_non_static(lifetimes) || path_contains_non_static_lifetime(path)
        },
        GenericBoundIr::Other(_) => true,
    }
}

// ---------------------------------------------------------------------------
// Lifetime expressions
// ---------------------------------------------------------------------------

/// The runtime model of a lifetime named in a bound.
#[derive(Debug)]
pub enum LifetimeExpressionIr {
    /// `'static`.
    Static,
    /// A named lifetime, without its quote.
    Named(String),
    /// A borrow whose lifetime is not written.
    Elided,
}

/// Whether a lifetime expression models the lifetime spelled `lifetime`.
pub open spec fn lifetime_expresses(expression: LifetimeExpressionIr, lifetime: Seq<char>) -> bool {
    match expression {
        LifetimeExpressionIr::Static => lifetime == "'static"@,
        LifetimeExpressionIr::Named(name) => lifetime != "'static"@ && name@ == trim_quotes(lifetime),
        LifetimeExpressionIr::Elided => false,
    }
}

/// Returns a lifetime spelling without its leading quotes.
pub fn lifetime_name(lifetime: &str) -> (name: String)
    ensures
        name@ == trim_quotes(lifetime@),
{
    let characters = chars_of(lifetime);
    let mut start: usize = 0;
    assert(characters@.skip(0) =~= characters@);
    while start < characters.len() && characters[start] == '\''
        invariant
            characters@ == lifetime@,
            start <= characters.len(),
            trim_quotes(lifetime@) == trim_quotes(characters@.skip(start as int)),
        decreases characters.len() - start,
    {
        assert(characters@.skip(start as int).drop_first() =~= characters@.skip(start + 1));
        start += 1;
    }
    let mut name = String::new();
    let mut index: usize = start;
    assert(name@ =~= characters@.subrange(start as int, start as int));
    while index < characters.len()
        invariant
            characters@ == lifetime@,
            start <= index <= characters.len(),
            name@ == characters@.subrange(start as int, index as int),
        decreases characters.len() - index,
    {
        push_char(&mut name, characters[index]);
        assert(name@ =~= characters@.subrange(start as int, index + 1));
        index += 1;
    }
    assert(characters@.skip(start as int) =~= characters@.subrange(start as int, characters.len() as int));
    name
}

/// Converts a lifetime spelling into its runtime model: `'static`, or a
/// named lifetime given without its quote.
pub fn lifetime_expression(lifetime: &str) -> (expression: LifetimeExpressionIr)
    ensures
        lifetime_expresses(expression, lifetime@),
{
    if str_eq(lifetime, "'static") {
        LifetimeExpressionIr::Static
    } else {
        LifetimeExpressionIr::Named(lifetime_name(lifetime))
    }
}

} // verus!

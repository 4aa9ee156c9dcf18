//! Associated-type occurrences in default-method signatures, whose concrete
//! `'static` bound cannot be proven at the trait declaration site.

use vstd::prelude::*;

use crate::ir::GenericBoundIr;
use crate::ir::PathArgumentIr;
use crate::ir::PathArgumentsIr;
use crate::ir::PathIr;
use crate::ir::PathSegmentIr;
use crate::ir::TypeIr;
use crate::ir::TypeKindIr;
use crate::text::str_eq;

verus! {

/// Whether a type may name an associated type: through a qualified path, a
/// `Self::Item` path, nested arguments or bounds, or a shape the analysis
/// cannot see into.
pub open spec fn type_has_associated(ty: TypeIr) -> bool
    decreases ty,
{
    match ty.kind {
        TypeKindIr::Path(path) => path_has_associated(path),
        TypeKindIr::Reference { element, .. } => type_has_associated(*element),
        TypeKindIr::Slice(element) => type_has_associated(*element),
        TypeKindIr::Pointer { element, .. } => type_has_associated(*element),
        TypeKindIr::Array { element, .. } => type_has_associated(*element),
        TypeKindIr::Tuple(elements) => types_have_associated(elements@),
        TypeKindIr::BareFunction { inputs, output, .. } => {
            types_have_associated(inputs@) || match output {
                Some(output) => type_has_associated(*output),
                None => false,
            }
        },
        TypeKindIr::TraitObject { bounds, .. } => bounds_have_associated(bounds@),
        TypeKindIr::ImplTrait { bounds } => bounds_have_associated(bounds@),
        TypeKindIr::Never => false,
        TypeKindIr::Infer => true,
        TypeKindIr::Macro => true,
        TypeKindIr::Other => true,
    }
}

/// Whether some type of the list may name an associated type.
pub open spec fn types_have_associated(types: Seq<TypeIr>) -> bool
    decreases types,
{
    if types.len() == 0 {
        false
    } else {
        type_has_associated(types[0]) || types_have_associated(types.drop_first())
    }
}

/// Whether a path may name an associated type.
pub open spec fn path_has_associated(path: PathIr) -> bool
    decreases path,
{
    ||| path.qualified_self is Some
    ||| (path.segments@.len() > 1 && path.segments@[0].name@ == "Self"@)
    ||| segments_have_associated(path.segments@)
}

/// Whether the arguments of some segment may name an associated type.
pub open spec fn segments_have_associated(segments: Seq<PathSegmentIr>) -> bool
    decreases segments,
{
    if segments.len() == 0 {
        false
    } else {
        arguments_have_associated(segments[0].arguments) || segments_have_associated(segments.drop_first())
    }
}

/// Whether one argument list may name an associated type.
pub open spec fn arguments_have_associated(arguments: PathArgumentsIr) -> bool
    decreases arguments,
{
    match arguments {
        PathArgumentsIr::Empty => false,
        PathArgumentsIr::AngleBracketed(items) => argument_list_has_associated(items@),
        PathArgumentsIr::Parenthesized { inputs, output } => {
            types_have_associated(inputs@) || match output {
                Some(output) => type_has_associated(*output),
                None => false,
            }
        },
    }
}

/// Whether some angle-bracketed argument may name an associated type.
pub open spec fn argument_list_has_associated(items: Seq<PathArgumentIr>) -> bool
    decreases items,
{
    if items.len() == 0 {
        false
    } else {
        argument_has_associated(items[0]) || argument_list_has_associated(items.drop_first())
    }
}

/// Whether one angle-bracketed argument may name an associated type.
pub open spec fn argument_has_associated(item: PathArgumentIr) -> bool
    decreases item,
{
    match item {
        PathArgumentIr::Type(ty) => type_has_associated(ty),
        PathArgumentIr::AssociatedType { ty, .. } => type_has_associated(ty),
        PathArgumentIr::Constraint { bounds, .. } => bounds_have_associated(bounds@),
        PathArgumentIr::Other(_) => true,
        PathArgumentIr::Lifetime(_) => false,
        PathArgumentIr::Const(_) => false,
        PathArgumentIr::AssociatedConst { .. } => false,
    }
}

/// Whether some bound of the list may name an associated type.
pub open spec fn bounds_have_associated(bounds: Seq<GenericBoundIr>) -> bool
    decreases bounds,
{
    if bounds.len() == 0 {
        false
    } else {
        bound_has_associated(bounds[0]) || bounds_have_associated(bounds.drop_first())
    }
}

/// Whether one bound may name an associated type.
pub open spec fn bound_has_associated(bound: GenericBoundIr) -> bool
    decreases bound,
{
    match bound {
        GenericBoundIr::Trait { path, .. } => path_has_associated(path),
        GenericBoundIr::Lifetime(_) => false,
        GenericBoundIr::Other(_) => true,
    }
}

/// Returns whether a dynamic signature contains an associated type whose
/// concrete `'static` bound cannot be proven at the trait declaration site.
pub fn type_contains_associated_type(ty: &TypeIr) -> (found: bool)
    ensures
        found == type_has_associated(*ty),
    decreases ty,
{
    match &ty.kind {
        TypeKindIr::Path(path) => path_contains_associated_type(path),
        TypeKindIr::Reference { element, .. } => type_contains_associated_type(element),
        TypeKindIr::Slice(element) => type_contains_associated_type(element),
        TypeKindIr::Pointer { element, .. } => type_contains_associated_type(element),
        TypeKindIr::Array { element, .. } => type_contains_associated_type(element),
        TypeKindIr::Tuple(elements) => any_type_associated(elements),
        TypeKindIr::BareFunction { inputs, output, .. } => {
            any_type_associated(inputs) || match output {
                Some(output) => type_contains_associated_type(output),
                None => false,
            }
        },
        TypeKindIr::TraitObject { bounds, .. } => any_bound_associated(bounds),
        TypeKindIr::ImplTrait { bounds } => any_bound_associated(bounds),
        TypeKindIr::Never => false,
        TypeKindIr::Infer => true,
        TypeKindIr::Macro => true,
        TypeKindIr::Other => true,
    }
}

fn any_type_associated(types: &Vec<TypeIr>) -> (found: bool)
    ensures
        found == types_have_associated(types@),
    decreases types,
{
    let mut index = types.len();
    let mut found = false;
    while index > 0
        invariant
            index <= types.len(),
            found == types_have_associated(types@.skip(index as int)),
        decreases index,
    {
        index -= 1;
        let here = type_contains_associated_type(&types[index]);
        assert(types@.skip(index as int).drop_first() == types@.skip(index + 1));
        found = here || found;
    }
    assert(types@.skip(0) == types@);
    found
}

/// Returns whether a path may name an associated type: a qualified path, a
/// multi-segment path rooted at `Self`, or nested arguments that do.
pub fn path_contains_associated_type(path: &PathIr) -> (found: bool)
    ensures
        found == path_has_associated(*path),
    decreases path,
{
    if path.qualified_self.is_some() {
        return true;
    }
    if path.segments.len() > 1 && str_eq(path.segments[0].name.as_str(), "Self") {
        return true;
    }
    any_segment_associated(&path.segments)
}

fn any_segment_associated(segments: &Vec<PathSegmentIr>) -> (found: bool)
    ensures
        found == segments_have_associated(segments@),
    decreases segments,
{
    let mut index = segments.len();
    let mut found = false;
    while index > 0
        invariant
            index <= segments.len(),
            found == segments_have_associated(segments@.skip(index as int)),
        decreases index,
    {
        index -= 1;
        let here = arguments_contain_associated(&segments[index].arguments);
        assert(segments@.skip(index as int).drop_first() == segments@.skip(index + 1));
        found = here || found;
    }
    assert(segments@.skip(0) == segments@);
    found
}

fn arguments_contain_associated(arguments: &PathArgumentsIr) -> (found: bool)
    ensures
        found == arguments_have_associated(*arguments),
    decreases arguments,
{
    match arguments {
        PathArgumentsIr::Empty => false,
        PathArgumentsIr::AngleBracketed(items) => any_argument_associated(items),
        PathArgumentsIr::Parenthesized { inputs, output } => {
            any_type_associated(inputs) || match output {
                Some(output) => type_contains_associated_type(output),
                None => false,
            }
        },
    }
}

fn any_argument_associated(items: &Vec<PathArgumentIr>) -> (found: bool)
    ensures
        found == argument_list_has_associated(items@),
    decreases items,
{
    let mut index = items.len();
    let mut found = false;
    while index > 0
        invariant
            index <= items.len(),
            found == argument_list_has_associated(items@.skip(index as int)),
        decreases index,
    {
        index -= 1;
        let here = argument_contains_associated(&items[index]);
        assert(items@.skip(index as int).drop_first() == items@.skip(index + 1));
        found = here || found;
    }
    assert(items@.skip(0) == items@);
    found
}

fn argument_contains_associated(item: &PathArgumentIr) -> (found: bool)
    ensures
        found == argument_has_associated(*item),
    decreases item,
{
    match item {
        PathArgumentIr::Type(ty) => type_contains_associated_type(ty),
        PathArgumentIr::AssociatedType { ty, .. } => type_contains_associated_type(ty),
        PathArgumentIr::Constraint { bounds, .. } => any_bound_associated(bounds),
        PathArgumentIr::Other(_) => true,
        PathArgumentIr::Lifetime(_) => false,
        PathArgumentIr::Const(_) => false,
        PathArgumentIr::AssociatedConst { .. } => false,
    }
}

fn any_bound_associated(bounds: &Vec<GenericBoundIr>) -> (found: bool)
    ensures
        found == bounds_have_associated(bounds@),
    decreases bounds,
{
    let mut index = bounds.len();
    let mut found = false;
    while index > 0
        invariant
            index <= bounds.len(),
            found == bounds_have_associated(bounds@.skip(index as int)),
        decreases index,
    {
        index -= 1;
        let here = bound_contains_associated_type(&bounds[index]);
        assert(bounds@.skip(index as int).drop_first() == bounds@.skip(index + 1));
        found = here || found;
    }
    assert(bounds@.skip(0) == bounds@);
    found
}

/// Returns whether one trait or lifetime bound may name an associated type.
pub fn bound_contains_associated_type(bound: &GenericBoundIr) -> (found: bool)
    ensures
        found == bound_has_associated(*bound),
    decreases bound,
{
    match bound {
        GenericBoundIr::Trait { path, .. } => path_contains_associated_type(path),
        GenericBoundIr::Lifetime(_) => false,
        GenericBoundIr::Other(_) => true,
    }
}

} // verus!

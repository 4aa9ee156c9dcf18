//! Lifetime provenance of associated-constant types.
//!
//! An associated constant is exposed through a `'static` probe only when
//! every lifetime its type mentions is provably `'static`, bound by an
//! enclosing `for<...>` binder, or elided inside a callable signature.

use vstd::prelude::*;

use crate::ir::GenericBoundIr;
use crate::ir::PathArgumentIr;
use crate::ir::PathArgumentsIr;
use crate::ir::PathSegmentIr;
use crate::ir::TypeIr;
use crate::ir::TypeKindIr;
use crate::text::str_eq;

verus! {

/// The names of a list of lifetimes.
pub open spec fn lifetime_names(lifetimes: Seq<String>) -> Seq<Seq<char>> {
    lifetimes.map_values(|lifetime: String| lifetime@)
}

/// Whether a lifetime is `'static` or bound by an enclosing binder.
pub open spec fn lifetime_proven(lifetime: Seq<char>, bound: Seq<Seq<char>>) -> bool {
    lifetime == "'static"@ || bound.contains(lifetime)
}

/// Whether a type has a proven `'static` shape under the binder names
/// `bound`; `callable` says whether an elided reference lifetime belongs to an
/// enclosing callable signature.
pub open spec fn static_shape(ty: TypeIr, bound: Seq<Seq<char>>, callable: bool) -> bool
    decreases ty,
{
    match ty.kind {
        TypeKindIr::Path(path) => {
            &&& path.qualified_self is None
            &&& !names_self(path.segments@)
            &&& segments_static(path.segments@, bound, callable)
        },
        TypeKindIr::Reference { lifetime, element, .. } => {
            &&& match lifetime {
                Some(lifetime) => lifetime_proven(lifetime@, bound),
                None => callable,
            }
            &&& static_shape(*element, bound, callable)
        },
        TypeKindIr::Pointer { element, .. } => static_shape(*element, bound, callable),
        TypeKindIr::Slice(element) => static_shape(*element, bound, callable),
        TypeKindIr::Array { element, .. } => static_shape(*element, bound, callable),
        TypeKindIr::Tuple(elements) => types_static(elements@, bound, callable),
        TypeKindIr::BareFunction { lifetimes, inputs, output, .. } => {
            &&& types_static(inputs@, bound + lifetime_names(lifetimes@), true)
            &&& match output {
                Some(output) => static_shape(*output, bound + lifetime_names(lifetimes@), true),
                None => true,
            }
        },
        TypeKindIr::TraitObject { bounds, .. } => bounds_static(bounds@, bound, callable),
        TypeKindIr::ImplTrait { bounds } => bounds_static(bounds@, bound, callable),
        TypeKindIr::Never => true,
        TypeKindIr::Infer => false,
        TypeKindIr::Macro => false,
        TypeKindIr::Other => false,
    }
}

/// Whether some segment is named `Self`.
pub open spec fn names_self(segments: Seq<PathSegmentIr>) -> bool {
    exists|i: int| 0 <= i < segments.len() && #[trigger] segments[i].name@ == "Self"@
}

/// Whether every type of the list has a proven `'static` shape.
pub open spec fn types_static(types: Seq<TypeIr>, bound: Seq<Seq<char>>, callable: bool) -> bool
    decreases types,
{
    if types.len() == 0 {
        true
    } else {
        static_shape(types[0], bound, callable) && types_static(types.drop_first(), bound, callable)
    }
}

/// Whether the arguments of every segment have a proven `'static` shape.
pub open spec fn segments_static(segments: Seq<PathSegmentIr>, bound: Seq<Seq<char>>, callable: bool) -> bool
    decreases segments,
{
    if segments.len() == 0 {
        true
    } else {
        arguments_static(segments[0].arguments, bound, callable) && segments_static(
            segments.drop_first(),
            bound,
            callable,
        )
    }
}

/// Whether one segment's arguments have a proven `'static` shape.
pub open spec fn arguments_static(arguments: PathArgumentsIr, bound: Seq<Seq<char>>, callable: bool) -> bool
    decreases arguments,
{
    match arguments {
        PathArgumentsIr::Empty => true,
        PathArgumentsIr::AngleBracketed(items) => argument_list_static(items@, bound, callable),
        PathArgumentsIr::Parenthesized { inputs, output } => {
            &&& types_static(inputs@, bound, true)
            &&& match output {
                Some(output) => static_shape(*output, bound, true),
                None => true,
            }
        },
    }
}

/// Whether every angle-bracketed argument has a proven `'static` shape.
pub open spec fn argument_list_static(items: Seq<PathArgumentIr>, bound: Seq<Seq<char>>, callable: bool) -> bool
    decreases items,
{
    if items.len() == 0 {
        true
    } else {
        argument_static(items[0], bound, callable) && argument_list_static(items.drop_first(), bound, callable)
    }
}

/// Whether one angle-bracketed argument has a proven `'static` shape.
pub open spec fn argument_static(item: PathArgumentIr, bound: Seq<Seq<char>>, callable: bool) -> bool
    decreases item,
{
    match item {
        PathArgumentIr::Lifetime(lifetime) => lifetime_proven(lifetime@, bound),
        PathArgumentIr::Type(ty) => static_shape(ty, bound, callable),
        PathArgumentIr::AssociatedType { ty, .. } => static_shape(ty, bound, callable),
        PathArgumentIr::Const(_) => true,
        PathArgumentIr::AssociatedConst { .. } => false,
        PathArgumentIr::Constraint { .. } => false,
        PathArgumentIr::Other(_) => false,
    }
}

/// Whether every bound of a trait object or `impl Trait` has a proven
/// `'static` shape.
pub open spec fn bounds_static(bounds: Seq<GenericBoundIr>, bound: Seq<Seq<char>>, callable: bool) -> bool
    decreases bounds,
{
    if bounds.len() == 0 {
        true
    } else {
        bound_static(bounds[0], bound, callable) && bounds_static(bounds.drop_first(), bound, callable)
    }
}

/// Whether one bound has a proven `'static` shape; a trait bound's own
/// `for<...>` lifetimes join the binder names for its path arguments.
pub open spec fn bound_static(item: GenericBoundIr, bound: Seq<Seq<char>>, callable: bool) -> bool
    decreases item,
{
    match item {
        GenericBoundIr::Lifetime(lifetime) => lifetime_proven(lifetime@, bound),
        GenericBoundIr::Trait { path, lifetimes, .. } => segments_static(
            path.segments@,
            bound + lifetime_names(lifetimes@),
            callable,
        ),
        GenericBoundIr::Other(_) => false,
    }
}

/// Whether an associated constant's declared type has a proven `'static`
/// shape, starting with no binder and outside any callable signature.
pub open spec fn proven_static_shape(ty: TypeIr) -> bool {
    static_shape(ty, Seq::empty(), false)
}

fn lifetime_is_proven(lifetime: &String, bound: &Vec<String>) -> (proven: bool)
    ensures
        proven == lifetime_proven(lifetime@, lifetime_names(bound@)),
{
    if str_eq(lifetime.as_str(), "'static") {
        return true;
    }
    let mut index: usize = 0;
    while index < bound.len()
        invariant
            index <= bound@.len(),
            lifetime@ != "'static"@,
            forall|j: int| 0 <= j < index ==> bound@[j]@ != lifetime@,
        decreases bound.len() - index,
    {
        if str_eq(bound[index].as_str(), lifetime.as_str()) {
            assert(lifetime_names(bound@)[index as int] == lifetime@);
            return true;
        }
        index += 1;
    }
    assert(!lifetime_names(bound@).contains(lifetime@)) by {
        if lifetime_names(bound@).contains(lifetime@) {
            let j = choose|j: int| 0 <= j < lifetime_names(bound@).len() && lifetime_names(bound@)[j] == lifetime@;
            assert(bound@[j]@ == lifetime@);
        }
    }
    false
}

fn extended(bound: &Vec<String>, lifetimes: &Vec<String>) -> (names: Vec<String>)
    ensures
        lifetime_names(names@) == lifetime_names(bound@) + lifetime_names(lifetimes@),
{
    let mut names: Vec<String> = Vec::new();
    let mut index: usize = 0;
    while index < bound.len()
        invariant
            index <= bound@.len(),
            lifetime_names(names@) == lifetime_names(bound@.take(index as int)),
        decreases bound.len() - index,
    {
        let ghost prev = names@;
        let copy = bound[index].clone();
        names.push(copy);
        assert(lifetime_names(names@) =~= lifetime_names(prev).push(bound@[index as int]@));
        assert(bound@.take(index + 1) =~= bound@.take(index as int).push(bound@[index as int]));
        assert(lifetime_names(names@) =~= lifetime_names(bound@.take(index + 1)));
        index += 1;
    }
    assert(bound@.take(bound@.len() as int) == bound@);
    let mut index: usize = 0;
    while index < lifetimes.len()
        invariant
            index <= lifetimes@.len(),
            lifetime_names(names@) == lifetime_names(bound@) + lifetime_names(lifetimes@.take(index as int)),
        decreases lifetimes.len() - index,
    {
        let ghost prev = names@;
        let copy = lifetimes[index].clone();
        names.push(copy);
        assert(lifetime_names(names@) =~= lifetime_names(prev).push(lifetimes@[index as int]@));
        assert(lifetimes@.take(index + 1) =~= lifetimes@.take(index as int).push(lifetimes@[index as int]));
        assert(lifetime_names(lifetimes@.take(index + 1)) =~= lifetime_names(lifetimes@.take(index as int)).push(
            lifetimes@[index as int]@,
        ));
        assert(lifetime_names(names@) =~= lifetime_names(bound@) + lifetime_names(
            lifetimes@.take(index + 1),
        ));
        index += 1;
    }
    assert(lifetimes@.take(lifetimes@.len() as int) == lifetimes@);
    names
}

/// Returns whether an associated constant's declared type has a proven
/// `'static` shape.
pub fn associated_const_type_has_proven_static_shape(ty: &TypeIr) -> (proven: bool)
    ensures
        proven == proven_static_shape(*ty),
{
    let bound: Vec<String> = Vec::new();
    assert(lifetime_names(bound@) =~= Seq::<Seq<char>>::empty());
    associated_const_type_has_proven_static_shape_in(ty, &bound, false)
}

/// Returns whether `ty` has a proven `'static` shape under the binder names
/// `bound`, with `callable` marking an enclosing callable signature.
pub fn associated_const_type_has_proven_static_shape_in(ty: &TypeIr, bound: &Vec<String>, callable: bool) -> (proven:
    bool)
    ensures
        proven == static_shape(*ty, lifetime_names(bound@), callable),
    decreases ty,
{
    match &ty.kind {
        TypeKindIr::Path(path) => {
            path.qualified_self.is_none() && !any_segment_named_self(&path.segments)
                && all_segments_static(&path.segments, bound, callable)
        },
        TypeKindIr::Reference { lifetime, element, .. } => {
            let lifetime_ok = match lifetime {
                Some(lifetime) => lifetime_is_proven(lifetime, bound),
                None => callable,
            };
            lifetime_ok && associated_const_type_has_proven_static_shape_in(element, bound, callable)
        },
        TypeKindIr::Pointer { element, .. } => associated_const_type_has_proven_static_shape_in(
            element,
            bound,
            callable,
        ),
        TypeKindIr::Slice(element) => associated_const_type_has_proven_static_shape_in(element, bound, callable),
        TypeKindIr::Array { element, .. } => associated_const_type_has_proven_static_shape_in(
            element,
            bound,
            callable,
        ),
        TypeKindIr::Tuple(elements) => all_types_static(elements, bound, callable),
        TypeKindIr::BareFunction { lifetimes, inputs, output, .. } => {
            let function_bound = extended(bound, lifetimes);
            all_types_static(inputs, &function_bound, true) && match output {
                Some(output) => associated_const_type_has_proven_static_shape_in(output, &function_bound, true),
                None => true,
            }
        },
        TypeKindIr::TraitObject { bounds, .. } => all_bounds_static(bounds, bound, callable),
        TypeKindIr::ImplTrait { bounds } => all_bounds_static(bounds, bound, callable),
        TypeKindIr::Never => true,
        TypeKindIr::Infer => false,
        TypeKindIr::Macro => false,
        TypeKindIr::Other => false,
    }
}

fn any_segment_named_self(segments: &Vec<PathSegmentIr>) -> (found: bool)
    ensures
        found == names_self(segments@),
{
    let mut index: usize = 0;
    while index < segments.len()
        invariant
            index <= segments@.len(),
            forall|j: int| 0 <= j < index ==> segments@[j].name@ != "Self"@,
        decreases segments.len() - index,
    {
        if str_eq(segments[index].name.as_str(), "Self") {
            return true;
        }
        index += 1;
    }
    false
}

fn all_types_static(types: &Vec<TypeIr>, bound: &Vec<String>, callable: bool) -> (proven: bool)
    ensures
        proven == types_static(types@, lifetime_names(bound@), callable),
    decreases types,
{
    let mut index = types.len();
    let mut proven = true;
    while index > 0
        invariant
            index <= types.len(),
            proven == types_static(types@.skip(index as int), lifetime_names(bound@), callable),
        decreases index,
    {
        index -= 1;
        let here = associated_const_type_has_proven_static_shape_in(&types[index], bound, callable);
        assert(types@.skip(index as int).drop_first() == types@.skip(index + 1));
        proven = here && proven;
    }
    assert(types@.skip(0) == types@);
    proven
}

fn all_segments_static(segments: &Vec<PathSegmentIr>, bound: &Vec<String>, callable: bool) -> (proven: bool)
    ensures
        proven == segments_static(segments@, lifetime_names(bound@), callable),
    decreases segments,
{
    let mut index = segments.len();
    let mut proven = true;
    while index > 0
        invariant
            index <= segments.len(),
            proven == segments_static(segments@.skip(index as int), lifetime_names(bound@), callable),
        decreases index,
    {
        index -= 1;
        let here = arguments_have_static_shape(&segments[index].arguments, bound, callable);
        assert(segments@.skip(index as int).drop_first() == segments@.skip(index + 1));
        proven = here && proven;
    }
    assert(segments@.skip(0) == segments@);
    proven
}

fn arguments_have_static_shape(arguments: &PathArgumentsIr, bound: &Vec<String>, callable: bool) -> (proven: bool)
    ensures
        proven == arguments_static(*arguments, lifetime_names(bound@), callable),
    decreases arguments,
{
    match arguments {
        PathArgumentsIr::Empty => true,
        PathArgumentsIr::AngleBracketed(items) => all_arguments_static(items, bound, callable),
        PathArgumentsIr::Parenthesized { inputs, output } => {
            all_types_static(inputs, bound, true) && match output {
                Some(output) => associated_const_type_has_proven_static_shape_in(output, bound, true),
                None => true,
            }
        },
    }
}

fn all_arguments_static(items: &Vec<PathArgumentIr>, bound: &Vec<String>, callable: bool) -> (proven: bool)
    ensures
        proven == argument_list_static(items@, lifetime_names(bound@), callable),
    decreases items,
{
    let mut index = items.len();
    let mut proven = true;
    while index > 0
        invariant
            index <= items.len(),
            proven == argument_list_static(items@.skip(index as int), lifetime_names(bound@), callable),
        decreases index,
    {
        index -= 1;
        let here = argument_has_static_shape(&items[index], bound, callable);
        assert(items@.skip(index as int).drop_first() == items@.skip(index + 1));
        proven = here && proven;
    }
    assert(items@.skip(0) == items@);
    proven
}

fn argument_has_static_shape(item: &PathArgumentIr, bound: &Vec<String>, callable: bool) -> (proven: bool)
    ensures
        proven == argument_static(*item, lifetime_names(bound@), callable),
    decreases item,
{
    match item {
        PathArgumentIr::Lifetime(lifetime) => lifetime_is_proven(lifetime, bound),
        PathArgumentIr::Type(ty) => associated_const_type_has_proven_static_shape_in(ty, bound, callable),
        PathArgumentIr::AssociatedType { ty, .. } => associated_const_type_has_proven_static_shape_in(
            ty,
            bound,
            callable,
        ),
        PathArgumentIr::Const(_) => true,
        PathArgumentIr::AssociatedConst { .. } => false,
        PathArgumentIr::Constraint { .. } => false,
        PathArgumentIr::Other(_) => false,
    }
}

fn all_bounds_static(bounds: &Vec<GenericBoundIr>, bound: &Vec<String>, callable: bool) -> (proven: bool)
    ensures
        proven == bounds_static(bounds@, lifetime_names(bound@), callable),
    decreases bounds,
{
    let mut index = bounds.len();
    let mut proven = true;
    while index > 0
        invariant
            index <= bounds.len(),
            proven == bounds_static(bounds@.skip(index as int), lifetime_names(bound@), callable),
        decreases index,
    {
        index -= 1;
        let here = bound_has_static_shape(&bounds[index], bound, callable);
        assert(bounds@.skip(index as int).drop_first() == bounds@.skip(index + 1));
        proven = here && proven;
    }
    assert(bounds@.skip(0) == bounds@);
    proven
}

fn bound_has_static_shape(item: &GenericBoundIr, bound: &Vec<String>, callable: bool) -> (proven: bool)
    ensures
        proven == bound_static(*item, lifetime_names(bound@), callable),
    decreases item,
{
    match item {
        GenericBoundIr::Lifetime(lifetime) => lifetime_is_proven(lifetime, bound),
        GenericBoundIr::Trait { path, lifetimes, .. } => {
            let trait_bound = extended(bound, lifetimes);
            all_segments_static(&path.segments, &trait_bound, callable)
        },
        GenericBoundIr::Other(_) => false,
    }
}

/// Returns whether a type has a proven `'static` shape: the narrow entry
/// that trait expansion uses for associated const types.
pub fn has_proven_static_shape(ty: &TypeIr) -> (proven: bool)
    ensures
        proven == proven_static_shape(*ty),
{
    associated_const_type_has_proven_static_shape(ty)
}

} // verus!

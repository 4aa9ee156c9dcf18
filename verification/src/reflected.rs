//! The field types whose descriptors generated navigation must reflect, the
//! type parameters reached through reflection-transparent containers, and the
//! hidden generic-definition provider name.

use vstd::prelude::*;

use crate::generics::is_parameter_type;
use crate::generics::type_is_parameter;
use crate::generics::type_uses_const;
use crate::generics::type_uses_lifetime;
use crate::generics::type_uses_parameter;
use crate::generics::uses_const;
use crate::generics::uses_lifetime;
use crate::generics::uses_parameter;
use crate::helper::HelperName;
use crate::ir::FieldIr;
use crate::ir::GenericKindIr;
use crate::ir::GenericParamIr;
use crate::ir::HelperAttributeIr;
use crate::ir::PathArgumentIr;
use crate::ir::PathArgumentsIr;
use crate::ir::PathIr;
use crate::ir::PathSegmentIr;
use crate::ir::TypeDeclarationIr;
use crate::ir::TypeDeclarationKindIr;
use crate::ir::TypeIr;
use crate::ir::TypeKindIr;
use crate::ir::VariantIr;
use crate::text::str_eq;
use crate::validate::find_helper;
use crate::validate::has_named;
use crate::validate::texts;

verus! {

fn has_helper(attributes: &Vec<HelperAttributeIr>, name: HelperName) -> (found: bool)
    ensures
        found == has_named(attributes@, name),
{
    let mut index: usize = 0;
    while index < attributes.len()
        invariant
            index <= attributes@.len(),
            forall|j: int| 0 <= j < index ==> attributes@[j].name != name,
        decreases attributes.len() - index,
    {
        if attributes[index].name == name {
            return true;
        }
        index += 1;
    }
    false
}

/// Whether a generic parameter occurs in a type, by its kind.
pub open spec fn parameter_occurs(parameter: GenericParamIr, ty: TypeIr) -> bool {
    match parameter.kind {
        GenericKindIr::Type => uses_parameter(ty, parameter.name@),
        GenericKindIr::Lifetime => uses_lifetime(ty, parameter.name@),
        GenericKindIr::Const => uses_const(ty, parameter.name@),
    }
}

/// Whether some declared generic parameter occurs in a type.
pub open spec fn depends_on_generics(ty: TypeIr, parameters: Seq<GenericParamIr>) -> bool {
    exists|k: int| 0 <= k < parameters.len() && parameter_occurs(#[trigger] parameters[k], ty)
}

/// Whether a field's descriptor is source-visible.
pub open spec fn field_is_visible(field: FieldIr) -> bool {
    !has_named(field.attributes@, HelperName::Opaque)
}

/// Returns a field's complete type when its descriptor is source-visible:
/// an `opaque` field has none.
pub fn reflected_field_type(field: &FieldIr) -> (ty: Option<&TypeIr>)
    ensures
        match ty {
            Some(ty) => field_is_visible(*field) && *ty == field.ty,
            None => !field_is_visible(*field),
        },
{
    match find_helper(&field.attributes, HelperName::Opaque) {
        Some(_) => None,
        None => Some(&field.ty),
    }
}

/// The fields of all variants, in declaration order.
pub open spec fn variant_fields(variants: Seq<VariantIr>) -> Seq<FieldIr>
    decreases variants.len(),
{
    if variants.len() == 0 {
        Seq::empty()
    } else {
        variant_fields(variants.drop_last()) + variants.last().fields@
    }
}

/// The direct fields of a struct or union, or the fields of every variant of
/// an enum.
pub open spec fn candidate_fields(declaration: TypeDeclarationIr) -> Seq<FieldIr> {
    match declaration.kind {
        TypeDeclarationKindIr::Enum => variant_fields(declaration.variants@),
        _ => declaration.fields@,
    }
}

/// The types of the visible fields that depend on a generic parameter, in
/// order.
pub open spec fn selected_types(fields: Seq<FieldIr>, parameters: Seq<GenericParamIr>) -> Seq<TypeIr>
    decreases fields.len(),
{
    if fields.len() == 0 {
        Seq::empty()
    } else {
        let rest = selected_types(fields.drop_last(), parameters);
        let field = fields.last();
        if field_is_visible(field) && depends_on_generics(field.ty, parameters) {
            rest.push(field.ty)
        } else {
            rest
        }
    }
}

/// The field types that generated descriptor navigation must reflect: none
/// for an opaque declaration.
pub open spec fn reflected_types(declaration: TypeDeclarationIr) -> Seq<TypeIr> {
    if has_named(declaration.attributes@, HelperName::Opaque) {
        Seq::empty()
    } else {
        selected_types(candidate_fields(declaration), declaration.generics.params@)
    }
}

/// The types behind a list of references.
pub open spec fn deref_types(types: Seq<&TypeIr>) -> Seq<TypeIr> {
    types.map_values(|ty: &TypeIr| *ty)
}

/// Selection distributes over concatenation.
pub proof fn lemma_selected_types_append(
    first: Seq<FieldIr>,
    second: Seq<FieldIr>,
    parameters: Seq<GenericParamIr>,
)
    ensures
        selected_types(first + second, parameters) == selected_types(first, parameters) + selected_types(
            second,
            parameters,
        ),
    decreases second.len(),
{
    if second.len() == 0 {
        assert(first + second == first);
        assert(selected_types(second, parameters) =~= Seq::<TypeIr>::empty());
        assert(selected_types(first, parameters) + selected_types(second, parameters) =~= selected_types(
            first,
            parameters,
        ));
    } else {
        assert((first + second).drop_last() == first + second.drop_last());
        assert((first + second).last() == second.last());
        lemma_selected_types_append(first, second.drop_last(), parameters);
        let here = selected_types(second.drop_last(), parameters);
        let field = second.last();
        if field_is_visible(field) && depends_on_generics(field.ty, parameters) {
            assert(selected_types(first, parameters) + here.push(field.ty) =~= (selected_types(first, parameters)
                + here).push(field.ty));
        }
    }
}

/// Returns whether a generic parameter occurs in a type.
fn occurs(parameter: &GenericParamIr, ty: &TypeIr) -> (found: bool)
    ensures
        found == parameter_occurs(*parameter, *ty),
{
    match parameter.kind {
        GenericKindIr::Type => type_uses_parameter(ty, parameter.name.as_str()),
        GenericKindIr::Lifetime => type_uses_lifetime(ty, parameter.name.as_str()),
        GenericKindIr::Const => type_uses_const(ty, parameter.name.as_str()),
    }
}

fn depends(ty: &TypeIr, parameters: &Vec<GenericParamIr>) -> (found: bool)
    ensures
        found == depends_on_generics(*ty, parameters@),
{
    let mut index: usize = 0;
    while index < parameters.len()
        invariant
            index <= parameters@.len(),
            forall|k: int| 0 <= k < index ==> !parameter_occurs(#[trigger] parameters@[k], *ty),
        decreases parameters.len() - index,
    {
        if occurs(&parameters[index], ty) {
            return true;
        }
        index += 1;
    }
    false
}

fn select<'a>(fields: &'a Vec<FieldIr>, parameters: &Vec<GenericParamIr>) -> (types: Vec<&'a TypeIr>)
    ensures
        deref_types(types@) == selected_types(fields@, parameters@),
{
    let mut types: Vec<&'a TypeIr> = Vec::new();
    let mut index: usize = 0;
    while index < fields.len()
        invariant
            index <= fields@.len(),
            deref_types(types@) == selected_types(fields@.take(index as int), parameters@),
        decreases fields.len() - index,
    {
        assert(fields@.take(index + 1).drop_last() == fields@.take(index as int));
        let field = &fields[index];
        if !has_helper(&field.attributes, HelperName::Opaque) && depends(&field.ty, parameters) {
            let ghost prev = types@;
            types.push(&field.ty);
            assert(deref_types(types@) =~= deref_types(prev).push(field.ty));
        }
        assert(deref_types(types@) =~= selected_types(fields@.take(index + 1), parameters@));
        index += 1;
    }
    assert(fields@.take(fields@.len() as int) == fields@);
    types
}

/// Returns every visible field type that generated descriptor navigation must
/// be able to reflect as a complete Rust type.
pub fn reflected_field_types(declaration: &TypeDeclarationIr) -> (types: Vec<&TypeIr>)
    ensures
        deref_types(types@) == reflected_types(*declaration),
{
    if has_helper(&declaration.attributes, HelperName::Opaque) {
        let types: Vec<&TypeIr> = Vec::new();
        assert(deref_types(types@) =~= Seq::<TypeIr>::empty());
        return types;
    }
    match declaration.kind {
        TypeDeclarationKindIr::Enum => {
            let mut types: Vec<&TypeIr> = Vec::new();
            let mut index: usize = 0;
            let ghost parameters = declaration.generics.params@;
            while index < declaration.variants.len()
                invariant
                    index <= declaration.variants@.len(),
                    parameters == declaration.generics.params@,
                    deref_types(types@) == selected_types(
                        variant_fields(declaration.variants@.take(index as int)),
                        parameters,
                    ),
                decreases declaration.variants.len() - index,
            {
                let ghost prefix = declaration.variants@.take(index as int);
                assert(declaration.variants@.take(index + 1).drop_last() == prefix);
                let mut more = select(&declaration.variants[index].fields, &declaration.generics.params);
                let ghost prev = types@;
                let ghost added = more@;
                types.append(&mut more);
                proof {
                    lemma_selected_types_append(
                        variant_fields(prefix),
                        declaration.variants@[index as int].fields@,
                        parameters,
                    );
                    assert(deref_types(types@) =~= deref_types(prev) + deref_types(added));
                }
                index += 1;
            }
            assert(declaration.variants@.take(declaration.variants@.len() as int) == declaration.variants@);
            types
        },
        _ => select(&declaration.fields, &declaration.generics.params),
    }
}

// ---------------------------------------------------------------------------
// Reflection-transparent containers
// ---------------------------------------------------------------------------

/// The segment names of a path.
pub open spec fn segment_names(segments: Seq<PathSegmentIr>) -> Seq<Seq<char>> {
    segments.map_values(|segment: PathSegmentIr| segment.name@)
}

/// The reflected type-argument arity of a syntactically unambiguous
/// standard-library container path.
pub open spec fn constructor_arity(names: Seq<Seq<char>>) -> Option<nat> {
    if names.len() != 3 {
        None
    } else {
        let root = names[0];
        let module = names[1];
        let item = names[2];
        let std_or_alloc = root == "std"@ || root == "alloc"@;
        if (std_or_alloc && ((module == "vec"@ && item == "Vec"@) || (module == "boxed"@ && item == "Box"@) || (
        module == "rc"@ && item == "Rc"@) || (module == "sync"@ && item == "Arc"@) || (module == "collections"@
            && item == "BTreeSet"@))) || ((root == "std"@ || root == "core"@) && module == "option"@ && item
            == "Option"@) || (root == "std"@ && module == "collections"@ && item == "HashSet"@) {
            Some(1)
        } else if (std_or_alloc && module == "collections"@ && item == "BTreeMap"@) || (root == "std"@ && module
            == "collections"@ && item == "HashMap"@) {
            Some(2)
        } else {
            None
        }
    }
}

/// Returns the reflected type-argument arity for syntactically unambiguous
/// standard-library container paths.
pub fn transparent_constructor_arity(path: &PathIr) -> (arity: Option<usize>)
    ensures
        match (arity, constructor_arity(segment_names(path.segments@))) {
            (Some(arity), Some(expected)) => arity == expected,
            (None, None) => true,
            _ => false,
        },
{
    if path.segments.len() != 3 {
        return None;
    }
    let root = path.segments[0].name.as_str();
    let module = path.segments[1].name.as_str();
    let item = path.segments[2].name.as_str();
    assert(segment_names(path.segments@)[0] == root@);
    assert(segment_names(path.segments@)[1] == module@);
    assert(segment_names(path.segments@)[2] == item@);
    let std_root = str_eq(root, "std");
    let std_or_alloc = std_root || str_eq(root, "alloc");
    let collections = str_eq(module, "collections");
    if (std_or_alloc && ((str_eq(module, "vec") && str_eq(item, "Vec")) || (str_eq(module, "boxed") && str_eq(
        item,
        "Box",
    )) || (str_eq(module, "rc") && str_eq(item, "Rc")) || (str_eq(module, "sync") && str_eq(item, "Arc")) || (
    collections && str_eq(item, "BTreeSet")))) || ((std_root || str_eq(root, "core")) && str_eq(module, "option")
        && str_eq(item, "Option")) || (std_root && collections && str_eq(item, "HashSet")) {
        Some(1)
    } else if (std_or_alloc && collections && str_eq(item, "BTreeMap")) || (std_root && collections && str_eq(
        item,
        "HashMap",
    )) {
        Some(2)
    } else {
        None
    }
}

/// Whether `parameter` occurs through constructors whose reflected metadata
/// exposes all relevant nested type arguments.
pub open spec fn transparent_uses(ty: TypeIr, parameter: Seq<char>) -> bool
    decreases ty,
{
    if is_parameter_type(ty, parameter) {
        true
    } else {
        match ty.kind {
            TypeKindIr::Path(path) => {
                &&& path.qualified_self is None
                &&& path.segments@.len() > 0
                &&& match path.segments@[path.segments@.len() - 1].arguments {
                    PathArgumentsIr::AngleBracketed(items) => match constructor_arity(
                        segment_names(path.segments@),
                    ) {
                        Some(arity) => (arity == 1 || arity == 2) && leading_types_transparent(
                            items@,
                            arity,
                            parameter,
                        ),
                        None => false,
                    },
                    _ => false,
                }
            },
            TypeKindIr::Reference { element, .. } => transparent_uses(*element, parameter),
            TypeKindIr::Slice(element) => transparent_uses(*element, parameter),
            TypeKindIr::Pointer { element, .. } => transparent_uses(*element, parameter),
            TypeKindIr::Array { element, .. } => transparent_uses(*element, parameter),
            TypeKindIr::Tuple(elements) => types_transparent(elements@, parameter),
            TypeKindIr::BareFunction { inputs, output, .. } => {
                types_transparent(inputs@, parameter) || match output {
                    Some(output) => transparent_uses(*output, parameter),
                    None => false,
                }
            },
            _ => false,
        }
    }
}

/// Whether one of the first `count` type arguments of the list uses the
/// parameter transparently; other argument kinds are skipped.
pub open spec fn leading_types_transparent(items: Seq<PathArgumentIr>, count: nat, parameter: Seq<char>) -> bool
    decreases items,
{
    if items.len() == 0 || count == 0 {
        false
    } else {
        match items[0] {
            PathArgumentIr::Type(ty) => transparent_uses(ty, parameter) || leading_types_transparent(
                items.drop_first(),
                (count - 1) as nat,
                parameter,
            ),
            _ => leading_types_transparent(items.drop_first(), count, parameter),
        }
    }
}

/// Whether some type of the list uses the parameter transparently.
pub open spec fn types_transparent(types: Seq<TypeIr>, parameter: Seq<char>) -> bool
    decreases types,
{
    if types.len() == 0 {
        false
    } else {
        transparent_uses(types[0], parameter) || types_transparent(types.drop_first(), parameter)
    }
}

/// Returns whether `parameter` occurs through constructors whose reflected
/// metadata exposes all relevant nested type arguments.
pub fn transparent_type_uses_parameter(ty: &TypeIr, parameter: &str) -> (uses: bool)
    ensures
        uses == transparent_uses(*ty, parameter@),
    decreases ty,
{
    if type_is_parameter(ty, parameter) {
        return true;
    }
    match &ty.kind {
        TypeKindIr::Path(path) => {
            if path.qualified_self.is_some() || path.segments.len() == 0 {
                return false;
            }
            match &path.segments[path.segments.len() - 1].arguments {
                PathArgumentsIr::AngleBracketed(items) => match transparent_constructor_arity(path) {
                    Some(arity) => (arity == 1 || arity == 2) && leading_types_transparent_exec(
                        items,
                        arity,
                        parameter,
                    ),
                    None => false,
                },
                _ => false,
            }
        },
        TypeKindIr::Reference { element, .. } => transparent_type_uses_parameter(element, parameter),
        TypeKindIr::Slice(element) => transparent_type_uses_parameter(element, parameter),
        TypeKindIr::Pointer { element, .. } => transparent_type_uses_parameter(element, parameter),
        TypeKindIr::Array { element, .. } => transparent_type_uses_parameter(element, parameter),
        TypeKindIr::Tuple(elements) => types_transparent_exec(elements, parameter),
        TypeKindIr::BareFunction { inputs, output, .. } => {
            types_transparent_exec(inputs, parameter) || match output {
                Some(output) => transparent_type_uses_parameter(output, parameter),
                None => false,
            }
        },
        _ => false,
    }
}

fn leading_types_transparent_exec(items: &Vec<PathArgumentIr>, count: usize, parameter: &str) -> (uses: bool)
    ensures
        uses == leading_types_transparent(items@, count as nat, parameter@),
    decreases items,
{
    let mut index: usize = 0;
    let mut remaining = count;
    assert(items@.skip(0) == items@);
    while index < items.len() && remaining > 0
        invariant
            index <= items@.len(),
            remaining <= count,
            leading_types_transparent(items@, count as nat, parameter@) == leading_types_transparent(
                items@.skip(index as int),
                remaining as nat,
                parameter@,
            ),
        decreases items.len() - index,
    {
        assert(items@.skip(index as int).drop_first() == items@.skip(index + 1));
        if let PathArgumentIr::Type(ty) = &items[index] {
            if transparent_type_uses_parameter(ty, parameter) {
                return true;
            }
            remaining -= 1;
        }
        index += 1;
    }
    false
}

fn types_transparent_exec(types: &Vec<TypeIr>, parameter: &str) -> (uses: bool)
    ensures
        uses == types_transparent(types@, parameter@),
    decreases types,
{
    let mut index = types.len();
    let mut uses = false;
    while index > 0
        invariant
            index <= types.len(),
            uses == types_transparent(types@.skip(index as int), parameter@),
        decreases index,
    {
        index -= 1;
        let here = transparent_type_uses_parameter(&types[index], parameter);
        assert(types@.skip(index as int).drop_first() == types@.skip(index + 1));
        uses = here || uses;
    }
    assert(types@.skip(0) == types@);
    uses
}

/// Whether a type parameter is reached transparently by some reflected
/// field type of the declaration.
pub open spec fn transparently_reflected(declaration: TypeDeclarationIr, parameter: GenericParamIr) -> bool {
    &&& parameter.kind == GenericKindIr::Type
    &&& exists|i: int|
        0 <= i < reflected_types(declaration).len() && transparent_uses(
            #[trigger] reflected_types(declaration)[i],
            parameter.name@,
        )
}

/// The names of the transparently reflected type parameters among the first
/// parameters of a declaration, in order.
pub open spec fn transparent_parameter_names(declaration: TypeDeclarationIr, parameters: Seq<GenericParamIr>) -> Seq<
    Seq<char>,
>
    decreases parameters.len(),
{
    if parameters.len() == 0 {
        Seq::empty()
    } else {
        let rest = transparent_parameter_names(declaration, parameters.drop_last());
        if transparently_reflected(declaration, parameters.last()) {
            rest.push(parameters.last().name@)
        } else {
            rest
        }
    }
}

fn any_transparent(types: &Vec<&TypeIr>, parameter: &str) -> (found: bool)
    ensures
        found == exists|i: int|
            0 <= i < deref_types(types@).len() && transparent_uses(#[trigger] deref_types(types@)[i], parameter@),
{
    let mut index: usize = 0;
    while index < types.len()
        invariant
            index <= types@.len(),
            forall|j: int| 0 <= j < index ==> !transparent_uses(#[trigger] deref_types(types@)[j], parameter@),
        decreases types.len() - index,
    {
        assert(deref_types(types@)[index as int] == *types@[index as int]);
        if transparent_type_uses_parameter(types[index], parameter) {
            return true;
        }
        index += 1;
    }
    false
}

/// Returns the type parameters nested only through reflection-transparent
/// builtin type constructors in the reflected field types.
pub fn transparently_reflected_type_parameters(declaration: &TypeDeclarationIr) -> (names: Vec<String>)
    ensures
        texts(names@) == transparent_parameter_names(*declaration, declaration.generics.params@),
{
    let fields = reflected_field_types(declaration);
    let mut names: Vec<String> = Vec::new();
    let mut index: usize = 0;
    while index < declaration.generics.params.len()
        invariant
            index <= declaration.generics.params@.len(),
            deref_types(fields@) == reflected_types(*declaration),
            texts(names@) == transparent_parameter_names(
                *declaration,
                declaration.generics.params@.take(index as int),
            ),
        decreases declaration.generics.params.len() - index,
    {
        let parameter = &declaration.generics.params[index];
        assert(declaration.generics.params@.take(index + 1).drop_last() == declaration.generics.params@.take(
            index as int,
        ));
        if parameter.kind == GenericKindIr::Type && any_transparent(&fields, parameter.name.as_str()) {
            let ghost prev = names@;
            names.push(parameter.name.clone());
            assert(texts(names@) =~= texts(prev).push(parameter.name@));
        }
        assert(texts(names@) =~= transparent_parameter_names(
            *declaration,
            declaration.generics.params@.take(index + 1),
        ));
        index += 1;
    }
    assert(declaration.generics.params@.take(declaration.generics.params@.len() as int)
        == declaration.generics.params@);
    names
}

} // verus!

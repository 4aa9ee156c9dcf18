//! The runtime type-expression model of the types that trait item
//! descriptors record, built structurally from the type IR.

use vstd::prelude::*;

use crate::constant::const_argument_admits;
use crate::constant::const_argument_value;
use crate::constant::result_view;
use crate::constant::ConstValueIr;
use crate::generics::trim_quotes;
use crate::ir::GenericBoundIr;
use crate::ir::PathArgumentIr;
use crate::ir::PathArgumentsIr;
use crate::ir::PathIr;
use crate::ir::PathSegmentIr;
use crate::ir::TraitBoundModifierIr;
use crate::ir::TypeIr;
use crate::ir::TypeKindIr;
use crate::lifetime::lifetime_expresses;
use crate::lifetime::lifetime_expression;
use crate::lifetime::LifetimeExpressionIr;
use crate::substitution::tokens_view;
use crate::text::chars_of;
use crate::text::str_eq;

verus! {

// ---------------------------------------------------------------------------
// The model
// ---------------------------------------------------------------------------

/// The calling convention of a function pointer type.
#[derive(Debug)]
pub enum AbiIr {
    Rust,
    C,
    System,
    Other(String),
}

/// A bound of a trait object or an opaque type, on the bounded type itself.
#[derive(Debug)]
pub enum PredicateExpressionIr {
    /// A trait bound: the trait as written, whether it is `?Trait`, and its
    /// `for<...>` lifetimes.
    TypeBound { trait_source: String, maybe: bool, lifetimes: Vec<LifetimeExpressionIr> },
    /// A lifetime the type outlives.
    Outlives(LifetimeExpressionIr),
}

/// One generic argument of a path.
#[derive(Debug)]
pub enum GenericArgumentExpressionIr {
    Lifetime(LifetimeExpressionIr),
    Type(TypeExpressionIr),
    /// A const argument, or the diagnostic that refuses it.
    Const(Result<ConstValueIr, String>),
    /// An associated type binding `Name = Type`.
    AssociatedType { name: String, value: TypeExpressionIr },
}

/// The runtime model of a type.
#[derive(Debug)]
pub enum TypeExpressionIr {
    Never,
    /// `Self`.
    SelfType,
    /// A generic parameter, recognized by its all-uppercase name.
    Parameter(String),
    /// A qualified associated type `<T as Trait>::Item`.
    Associated {
        self_type: Box<TypeExpressionIr>,
        trait_path: Option<Vec<String>>,
        item: String,
        arguments: Vec<GenericArgumentExpressionIr>,
        diagnostic: String,
    },
    /// A concrete type: its path segments and the last segment's arguments.
    Concrete { segments: Vec<String>, arguments: Vec<GenericArgumentExpressionIr>, diagnostic: String },
    Reference { lifetime: LifetimeExpressionIr, mutable: bool, target: Box<TypeExpressionIr> },
    Tuple(Vec<TypeExpressionIr>),
    Slice(Box<TypeExpressionIr>),
    Array { element: Box<TypeExpressionIr>, length: Result<ConstValueIr, String> },
    RawPointer { mutable: bool, target: Box<TypeExpressionIr> },
    FunctionPointer {
        abi: AbiIr,
        is_unsafe: bool,
        is_variadic: bool,
        lifetimes: Vec<LifetimeExpressionIr>,
        parameters: Vec<TypeExpressionIr>,
        output: Box<TypeExpressionIr>,
    },
    TraitObject(Vec<PredicateExpressionIr>),
    /// An `impl Trait` type.
    Opaque(Vec<PredicateExpressionIr>),
}

// ---------------------------------------------------------------------------
// Lifetimes, calling conventions and bounds
// ---------------------------------------------------------------------------

/// Whether lifetime expressions model the lifetimes, one for one.
pub open spec fn lifetimes_express(expressions: Seq<LifetimeExpressionIr>, lifetimes: Seq<String>) -> bool {
    &&& expressions.len() == lifetimes.len()
    &&& forall|i: int| 0 <= i < lifetimes.len() ==> lifetime_expresses(#[trigger] expressions[i], lifetimes[i]@)
}

fn lifetime_expressions(lifetimes: &Vec<String>) -> (expressions: Vec<LifetimeExpressionIr>)
    ensures
        lifetimes_express(expressions@, lifetimes@),
{
    let mut expressions: Vec<LifetimeExpressionIr> = Vec::new();
    let mut index: usize = 0;
    while index < lifetimes.len()
        invariant
            index <= lifetimes@.len(),
            expressions@.len() == index,
            forall|i: int| 0 <= i < index ==> lifetime_expresses(#[trigger] expressions@[i], lifetimes@[i]@),
        decreases lifetimes.len() - index,
    {
        expressions.push(lifetime_expression(lifetimes[index].as_str()));
        index += 1;
    }
    expressions
}

/// Whether a reference's lifetime is modeled: an unwritten one is elided.
pub open spec fn reference_lifetime_expresses(expression: LifetimeExpressionIr, lifetime: Option<String>) -> bool {
    match lifetime {
        Some(lifetime) => lifetime_expresses(expression, lifetime@),
        None => expression is Elided,
    }
}

/// Whether a calling convention models the written ABI: `C` and `system`
/// are known, any other name is kept, and none is Rust's.
pub open spec fn abi_expresses(expression: AbiIr, abi: Option<String>) -> bool {
    match abi {
        None => expression is Rust,
        Some(name) => if name@ == "C"@ {
            expression is C
        } else if name@ == "system"@ {
            expression is System
        } else {
            expression matches AbiIr::Other(other) && other@ == name@
        },
    }
}

pub fn abi_expression(abi: &Option<String>) -> (expression: AbiIr)
    ensures
        abi_expresses(expression, *abi),
{
    match abi {
        None => AbiIr::Rust,
        Some(name) => if str_eq(name.as_str(), "C") {
            AbiIr::C
        } else if str_eq(name.as_str(), "system") {
            AbiIr::System
        } else {
            AbiIr::Other(name.clone())
        },
    }
}

/// The bounds that a trait object or an opaque type records: trait and
/// lifetime bounds, in order.
pub open spec fn recorded_bounds(bounds: Seq<GenericBoundIr>) -> Seq<GenericBoundIr>
    decreases bounds.len(),
{
    if bounds.len() == 0 {
        Seq::empty()
    } else if bounds.last() is Other {
        recorded_bounds(bounds.drop_last())
    } else {
        recorded_bounds(bounds.drop_last()).push(bounds.last())
    }
}

/// Whether a predicate models a recorded bound.
pub open spec fn predicate_expresses(predicate: PredicateExpressionIr, bound: GenericBoundIr) -> bool {
    match bound {
        GenericBoundIr::Trait { path, modifier, lifetimes } => predicate matches PredicateExpressionIr::TypeBound {
            trait_source,
            maybe,
            lifetimes: expressions,
        } && trait_source@ == path.source@ && maybe == (modifier == TraitBoundModifierIr::Maybe)
            && lifetimes_express(expressions@, lifetimes@),
        GenericBoundIr::Lifetime(lifetime) => predicate matches PredicateExpressionIr::Outlives(expression)
            && lifetime_expresses(expression, lifetime@),
        GenericBoundIr::Other(_) => false,
    }
}

/// Whether predicates model the recorded bounds, one for one.
pub open spec fn predicates_express(predicates: Seq<PredicateExpressionIr>, bounds: Seq<GenericBoundIr>) -> bool {
    let recorded = recorded_bounds(bounds);
    &&& predicates.len() == recorded.len()
    &&& forall|i: int| 0 <= i < recorded.len() ==> predicate_expresses(#[trigger] predicates[i], recorded[i])
}

/// Returns the predicates a trait object or an opaque type records for its
/// bounds.
pub fn bound_predicates(bounds: &Vec<GenericBoundIr>) -> (predicates: Vec<PredicateExpressionIr>)
    ensures
        predicates_express(predicates@, bounds@),
{
    let mut predicates: Vec<PredicateExpressionIr> = Vec::new();
    let mut index: usize = 0;
    while index < bounds.len()
        invariant
            index <= bounds@.len(),
            predicates@.len() == recorded_bounds(bounds@.take(index as int)).len(),
            forall|i: int|
                0 <= i < predicates@.len() ==> predicate_expresses(
                    #[trigger] predicates@[i],
                    recorded_bounds(bounds@.take(index as int))[i],
                ),
        decreases bounds.len() - index,
    {
        assert(bounds@.take(index + 1).drop_last() =~= bounds@.take(index as int));
        assert(bounds@.take(index + 1).last() == bounds@[index as int]);
        match &bounds[index] {
            GenericBoundIr::Trait { path, modifier, lifetimes } => {
                predicates.push(
                    PredicateExpressionIr::TypeBound {
                        trait_source: path.source.clone(),
                        maybe: *modifier == TraitBoundModifierIr::Maybe,
                        lifetimes: lifetime_expressions(lifetimes),
                    },
                );
            },
            GenericBoundIr::Lifetime(lifetime) => {
                predicates.push(PredicateExpressionIr::Outlives(lifetime_expression(lifetime.as_str())));
            },
            GenericBoundIr::Other(_) => {},
        }
        index += 1;
    }
    assert(bounds@.take(bounds@.len() as int) =~= bounds@);
    predicates
}

// ---------------------------------------------------------------------------
// Well-formed qualified paths
// ---------------------------------------------------------------------------

/// Whether a path is `Self`.
pub open spec fn is_self_path(path: PathIr) -> bool {
    path.qualified_self is None && path.segments@.len() == 1 && path.segments@[0].name@ == "Self"@
}

/// Whether every character is an ASCII uppercase letter.
pub open spec fn all_ascii_uppercase(name: Seq<char>) -> bool {
    forall|i: int| 0 <= i < name.len() ==> 'A' <= #[trigger] name[i] <= 'Z'
}

/// Whether a path names a generic parameter by convention: one segment,
/// without arguments, spelled in ASCII capitals.
pub open spec fn is_parameter_path(path: PathIr) -> bool {
    &&& path.qualified_self is None
    &&& path.segments@.len() == 1
    &&& path.segments@[0].arguments is Empty
    &&& all_ascii_uppercase(path.segments@[0].name@)
}

/// Whether every qualified path that the model of a type reads names
/// an item, as every parsed qualified path does.
pub open spec fn qualified_items(ty: TypeIr) -> bool
    decreases ty,
{
    match ty.kind {
        TypeKindIr::Path(path) => path_qualified_items(path),
        TypeKindIr::Reference { element, .. } => qualified_items(*element),
        TypeKindIr::Slice(element) => qualified_items(*element),
        TypeKindIr::Pointer { element, .. } => qualified_items(*element),
        TypeKindIr::Array { element, .. } => qualified_items(*element),
        TypeKindIr::Tuple(elements) => forall|i: int|
            0 <= i < elements@.len() ==> qualified_items(#[trigger] elements@[i]),
        TypeKindIr::BareFunction { inputs, output, .. } => {
            &&& forall|i: int| 0 <= i < inputs@.len() ==> qualified_items(#[trigger] inputs@[i])
            &&& match output {
                Some(output) => qualified_items(*output),
                None => true,
            }
        },
        _ => true,
    }
}

/// [`qualified_items`] for a path.
pub open spec fn path_qualified_items(path: PathIr) -> bool
    decreases path,
{
    if is_self_path(path) || is_parameter_path(path) {
        true
    } else {
        match path.qualified_self {
            Some(qualified) => path.segments@.len() > 0 && qualified_items(qualified.ty) && arguments_qualified_items(
                path.segments@.last().arguments,
            ),
            None => path.segments@.len() > 0 ==> arguments_qualified_items(path.segments@.last().arguments),
        }
    }
}

/// [`qualified_items`] for path arguments.
pub open spec fn arguments_qualified_items(arguments: PathArgumentsIr) -> bool
    decreases arguments,
{
    match arguments {
        PathArgumentsIr::Empty => true,
        PathArgumentsIr::AngleBracketed(items) => forall|i: int|
            0 <= i < items@.len() ==> argument_qualified_items(#[trigger] items@[i]),
        PathArgumentsIr::Parenthesized { inputs, output } => {
            &&& forall|i: int| 0 <= i < inputs@.len() ==> qualified_items(#[trigger] inputs@[i])
            &&& match output {
                Some(output) => qualified_items(*output),
                None => true,
            }
        },
    }
}

/// [`qualified_items`] for one generic argument.
pub open spec fn argument_qualified_items(item: PathArgumentIr) -> bool
    decreases item,
{
    match item {
        PathArgumentIr::Type(ty) => qualified_items(ty),
        PathArgumentIr::AssociatedType { ty, .. } => qualified_items(ty),
        _ => true,
    }
}

// ---------------------------------------------------------------------------
// The model of a type
// ---------------------------------------------------------------------------

/// Whether an expression models a type.
pub open spec fn expresses(expression: TypeExpressionIr, ty: TypeIr) -> bool
    decreases ty,
{
    match ty.kind {
        TypeKindIr::Never => expression is Never,
        TypeKindIr::Path(path) => path_expresses(expression, path, ty.source@),
        TypeKindIr::Reference { lifetime, mutable, element } => match expression {
            TypeExpressionIr::Reference { lifetime: modeled, mutable: modeled_mutable, target } => {
                &&& reference_lifetime_expresses(modeled, lifetime)
                &&& modeled_mutable == mutable
                &&& expresses(*target, *element)
            },
            _ => false,
        },
        TypeKindIr::Tuple(elements) => match expression {
            TypeExpressionIr::Tuple(modeled) => {
                &&& modeled@.len() == elements@.len()
                &&& forall|i: int|
                    0 <= i < elements@.len() ==> expresses(#[trigger] modeled@[i], elements@[i])
            },
            _ => false,
        },
        TypeKindIr::Slice(element) => match expression {
            TypeExpressionIr::Slice(modeled) => expresses(*modeled, *element),
            _ => false,
        },
        TypeKindIr::Array { element, length } => match expression {
            TypeExpressionIr::Array { element: modeled, length: value } => {
                &&& expresses(*modeled, *element)
                &&& const_argument_admits(result_view(value), tokens_view(length@))
            },
            _ => false,
        },
        TypeKindIr::Pointer { mutable, element } => match expression {
            TypeExpressionIr::RawPointer { mutable: modeled_mutable, target } => modeled_mutable == mutable
                && expresses(*target, *element),
            _ => false,
        },
        TypeKindIr::BareFunction { lifetimes, inputs, output, is_unsafe, abi, is_variadic } => match expression {
            TypeExpressionIr::FunctionPointer {
                abi: modeled_abi,
                is_unsafe: modeled_unsafe,
                is_variadic: modeled_variadic,
                lifetimes: modeled_lifetimes,
                parameters,
                output: modeled_output,
            } => {
                &&& abi_expresses(modeled_abi, abi)
                &&& modeled_unsafe == is_unsafe
                &&& modeled_variadic == is_variadic
                &&& lifetimes_express(modeled_lifetimes@, lifetimes@)
                &&& parameters@.len() == inputs@.len()
                &&& forall|i: int| 0 <= i < inputs@.len() ==> expresses(#[trigger] parameters@[i], inputs@[i])
                &&& match output {
                    Some(output) => expresses(*modeled_output, *output),
                    None => *modeled_output matches TypeExpressionIr::Tuple(items) && items@.len() == 0,
                }
            },
            _ => false,
        },
        TypeKindIr::TraitObject { bounds, .. } => match expression {
            TypeExpressionIr::TraitObject(predicates) => predicates_express(predicates@, bounds@),
            _ => false,
        },
        TypeKindIr::ImplTrait { bounds } => match expression {
            TypeExpressionIr::Opaque(predicates) => predicates_express(predicates@, bounds@),
            _ => false,
        },
        _ => match expression {
            TypeExpressionIr::Concrete { segments, arguments, diagnostic } => {
                &&& segments@.len() == 1
                &&& segments@[0]@ == ty.source@
                &&& arguments@.len() == 0
                &&& diagnostic@ == ty.source@
            },
            _ => false,
        },
    }
}

/// Whether names are the names of the segments, in order.
pub open spec fn names_express(names: Seq<String>, segments: Seq<PathSegmentIr>) -> bool {
    &&& names.len() == segments.len()
    &&& forall|i: int| 0 <= i < segments.len() ==> (#[trigger] names[i])@ == segments[i].name@
}

/// The segments that name a qualified path's trait: the first `position`
/// ones, or all when there are fewer.
pub open spec fn trait_segments(segments: Seq<PathSegmentIr>, position: usize) -> Seq<PathSegmentIr> {
    if position <= segments.len() {
        segments.take(position as int)
    } else {
        segments
    }
}

/// Whether an expression models a path type written as `source`: `Self`, a
/// parameter, a qualified associated type, or a concrete path with the last
/// segment's arguments.
pub open spec fn path_expresses(expression: TypeExpressionIr, path: PathIr, source: Seq<char>) -> bool
    decreases path,
{
    let segments = path.segments@;
    if is_self_path(path) {
        expression is SelfType
    } else if is_parameter_path(path) {
        expression matches TypeExpressionIr::Parameter(name) && name@ == segments[0].name@
    } else {
        match path.qualified_self {
            Some(qualified) => match expression {
                TypeExpressionIr::Associated { self_type, trait_path, item, arguments, diagnostic } => {
                    &&& segments.len() > 0
                    &&& expresses(*self_type, qualified.ty)
                    &&& (if qualified.has_as {
                        trait_path matches Some(names) && names_express(
                            names@,
                            trait_segments(segments, qualified.position),
                        )
                    } else {
                        trait_path is None
                    })
                    &&& item@ == segments.last().name@
                    &&& arguments_express(arguments@, segments.last().arguments)
                    &&& diagnostic@ == source
                },
                _ => false,
            },
            None => match expression {
                TypeExpressionIr::Concrete { segments: names, arguments, diagnostic } => {
                    &&& names_express(names@, segments)
                    &&& (if segments.len() > 0 {
                        arguments_express(arguments@, segments.last().arguments)
                    } else {
                        arguments@.len() == 0
                    })
                    &&& diagnostic@ == source
                },
                _ => false,
            },
        }
    }
}

/// Whether a path argument has a runtime model: lifetimes, types, const
/// values and associated type bindings do.
pub open spec fn argument_kept(item: PathArgumentIr) -> bool {
    ||| item is Lifetime
    ||| item is Type
    ||| item is Const
    ||| item is AssociatedType
}

/// Whether argument expressions model path arguments: a parenthesized list
/// is one function pointer type.
pub open spec fn arguments_express(modeled: Seq<GenericArgumentExpressionIr>, arguments: PathArgumentsIr) -> bool
    decreases arguments,
{
    match arguments {
        PathArgumentsIr::Empty => modeled.len() == 0,
        PathArgumentsIr::AngleBracketed(items) => argument_list_expresses(modeled, items@),
        PathArgumentsIr::Parenthesized { inputs, output } => {
            &&& modeled.len() == 1
            &&& modeled[0] matches GenericArgumentExpressionIr::Type(function)
            &&& function matches TypeExpressionIr::FunctionPointer {
                abi,
                is_unsafe,
                is_variadic,
                lifetimes,
                parameters,
                output: modeled_output,
            }
            &&& abi is Rust && !is_unsafe && !is_variadic && lifetimes@.len() == 0
            &&& parameters@.len() == inputs@.len()
            &&& forall|i: int| 0 <= i < inputs@.len() ==> expresses(#[trigger] parameters@[i], inputs@[i])
            &&& match output {
                Some(output) => expresses(*modeled_output, *output),
                None => *modeled_output matches TypeExpressionIr::Tuple(items) && items@.len() == 0,
            }
        },
    }
}

/// Whether argument expressions model the kept arguments of a list, in
/// order.
pub open spec fn argument_list_expresses(modeled: Seq<GenericArgumentExpressionIr>, items: Seq<PathArgumentIr>) -> bool
    decreases items,
{
    if items.len() == 0 {
        modeled.len() == 0
    } else if argument_kept(items[0]) {
        &&& modeled.len() > 0
        &&& argument_expresses(modeled[0], items[0])
        &&& argument_list_expresses(modeled.drop_first(), items.drop_first())
    } else {
        argument_list_expresses(modeled, items.drop_first())
    }
}

/// Whether an argument expression models one kept path argument.
pub open spec fn argument_expresses(modeled: GenericArgumentExpressionIr, item: PathArgumentIr) -> bool
    decreases item,
{
    match item {
        PathArgumentIr::Lifetime(lifetime) => modeled matches GenericArgumentExpressionIr::Lifetime(expression)
            && lifetime_expresses(expression, lifetime@),
        PathArgumentIr::Type(ty) => modeled matches GenericArgumentExpressionIr::Type(expression) && expresses(
            expression,
            ty,
        ),
        PathArgumentIr::Const(tokens) => modeled matches GenericArgumentExpressionIr::Const(value)
            && const_argument_admits(result_view(value), tokens_view(tokens@)),
        PathArgumentIr::AssociatedType { name, ty } => modeled matches GenericArgumentExpressionIr::AssociatedType {
            name: modeled_name,
            value,
        } && modeled_name@ == name@ && expresses(value, ty),
        _ => false,
    }
}

proof fn lemma_argument_list_append(
    first: Seq<GenericArgumentExpressionIr>,
    first_items: Seq<PathArgumentIr>,
    second: Seq<GenericArgumentExpressionIr>,
    second_items: Seq<PathArgumentIr>,
)
    requires
        argument_list_expresses(first, first_items),
        argument_list_expresses(second, second_items),
    ensures
        argument_list_expresses(first + second, first_items + second_items),
    decreases first_items.len(),
{
    if first_items.len() == 0 {
        assert(first + second =~= second);
        assert(first_items + second_items =~= second_items);
    } else {
        assert((first_items + second_items)[0] == first_items[0]);
        assert((first_items + second_items).drop_first() =~= first_items.drop_first() + second_items);
        if argument_kept(first_items[0]) {
            assert((first + second)[0] == first[0]);
            assert((first + second).drop_first() =~= first.drop_first() + second);
            lemma_argument_list_append(first.drop_first(), first_items.drop_first(), second, second_items);
        } else {
            lemma_argument_list_append(first, first_items.drop_first(), second, second_items);
        }
    }
}

fn is_ascii_uppercase_name(name: &str) -> (uppercase: bool)
    ensures
        uppercase == all_ascii_uppercase(name@),
{
    let characters = chars_of(name);
    let mut index: usize = 0;
    while index < characters.len()
        invariant
            characters@ == name@,
            index <= characters.len(),
            forall|i: int| 0 <= i < index ==> 'A' <= #[trigger] name@[i] <= 'Z',
        decreases characters.len() - index,
    {
        let character = characters[index];
        if !('A' <= character && character <= 'Z') {
            return false;
        }
        index += 1;
    }
    true
}

fn segment_names(segments: &Vec<PathSegmentIr>, count: usize) -> (names: Vec<String>)
    requires
        count <= segments@.len(),
    ensures
        names_express(names@, segments@.take(count as int)),
{
    let mut names: Vec<String> = Vec::new();
    let mut index: usize = 0;
    while index < count
        invariant
            count <= segments@.len(),
            index <= count,
            names@.len() == index,
            forall|i: int| 0 <= i < index ==> (#[trigger] names@[i])@ == segments@[i].name@,
        decreases count - index,
    {
        names.push(segments[index].name.clone());
        index += 1;
    }
    names
}

fn unit_expression() -> (modeled: TypeExpressionIr)
    ensures
        modeled matches TypeExpressionIr::Tuple(items) && items@.len() == 0,
{
    TypeExpressionIr::Tuple(Vec::new())
}

fn type_expressions(types: &Vec<TypeIr>) -> (modeled: Vec<TypeExpressionIr>)
    requires
        forall|i: int| 0 <= i < types@.len() ==> qualified_items(#[trigger] types@[i]),
    ensures
        modeled@.len() == types@.len(),
        forall|i: int| 0 <= i < types@.len() ==> expresses(#[trigger] modeled@[i], types@[i]),
    decreases types,
{
    let mut modeled: Vec<TypeExpressionIr> = Vec::new();
    let mut index: usize = 0;
    while index < types.len()
        invariant
            index <= types@.len(),
            forall|i: int| 0 <= i < types@.len() ==> qualified_items(#[trigger] types@[i]),
            modeled@.len() == index,
            forall|i: int| 0 <= i < index ==> expresses(#[trigger] modeled@[i], types@[i]),
        decreases types.len() - index,
    {
        assert(decreases_to!(types => types@[index as int]));
        let expression = type_expression(&types[index]);
        modeled.push(expression);
        index += 1;
    }
    modeled
}

/// Builds the runtime type-expression model of a type.
pub fn type_expression(ty: &TypeIr) -> (modeled: TypeExpressionIr)
    requires
        qualified_items(*ty),
    ensures
        expresses(modeled, *ty),
    decreases ty,
{
    match &ty.kind {
        TypeKindIr::Never => TypeExpressionIr::Never,
        TypeKindIr::Path(path) => path_expression(path, &ty.source),
        TypeKindIr::Reference { lifetime, mutable, element } => {
            let modeled_lifetime = match lifetime {
                Some(lifetime) => lifetime_expression(lifetime.as_str()),
                None => LifetimeExpressionIr::Elided,
            };
            TypeExpressionIr::Reference {
                lifetime: modeled_lifetime,
                mutable: *mutable,
                target: Box::new(type_expression(element)),
            }
        },
        TypeKindIr::Tuple(elements) => TypeExpressionIr::Tuple(type_expressions(elements)),
        TypeKindIr::Slice(element) => TypeExpressionIr::Slice(Box::new(type_expression(element))),
        TypeKindIr::Array { element, length } => TypeExpressionIr::Array {
            element: Box::new(type_expression(element)),
            length: const_argument_value(length),
        },
        TypeKindIr::Pointer { mutable, element } => TypeExpressionIr::RawPointer {
            mutable: *mutable,
            target: Box::new(type_expression(element)),
        },
        TypeKindIr::BareFunction { lifetimes, inputs, output, is_unsafe, abi, is_variadic } => {
            let modeled_output = match output {
                Some(output) => type_expression(output),
                None => unit_expression(),
            };
            TypeExpressionIr::FunctionPointer {
                abi: abi_expression(abi),
                is_unsafe: *is_unsafe,
                is_variadic: *is_variadic,
                lifetimes: lifetime_expressions(lifetimes),
                parameters: type_expressions(inputs),
                output: Box::new(modeled_output),
            }
        },
        TypeKindIr::TraitObject { bounds, .. } => TypeExpressionIr::TraitObject(bound_predicates(bounds)),
        TypeKindIr::ImplTrait { bounds } => TypeExpressionIr::Opaque(bound_predicates(bounds)),
        _ => {
            let mut segments: Vec<String> = Vec::new();
            segments.push(ty.source.clone());
            TypeExpressionIr::Concrete { segments, arguments: Vec::new(), diagnostic: ty.source.clone() }
        },
    }
}

fn path_expression(path: &PathIr, source: &String) -> (modeled: TypeExpressionIr)
    requires
        path_qualified_items(*path),
    ensures
        path_expresses(modeled, *path, source@),
    decreases path,
{
    proof {
        reveal_strlit("Self");
    }
    let segments = &path.segments;
    let count = segments.len();
    if path.qualified_self.is_none() && count == 1 && str_eq(segments[0].name.as_str(), "Self") {
        return TypeExpressionIr::SelfType;
    }
    if path.qualified_self.is_none() && count == 1 {
        let empty = match &segments[0].arguments {
            PathArgumentsIr::Empty => true,
            _ => false,
        };
        if empty && is_ascii_uppercase_name(segments[0].name.as_str()) {
            return TypeExpressionIr::Parameter(segments[0].name.clone());
        }
    }
    assert(!is_self_path(*path) && !is_parameter_path(*path));
    match &path.qualified_self {
        Some(qualified) => {
            let last = &segments[count - 1];
            assert(decreases_to!(path => path.segments@[count - 1].arguments));
            let trait_path = if qualified.has_as {
                let taken = if qualified.position <= count {
                    qualified.position
                } else {
                    count
                };
                let names = segment_names(segments, taken);
                assert(segments@.take(taken as int) =~= trait_segments(segments@, qualified.position));
                Some(names)
            } else {
                None
            };
            TypeExpressionIr::Associated {
                self_type: Box::new(type_expression(&qualified.ty)),
                trait_path,
                item: last.name.clone(),
                arguments: path_arguments(&last.arguments),
                diagnostic: source.clone(),
            }
        },
        None => {
            let names = segment_names(segments, count);
            assert(segments@.take(count as int) =~= segments@);
            let arguments = if count > 0 {
                assert(decreases_to!(path => path.segments@[count - 1].arguments));
                path_arguments(&segments[count - 1].arguments)
            } else {
                Vec::new()
            };
            TypeExpressionIr::Concrete { segments: names, arguments, diagnostic: source.clone() }
        },
    }
}

pub(crate) fn path_arguments(arguments: &PathArgumentsIr) -> (modeled: Vec<GenericArgumentExpressionIr>)
    requires
        arguments_qualified_items(*arguments),
    ensures
        arguments_express(modeled@, *arguments),
    decreases arguments,
{
    match arguments {
        PathArgumentsIr::Empty => Vec::new(),
        PathArgumentsIr::AngleBracketed(items) => argument_list(items),
        PathArgumentsIr::Parenthesized { inputs, output } => {
            let modeled_output = match output {
                Some(output) => type_expression(output),
                None => unit_expression(),
            };
            let function = TypeExpressionIr::FunctionPointer {
                abi: AbiIr::Rust,
                is_unsafe: false,
                is_variadic: false,
                lifetimes: Vec::new(),
                parameters: type_expressions(inputs),
                output: Box::new(modeled_output),
            };
            let mut modeled: Vec<GenericArgumentExpressionIr> = Vec::new();
            modeled.push(GenericArgumentExpressionIr::Type(function));
            modeled
        },
    }
}

fn argument_list(items: &Vec<PathArgumentIr>) -> (modeled: Vec<GenericArgumentExpressionIr>)
    requires
        forall|i: int| 0 <= i < items@.len() ==> argument_qualified_items(#[trigger] items@[i]),
    ensures
        argument_list_expresses(modeled@, items@),
    decreases items,
{
    let mut modeled: Vec<GenericArgumentExpressionIr> = Vec::new();
    let mut index: usize = 0;
    assert(items@.take(0) =~= Seq::<PathArgumentIr>::empty());
    while index < items.len()
        invariant
            index <= items@.len(),
            forall|i: int| 0 <= i < items@.len() ==> argument_qualified_items(#[trigger] items@[i]),
            argument_list_expresses(modeled@, items@.take(index as int)),
        decreases items.len() - index,
    {
        let ghost before = modeled@;
        let ghost item = items@[index as int];
        assert(items@.take(index + 1) =~= items@.take(index as int) + seq![item]);
        let kept = match &items[index] {
            PathArgumentIr::Lifetime(_) => true,
            PathArgumentIr::Type(_) => true,
            PathArgumentIr::Const(_) => true,
            PathArgumentIr::AssociatedType { .. } => true,
            _ => false,
        };
        if kept {
            assert(decreases_to!(items => items@[index as int]));
            let argument = argument_expression(&items[index]);
            proof {
                assert(seq![argument].drop_first() =~= Seq::<GenericArgumentExpressionIr>::empty());
                assert(seq![item].drop_first() =~= Seq::<PathArgumentIr>::empty());
                assert(argument_list_expresses(
                    Seq::<GenericArgumentExpressionIr>::empty(),
                    Seq::<PathArgumentIr>::empty(),
                ));
                assert(seq![argument][0] == argument && seq![item][0] == item);
                assert(argument_kept(item));
                assert(argument_expresses(argument, item));
                assert(argument_list_expresses(seq![argument], seq![item]));
                lemma_argument_list_append(before, items@.take(index as int), seq![argument], seq![item]);
            }
            modeled.push(argument);
            assert(modeled@ =~= before + seq![argument]);
        } else {
            proof {
                assert(seq![item].drop_first() =~= Seq::<PathArgumentIr>::empty());
                assert(argument_list_expresses(
                    Seq::<GenericArgumentExpressionIr>::empty(),
                    Seq::<PathArgumentIr>::empty(),
                ));
                assert(seq![item][0] == item);
                assert(!argument_kept(item));
                assert(argument_list_expresses(Seq::<GenericArgumentExpressionIr>::empty(), seq![item]));
                lemma_argument_list_append(
                    before,
                    items@.take(index as int),
                    Seq::<GenericArgumentExpressionIr>::empty(),
                    seq![item],
                );
                assert(before + Seq::<GenericArgumentExpressionIr>::empty() =~= before);
            }
        }
        index += 1;
    }
    assert(items@.take(items@.len() as int) =~= items@);
    modeled
}

pub(crate) fn argument_expression(item: &PathArgumentIr) -> (modeled: GenericArgumentExpressionIr)
    requires
        argument_kept(*item),
        argument_qualified_items(*item),
    ensures
        argument_expresses(modeled, *item),
    decreases item,
{
    match item {
        PathArgumentIr::Lifetime(lifetime) => GenericArgumentExpressionIr::Lifetime(
            lifetime_expression(lifetime.as_str()),
        ),
        PathArgumentIr::Type(ty) => GenericArgumentExpressionIr::Type(type_expression(ty)),
        PathArgumentIr::Const(tokens) => GenericArgumentExpressionIr::Const(const_argument_value(tokens)),
        PathArgumentIr::AssociatedType { name, ty } => GenericArgumentExpressionIr::AssociatedType {
            name: name.clone(),
            value: type_expression(ty),
        },
        _ => {
            proof {
                assert(false);
            }
            GenericArgumentExpressionIr::Lifetime(LifetimeExpressionIr::Elided)
        },
    }
}

} // verus!

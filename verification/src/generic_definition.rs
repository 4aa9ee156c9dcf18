//! The runtime model of a generic declaration: its parameters with their
//! bounds and defaults, and its `where` predicates.

use vstd::prelude::*;

use crate::constant::const_default_admits;
use crate::constant::const_default_value;
use crate::constant::result_view;
use crate::constant::ConstValueIr;
use crate::ir::GenericBoundIr;
use crate::ir::GenericDefaultIr;
use crate::ir::GenericKindIr;
use crate::ir::GenericParamIr;
use crate::ir::GenericsIr;
use crate::ir::TraitBoundModifierIr;
use crate::ir::WherePredicateIr;
use crate::lifetime::lifetime_expresses;
use crate::lifetime::lifetime_expression;
use crate::lifetime::LifetimeExpressionIr;
use crate::substitution::tokens_view;
use crate::type_expression::bound_predicates;
use crate::type_expression::expresses;
use crate::type_expression::lifetimes_express;
use crate::type_expression::predicates_express;
use crate::type_expression::qualified_items;
use crate::type_expression::type_expression;
use crate::type_expression::PredicateExpressionIr;
use crate::type_expression::TypeExpressionIr;

verus! {

// ---------------------------------------------------------------------------
// The model
// ---------------------------------------------------------------------------

/// One generic parameter of a definition.
#[derive(Debug)]
pub enum GenericParameterExpressionIr {
    /// A lifetime parameter and the lifetimes it outlives.
    Lifetime { name: String, bounds: Vec<LifetimeExpressionIr> },
    /// A type parameter, its bounds on itself, and its default type.
    Type { name: String, bounds: Vec<PredicateExpressionIr>, default: Option<TypeExpressionIr> },
    /// A const parameter, its type, and its default value or the diagnostic
    /// that refuses it.
    Const { name: String, ty: TypeExpressionIr, default: Option<Result<ConstValueIr, String>> },
}

/// A trait named by a `where` bound, and whether it is `?Trait`.
#[derive(Debug)]
pub struct TraitReferenceIr {
    pub source: String,
    pub maybe: bool,
}

/// One predicate of a definition.
#[derive(Debug)]
pub enum WherePredicateExpressionIr {
    /// `'a: 'b + 'c`.
    LifetimeOutlives { lifetime: LifetimeExpressionIr, bounds: Vec<LifetimeExpressionIr> },
    /// The trait bounds of one bounded type, with its `for<...>` lifetimes.
    TypeBound { subject: TypeExpressionIr, traits: Vec<TraitReferenceIr>, lifetimes: Vec<LifetimeExpressionIr> },
    /// One lifetime a bounded type outlives.
    TypeOutlives { subject: TypeExpressionIr, lifetime: LifetimeExpressionIr },
}

/// The runtime model of a generic declaration.
#[derive(Debug)]
pub struct GenericDefinitionIr {
    pub parameters: Vec<GenericParameterExpressionIr>,
    pub predicates: Vec<WherePredicateExpressionIr>,
}

// ---------------------------------------------------------------------------
// Bounds
// ---------------------------------------------------------------------------

/// The lifetime bounds among `bounds`, in order.
pub open spec fn lifetime_bounds(bounds: Seq<GenericBoundIr>) -> Seq<String>
    decreases bounds.len(),
{
    if bounds.len() == 0 {
        Seq::empty()
    } else {
        match bounds.last() {
            GenericBoundIr::Lifetime(lifetime) => lifetime_bounds(bounds.drop_last()).push(lifetime),
            _ => lifetime_bounds(bounds.drop_last()),
        }
    }
}

/// The trait bounds among `bounds`, in order.
pub open spec fn trait_bounds(bounds: Seq<GenericBoundIr>) -> Seq<GenericBoundIr>
    decreases bounds.len(),
{
    if bounds.len() == 0 {
        Seq::empty()
    } else if bounds.last() is Trait {
        trait_bounds(bounds.drop_last()).push(bounds.last())
    } else {
        trait_bounds(bounds.drop_last())
    }
}

fn lifetime_bound_expressions(bounds: &Vec<GenericBoundIr>) -> (expressions: Vec<LifetimeExpressionIr>)
    ensures
        lifetimes_express(expressions@, lifetime_bounds(bounds@)),
{
    let mut expressions: Vec<LifetimeExpressionIr> = Vec::new();
    let mut index: usize = 0;
    while index < bounds.len()
        invariant
            index <= bounds@.len(),
            lifetimes_express(expressions@, lifetime_bounds(bounds@.take(index as int))),
        decreases bounds.len() - index,
    {
        assert(bounds@.take(index + 1).drop_last() =~= bounds@.take(index as int));
        assert(bounds@.take(index + 1).last() == bounds@[index as int]);
        if let GenericBoundIr::Lifetime(lifetime) = &bounds[index] {
            expressions.push(lifetime_expression(lifetime.as_str()));
        }
        index += 1;
    }
    assert(bounds@.take(bounds@.len() as int) =~= bounds@);
    expressions
}

/// Whether a trait reference models a trait bound.
pub open spec fn trait_reference_expresses(reference: TraitReferenceIr, bound: GenericBoundIr) -> bool {
    match bound {
        GenericBoundIr::Trait { path, modifier, .. } => reference.source@ == path.source@ && reference.maybe == (
        modifier == TraitBoundModifierIr::Maybe),
        _ => false,
    }
}

/// Whether trait references model trait bounds, one for one.
pub open spec fn traits_express(traits: Seq<TraitReferenceIr>, bounds: Seq<GenericBoundIr>) -> bool {
    &&& traits.len() == bounds.len()
    &&& forall|i: int| 0 <= i < bounds.len() ==> trait_reference_expresses(#[trigger] traits[i], bounds[i])
}

fn trait_references(bounds: &Vec<GenericBoundIr>) -> (traits: Vec<TraitReferenceIr>)
    ensures
        traits_express(traits@, trait_bounds(bounds@)),
{
    let mut traits: Vec<TraitReferenceIr> = Vec::new();
    let mut index: usize = 0;
    while index < bounds.len()
        invariant
            index <= bounds@.len(),
            traits_express(traits@, trait_bounds(bounds@.take(index as int))),
        decreases bounds.len() - index,
    {
        assert(bounds@.take(index + 1).drop_last() =~= bounds@.take(index as int));
        assert(bounds@.take(index + 1).last() == bounds@[index as int]);
        let ghost before = traits@;
        let ghost before_bounds = trait_bounds(bounds@.take(index as int));
        if let GenericBoundIr::Trait { path, modifier, .. } = &bounds[index] {
            let reference = TraitReferenceIr {
                source: path.source.clone(),
                maybe: *modifier == TraitBoundModifierIr::Maybe,
            };
            assert(trait_reference_expresses(reference, bounds@[index as int]));
            traits.push(reference);
            proof {
                let after = trait_bounds(bounds@.take(index + 1));
                assert(after == before_bounds.push(bounds@[index as int]));
                assert forall|i: int| 0 <= i < after.len() implies trait_reference_expresses(
                    #[trigger] traits@[i],
                    after[i],
                ) by {
                    if i < before.len() {
                        assert(traits@[i] == before[i]);
                    }
                }
            }
        }
        index += 1;
    }
    assert(bounds@.take(bounds@.len() as int) =~= bounds@);
    traits
}

// ---------------------------------------------------------------------------
// Parameters
// ---------------------------------------------------------------------------

/// Whether the types a parameter's model reads have well-formed qualified
/// paths.
pub open spec fn parameter_qualified_items(parameter: GenericParamIr) -> bool {
    &&& match parameter.const_type {
        Some(ty) => qualified_items(ty),
        None => true,
    }
    &&& match parameter.default {
        Some(GenericDefaultIr::Type(ty)) => qualified_items(ty),
        _ => true,
    }
}

/// The type of a const parameter whose type is not known: `_`, without a
/// diagnostic.
pub open spec fn unknown_const_type(expression: TypeExpressionIr) -> bool {
    expression matches TypeExpressionIr::Concrete { segments, arguments, diagnostic } && segments@.len() == 1
        && segments@[0]@ == "_"@ && arguments@.len() == 0 && diagnostic@.len() == 0
}

/// Whether a parameter model describes a generic parameter.
pub open spec fn parameter_expresses(modeled: GenericParameterExpressionIr, parameter: GenericParamIr) -> bool {
    match parameter.kind {
        GenericKindIr::Lifetime => modeled matches GenericParameterExpressionIr::Lifetime { name, bounds }
            && name@ == parameter.name@ && lifetimes_express(bounds@, lifetime_bounds(parameter.bounds@)),
        GenericKindIr::Type => match modeled {
            GenericParameterExpressionIr::Type { name, bounds, default } => {
                &&& name@ == parameter.name@
                &&& predicates_express(bounds@, parameter.bounds@)
                &&& match parameter.default {
                    Some(GenericDefaultIr::Type(ty)) => default matches Some(value) && expresses(value, ty),
                    _ => default is None,
                }
            },
            _ => false,
        },
        GenericKindIr::Const => match modeled {
            GenericParameterExpressionIr::Const { name, ty, default } => {
                &&& name@ == parameter.name@
                &&& match parameter.const_type {
                    Some(declared) => expresses(ty, declared),
                    None => unknown_const_type(ty),
                }
                &&& match parameter.default {
                    Some(GenericDefaultIr::Const(tokens)) => default matches Some(value) && const_default_admits(
                        result_view(value),
                        tokens_view(tokens@),
                    ),
                    _ => default is None,
                }
            },
            _ => false,
        },
    }
}

fn unknown_const_type_expression() -> (expression: TypeExpressionIr)
    ensures
        unknown_const_type(expression),
{
    proof {
        reveal_strlit("_");
        reveal_strlit("");
    }
    let mut segments: Vec<String> = Vec::new();
    segments.push("_".to_string());
    TypeExpressionIr::Concrete { segments, arguments: Vec::new(), diagnostic: "".to_string() }
}

/// Returns the model of one generic parameter.
pub fn parameter_expression(parameter: &GenericParamIr) -> (modeled: GenericParameterExpressionIr)
    requires
        parameter_qualified_items(*parameter),
    ensures
        parameter_expresses(modeled, *parameter),
{
    match parameter.kind {
        GenericKindIr::Lifetime => GenericParameterExpressionIr::Lifetime {
            name: parameter.name.clone(),
            bounds: lifetime_bound_expressions(&parameter.bounds),
        },
        GenericKindIr::Type => {
            let default = match &parameter.default {
                Some(GenericDefaultIr::Type(ty)) => Some(type_expression(ty)),
                _ => None,
            };
            GenericParameterExpressionIr::Type {
                name: parameter.name.clone(),
                bounds: bound_predicates(&parameter.bounds),
                default,
            }
        },
        GenericKindIr::Const => {
            let ty = match &parameter.const_type {
                Some(declared) => type_expression(declared),
                None => unknown_const_type_expression(),
            };
            let default = match &parameter.default {
                Some(GenericDefaultIr::Const(tokens)) => Some(const_default_value(tokens)),
                _ => None,
            };
            GenericParameterExpressionIr::Const { name: parameter.name.clone(), ty, default }
        },
    }
}

// ---------------------------------------------------------------------------
// Predicates
// ---------------------------------------------------------------------------

/// How many predicate models a `where` predicate gives: one for a lifetime
/// predicate; for a type predicate, one for its trait bounds if it has any
/// and one per lifetime bound; none for anything else.
pub open spec fn produced(predicate: WherePredicateIr) -> nat {
    match predicate {
        WherePredicateIr::Lifetime { .. } => 1,
        WherePredicateIr::Type { bounds, .. } => (if trait_bounds(bounds@).len() > 0 {
            1nat
        } else {
            0nat
        }) + lifetime_bounds(bounds@).len(),
        WherePredicateIr::Other(_) => 0,
    }
}

/// Whether a predicate model says that `bounded` outlives `lifetime`.
pub open spec fn outlives_expresses(
    modeled: WherePredicateExpressionIr,
    bounded: crate::ir::TypeIr,
    lifetime: String,
) -> bool {
    modeled matches WherePredicateExpressionIr::TypeOutlives { subject, lifetime: modeled_lifetime } && expresses(
        subject,
        bounded,
    ) && lifetime_expresses(modeled_lifetime, lifetime@)
}

/// Whether predicate models are those one `where` predicate gives, in order.
pub open spec fn chunk_expresses(chunk: Seq<WherePredicateExpressionIr>, predicate: WherePredicateIr) -> bool {
    &&& chunk.len() == produced(predicate)
    &&& match predicate {
        WherePredicateIr::Lifetime { lifetime, bounds, .. } => chunk[0] matches WherePredicateExpressionIr::LifetimeOutlives {
            lifetime: modeled,
            bounds: modeled_bounds,
        } && lifetime_expresses(modeled, lifetime@) && lifetimes_express(modeled_bounds@, bounds@),
        WherePredicateIr::Type { bounded_type, lifetimes, bounds, .. } => {
            let traits = trait_bounds(bounds@);
            let outlives = lifetime_bounds(bounds@);
            let first = if traits.len() > 0 {
                1int
            } else {
                0int
            };
            &&& traits.len() > 0 ==> (chunk[0] matches WherePredicateExpressionIr::TypeBound {
                subject,
                traits: modeled_traits,
                lifetimes: modeled_lifetimes,
            } && expresses(subject, bounded_type) && traits_express(modeled_traits@, traits) && lifetimes_express(
                modeled_lifetimes@,
                lifetimes@,
            ))
            &&& forall|j: int|
                0 <= j < outlives.len() ==> outlives_expresses(#[trigger] chunk[first + j], bounded_type, outlives[j])
        },
        WherePredicateIr::Other(_) => true,
    }
}

/// Whether predicate models are those the `where` predicates give, in order.
pub open spec fn predicates_listed(modeled: Seq<WherePredicateExpressionIr>, predicates: Seq<WherePredicateIr>) -> bool
    decreases predicates.len(),
{
    if predicates.len() == 0 {
        modeled.len() == 0
    } else {
        let count = produced(predicates[0]) as int;
        &&& modeled.len() >= count
        &&& chunk_expresses(modeled.take(count), predicates[0])
        &&& predicates_listed(modeled.skip(count), predicates.drop_first())
    }
}

proof fn lemma_predicates_listed_append(
    first: Seq<WherePredicateExpressionIr>,
    first_predicates: Seq<WherePredicateIr>,
    second: Seq<WherePredicateExpressionIr>,
    second_predicates: Seq<WherePredicateIr>,
)
    requires
        predicates_listed(first, first_predicates),
        predicates_listed(second, second_predicates),
    ensures
        predicates_listed(first + second, first_predicates + second_predicates),
    decreases first_predicates.len(),
{
    if first_predicates.len() == 0 {
        assert(first + second =~= second);
        assert(first_predicates + second_predicates =~= second_predicates);
    } else {
        let count = produced(first_predicates[0]) as int;
        let joined = first + second;
        assert((first_predicates + second_predicates)[0] == first_predicates[0]);
        assert((first_predicates + second_predicates).drop_first() =~= first_predicates.drop_first() + second_predicates);
        assert(joined.take(count) =~= first.take(count));
        assert(joined.skip(count) =~= first.skip(count) + second);
        lemma_predicates_listed_append(first.skip(count), first_predicates.drop_first(), second, second_predicates);
    }
}

/// Whether the types a predicate's model reads have well-formed qualified
/// paths.
pub open spec fn predicate_qualified_items(predicate: WherePredicateIr) -> bool {
    match predicate {
        WherePredicateIr::Type { bounded_type, .. } => qualified_items(bounded_type),
        _ => true,
    }
}

/// Returns the predicate models one `where` predicate gives.
pub fn where_predicate_expressions(predicate: &WherePredicateIr) -> (chunk: Vec<WherePredicateExpressionIr>)
    requires
        predicate_qualified_items(*predicate),
    ensures
        chunk_expresses(chunk@, *predicate),
{
    let mut chunk: Vec<WherePredicateExpressionIr> = Vec::new();
    match predicate {
        WherePredicateIr::Lifetime { lifetime, bounds, .. } => {
            let mut modeled_bounds: Vec<LifetimeExpressionIr> = Vec::new();
            let mut index: usize = 0;
            while index < bounds.len()
                invariant
                    index <= bounds@.len(),
                    modeled_bounds@.len() == index,
                    forall|i: int| 0 <= i < index ==> lifetime_expresses(#[trigger] modeled_bounds@[i], bounds@[i]@),
                decreases bounds.len() - index,
            {
                modeled_bounds.push(lifetime_expression(bounds[index].as_str()));
                index += 1;
            }
            chunk.push(
                WherePredicateExpressionIr::LifetimeOutlives {
                    lifetime: lifetime_expression(lifetime.as_str()),
                    bounds: modeled_bounds,
                },
            );
        },
        WherePredicateIr::Type { bounded_type, lifetimes, bounds, .. } => {
            let traits = trait_references(bounds);
            let first: usize = if traits.len() > 0 {
                let mut modeled_lifetimes: Vec<LifetimeExpressionIr> = Vec::new();
                let mut index: usize = 0;
                while index < lifetimes.len()
                    invariant
                        index <= lifetimes@.len(),
                        modeled_lifetimes@.len() == index,
                        forall|i: int|
                            0 <= i < index ==> lifetime_expresses(#[trigger] modeled_lifetimes@[i], lifetimes@[i]@),
                    decreases lifetimes.len() - index,
                {
                    modeled_lifetimes.push(lifetime_expression(lifetimes[index].as_str()));
                    index += 1;
                }
                chunk.push(
                    WherePredicateExpressionIr::TypeBound {
                        subject: type_expression(bounded_type),
                        traits,
                        lifetimes: modeled_lifetimes,
                    },
                );
                1
            } else {
                0
            };
            let ghost outlives = lifetime_bounds(bounds@);
            let mut index: usize = 0;
            while index < bounds.len()
                invariant
                    index <= bounds@.len(),
                    qualified_items(*bounded_type),
                    chunk@.len() == first + lifetime_bounds(bounds@.take(index as int)).len(),
                    first == 1 ==> (chunk@[0] matches WherePredicateExpressionIr::TypeBound {
                        subject,
                        traits: modeled_traits,
                        lifetimes: modeled_lifetimes,
                    } && expresses(subject, *bounded_type) && traits_express(
                        modeled_traits@,
                        trait_bounds(bounds@),
                    ) && lifetimes_express(modeled_lifetimes@, lifetimes@)),
                    first == 1 <==> trait_bounds(bounds@).len() > 0,
                    forall|j: int|
                        0 <= j < lifetime_bounds(bounds@.take(index as int)).len() ==> outlives_expresses(
                            #[trigger] chunk@[first + j],
                            *bounded_type,
                            lifetime_bounds(bounds@.take(index as int))[j],
                        ),
                decreases bounds.len() - index,
            {
                assert(bounds@.take(index + 1).drop_last() =~= bounds@.take(index as int));
                assert(bounds@.take(index + 1).last() == bounds@[index as int]);
                let ghost before = chunk@;
                if let GenericBoundIr::Lifetime(lifetime) = &bounds[index] {
                    let modeled = WherePredicateExpressionIr::TypeOutlives {
                        subject: type_expression(bounded_type),
                        lifetime: lifetime_expression(lifetime.as_str()),
                    };
                    chunk.push(modeled);
                    proof {
                        let now = lifetime_bounds(bounds@.take(index + 1));
                        assert forall|j: int| 0 <= j < now.len() implies outlives_expresses(
                            #[trigger] chunk@[first + j],
                            *bounded_type,
                            now[j],
                        ) by {
                            if j < now.len() - 1 {
                                assert(chunk@[first + j] == before[first + j]);
                            }
                        }
                    }
                }
                index += 1;
            }
            assert(bounds@.take(bounds@.len() as int) =~= bounds@);
        },
        WherePredicateIr::Other(_) => {},
    }
    chunk
}

/// Whether a definition model describes a generic declaration: one model
/// per parameter, in order, and the predicate models of its `where`
/// predicates, in order.
pub open spec fn definition_expresses(definition: GenericDefinitionIr, generics: GenericsIr) -> bool {
    &&& definition.parameters@.len() == generics.params@.len()
    &&& forall|i: int|
        0 <= i < generics.params@.len() ==> parameter_expresses(
            #[trigger] definition.parameters@[i],
            generics.params@[i],
        )
    &&& predicates_listed(definition.predicates@, generics.where_predicates@)
}

/// Whether the types a generic declaration's model reads have well-formed
/// qualified paths.
pub open spec fn generics_qualified_items(generics: GenericsIr) -> bool {
    &&& forall|i: int| 0 <= i < generics.params@.len() ==> parameter_qualified_items(#[trigger] generics.params@[i])
    &&& forall|i: int|
        0 <= i < generics.where_predicates@.len() ==> predicate_qualified_items(
            #[trigger] generics.where_predicates@[i],
        )
}

/// Converts generic declaration facts into the runtime generic definition
/// model.
pub fn generic_definition(generics: &GenericsIr) -> (definition: GenericDefinitionIr)
    requires
        generics_qualified_items(*generics),
    ensures
        definition_expresses(definition, *generics),
{
    let mut parameters: Vec<GenericParameterExpressionIr> = Vec::new();
    let mut index: usize = 0;
    while index < generics.params.len()
        invariant
            index <= generics.params@.len(),
            generics_qualified_items(*generics),
            parameters@.len() == index,
            forall|i: int| 0 <= i < index ==> parameter_expresses(#[trigger] parameters@[i], generics.params@[i]),
        decreases generics.params.len() - index,
    {
        parameters.push(parameter_expression(&generics.params[index]));
        index += 1;
    }
    let predicates_in = &generics.where_predicates;
    let mut predicates: Vec<WherePredicateExpressionIr> = Vec::new();
    let mut position: usize = 0;
    assert(predicates_in@.take(0) =~= Seq::<WherePredicateIr>::empty());
    while position < predicates_in.len()
        invariant
            position <= predicates_in@.len(),
            *predicates_in == generics.where_predicates,
            generics_qualified_items(*generics),
            predicates_listed(predicates@, predicates_in@.take(position as int)),
        decreases predicates_in.len() - position,
    {
        let ghost before = predicates@;
        let ghost predicate = predicates_in@[position as int];
        let mut chunk = where_predicate_expressions(&predicates_in[position]);
        proof {
            let count = produced(predicate) as int;
            assert(chunk@.take(count) =~= chunk@);
            assert(chunk@.skip(count) =~= Seq::<WherePredicateExpressionIr>::empty());
            assert(seq![predicate].drop_first() =~= Seq::<WherePredicateIr>::empty());
            assert(seq![predicate][0] == predicate);
            assert(predicates_listed(Seq::<WherePredicateExpressionIr>::empty(), Seq::<WherePredicateIr>::empty()));
            assert(predicates_listed(chunk@, seq![predicate]));
            lemma_predicates_listed_append(before, predicates_in@.take(position as int), chunk@, seq![predicate]);
            assert(predicates_in@.take(position + 1) =~= predicates_in@.take(position as int) + seq![predicate]);
        }
        let ghost joined = before + chunk@;
        predicates.append(&mut chunk);
        assert(predicates@ =~= joined);
        position += 1;
    }
    assert(predicates_in@.take(predicates_in@.len() as int) =~= predicates_in@);
    GenericDefinitionIr { parameters, predicates }
}

// ---------------------------------------------------------------------------
// Concrete arguments of a monomorphized root
// ---------------------------------------------------------------------------

/// One runtime argument of a monomorphized generic root, with the position
/// of its parameter in the definition.
#[derive(Debug)]
pub enum ConcreteArgumentIr {
    /// A type parameter, resolved from its name at run time.
    Type { definition_index: usize, name: String },
    /// A const parameter and its declared type.
    Const { definition_index: usize, name: String, declared: TypeExpressionIr },
}

/// Whether a concrete argument describes the parameter at `index`.
pub open spec fn concrete_argument_describes(argument: ConcreteArgumentIr, parameter: GenericParamIr, index: int) -> bool {
    match parameter.kind {
        GenericKindIr::Type => argument matches ConcreteArgumentIr::Type { definition_index, name }
            && definition_index == index && name@ == parameter.name@,
        GenericKindIr::Const => argument matches ConcreteArgumentIr::Const { definition_index, name, declared }
            && definition_index == index && name@ == parameter.name@ && match parameter.const_type {
            Some(ty) => expresses(declared, ty),
            None => false,
        },
        GenericKindIr::Lifetime => false,
    }
}

/// The positions of the type and const parameters, in order.
pub open spec fn argument_positions(params: Seq<GenericParamIr>) -> Seq<int>
    decreases params.len(),
{
    if params.len() == 0 {
        Seq::empty()
    } else if params.last().kind == GenericKindIr::Lifetime {
        argument_positions(params.drop_last())
    } else {
        argument_positions(params.drop_last()).push(params.len() - 1)
    }
}

/// Whether every const parameter declares its type, with well-formed
/// qualified paths, as a parsed declaration does.
pub open spec fn const_types_declared(params: Seq<GenericParamIr>) -> bool {
    forall|i: int|
        0 <= i < params.len() && (#[trigger] params[i]).kind == GenericKindIr::Const ==> match params[i].const_type {
            Some(ty) => qualified_items(ty),
            None => false,
        }
}

/// Returns the runtime arguments of a monomorphized generic root: one per
/// type or const parameter, in order, each with its parameter's position.
pub fn concrete_arguments(generics: &GenericsIr) -> (arguments: Vec<ConcreteArgumentIr>)
    requires
        const_types_declared(generics.params@),
    ensures
        arguments@.len() == argument_positions(generics.params@).len(),
        forall|k: int|
            0 <= k < arguments@.len() ==> concrete_argument_describes(
                #[trigger] arguments@[k],
                generics.params@[argument_positions(generics.params@)[k]],
                argument_positions(generics.params@)[k],
            ),
{
    let params = &generics.params;
    let mut arguments: Vec<ConcreteArgumentIr> = Vec::new();
    let mut index: usize = 0;
    while index < params.len()
        invariant
            index <= params@.len(),
            *params == generics.params,
            const_types_declared(params@),
            arguments@.len() == argument_positions(params@.take(index as int)).len(),
            forall|k: int|
                0 <= k < arguments@.len() ==> concrete_argument_describes(
                    #[trigger] arguments@[k],
                    params@[argument_positions(params@.take(index as int))[k]],
                    argument_positions(params@.take(index as int))[k],
                ),
        decreases params.len() - index,
    {
        let ghost before = argument_positions(params@.take(index as int));
        proof {
            assert(params@.take(index + 1).drop_last() =~= params@.take(index as int));
            assert(params@.take(index + 1).last() == params@[index as int]);
            assert(params@.take(index + 1).len() - 1 == index);
        }
        let parameter = &params[index];
        match parameter.kind {
            GenericKindIr::Lifetime => {},
            GenericKindIr::Type => {
                arguments.push(ConcreteArgumentIr::Type { definition_index: index, name: parameter.name.clone() });
            },
            GenericKindIr::Const => {
                let declared = match &parameter.const_type {
                    Some(ty) => type_expression(ty),
                    None => {
                        proof {
                            assert(false);
                        }
                        unknown_const_type_expression()
                    },
                };
                arguments.push(
                    ConcreteArgumentIr::Const { definition_index: index, name: parameter.name.clone(), declared },
                );
            },
        }
        proof {
            let after = argument_positions(params@.take(index + 1));
            assert forall|k: int| 0 <= k < arguments@.len() implies concrete_argument_describes(
                #[trigger] arguments@[k],
                params@[after[k]],
                after[k],
            ) by {
                if k < before.len() {
                    assert(after[k] == before[k]);
                }
            }
        }
        index += 1;
    }
    assert(params@.take(params@.len() as int) =~= params@);
    assert(params@ == generics.params@);
    assert forall|k: int| 0 <= k < arguments@.len() implies concrete_argument_describes(
        #[trigger] arguments@[k],
        generics.params@[argument_positions(generics.params@)[k]],
        argument_positions(generics.params@)[k],
    ) by {
        assert(argument_positions(params@.take(index as int)) == argument_positions(generics.params@));
    }
    arguments
}

} // verus!

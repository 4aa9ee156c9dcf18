//! What the payload of a reflected trait records of its declaration: its
//! direct supertraits, reflected or external, and the generic arguments the
//! payload is applied to.

use vstd::prelude::*;

use crate::ir::ExternalTraitIr;
use crate::ir::GenericBoundIr;
use crate::ir::GenericKindIr;
use crate::ir::GenericParamIr;
use crate::ir::PathArgumentIr;
use crate::ir::PathArgumentsIr;
use crate::ir::PathIr;
use crate::ir::TypeKindIr;
use crate::type_expression::argument_expresses;
use crate::type_expression::argument_expression;
use crate::type_expression::argument_kept;
use crate::type_expression::argument_qualified_items;
use crate::type_expression::arguments_express;
use crate::type_expression::arguments_qualified_items;
use crate::type_expression::path_arguments;
use crate::type_expression::GenericArgumentExpressionIr;
use crate::ir::TraitDeclarationIr;
use crate::text::str_eq;

verus! {

// ---------------------------------------------------------------------------
// Direct supertraits
// ---------------------------------------------------------------------------

/// The first external mapping whose path is written as `source`.
pub open spec fn mapping_for(mappings: Seq<ExternalTraitIr>, source: Seq<char>) -> Option<ExternalTraitIr>
    decreases mappings.len(),
{
    if mappings.len() == 0 {
        None
    } else if mappings[0].path.source@ == source {
        Some(mappings[0])
    } else {
        mapping_for(mappings.drop_first(), source)
    }
}

/// How the payload records one direct supertrait.
#[derive(Debug)]
pub enum SupertraitIr<'a> {
    /// A supertrait with an explicit external identity.
    External { path: &'a PathIr, mapping: &'a ExternalTraitIr },
    /// A reflected supertrait, whose own payload is applied.
    Reflected(&'a PathIr),
}

/// The value of a [`SupertraitIr`].
pub enum SupertraitView {
    External(PathIr, ExternalTraitIr),
    Reflected(PathIr),
}

/// The value of one recorded supertrait.
pub open spec fn supertrait_view(supertrait: SupertraitIr<'_>) -> SupertraitView {
    match supertrait {
        SupertraitIr::External { path, mapping } => SupertraitView::External(*path, *mapping),
        SupertraitIr::Reflected(path) => SupertraitView::Reflected(*path),
    }
}

/// How the payload records a bound, if it names a trait: through the first
/// external mapping of the same path, or as a reflected supertrait.
pub open spec fn supertrait_of(bound: GenericBoundIr, mappings: Seq<ExternalTraitIr>) -> Option<SupertraitView> {
    match bound {
        GenericBoundIr::Trait { path, .. } => match mapping_for(mappings, path.source@) {
            Some(mapping) => Some(SupertraitView::External(path, mapping)),
            None => Some(SupertraitView::Reflected(path)),
        },
        _ => None,
    }
}

/// The recorded supertraits of the bounds, in order; lifetime and other
/// bounds are not recorded.
pub open spec fn recorded_supertraits(bounds: Seq<GenericBoundIr>, mappings: Seq<ExternalTraitIr>) -> Seq<
    SupertraitView,
>
    decreases bounds.len(),
{
    if bounds.len() == 0 {
        Seq::empty()
    } else {
        let earlier = recorded_supertraits(bounds.drop_last(), mappings);
        match supertrait_of(bounds.last(), mappings) {
            Some(supertrait) => earlier.push(supertrait),
            None => earlier,
        }
    }
}

fn find_mapping<'a>(mappings: &'a Vec<ExternalTraitIr>, source: &str) -> (mapping: Option<&'a ExternalTraitIr>)
    ensures
        match mapping {
            Some(mapping) => mapping_for(mappings@, source@) == Some(*mapping),
            None => mapping_for(mappings@, source@) is None,
        },
{
    let mut index: usize = 0;
    assert(mappings@.skip(0) =~= mappings@);
    while index < mappings.len()
        invariant
            index <= mappings@.len(),
            mapping_for(mappings@.skip(index as int), source@) == mapping_for(mappings@, source@),
        decreases mappings.len() - index,
    {
        let ghost rest = mappings@.skip(index as int);
        assert(rest[0] == mappings@[index as int]);
        if str_eq(mappings[index].path.source.as_str(), source) {
            return Some(&mappings[index]);
        }
        assert(rest.drop_first() =~= mappings@.skip(index + 1));
        index += 1;
    }
    assert(mappings@.skip(index as int) =~= Seq::<ExternalTraitIr>::empty());
    None
}

/// Returns how the payload of a reflected trait records each of its direct
/// supertraits, in order.
pub fn direct_supertraits(declaration: &TraitDeclarationIr) -> (supertraits: Vec<SupertraitIr<'_>>)
    ensures
        supertraits@.len() == recorded_supertraits(declaration.supertraits@, declaration.external_traits@).len(),
        forall|i: int|
            0 <= i < supertraits@.len() ==> supertrait_view(#[trigger] supertraits@[i]) == recorded_supertraits(
                declaration.supertraits@,
                declaration.external_traits@,
            )[i],
{
    let bounds = &declaration.supertraits;
    let mut supertraits: Vec<SupertraitIr<'_>> = Vec::new();
    let mut index: usize = 0;
    while index < bounds.len()
        invariant
            index <= bounds@.len(),
            *bounds == declaration.supertraits,
            supertraits@.len() == recorded_supertraits(bounds@.take(index as int), declaration.external_traits@).len(),
            forall|i: int|
                0 <= i < supertraits@.len() ==> supertrait_view(#[trigger] supertraits@[i]) == recorded_supertraits(
                    bounds@.take(index as int),
                    declaration.external_traits@,
                )[i],
        decreases bounds.len() - index,
    {
        assert(bounds@.take(index + 1).drop_last() =~= bounds@.take(index as int));
        assert(bounds@.take(index + 1).last() == bounds@[index as int]);
        if let GenericBoundIr::Trait { path, .. } = &bounds[index] {
            match find_mapping(&declaration.external_traits, path.source.as_str()) {
                Some(mapping) => supertraits.push(SupertraitIr::External { path, mapping }),
                None => supertraits.push(SupertraitIr::Reflected(path)),
            }
        }
        index += 1;
    }
    assert(bounds@.take(bounds@.len() as int) =~= bounds@);
    supertraits
}

// ---------------------------------------------------------------------------
// Applied generic arguments
// ---------------------------------------------------------------------------

/// The structural class of a const parameter's declared type.
#[derive(Clone, Copy, Debug, PartialEq, Eq, Structural)]
pub enum ConstClassIr {
    Boolean,
    Character,
    SignedInteger,
    UnsignedInteger,
}

/// The class of a const parameter type written as `source`: `bool`, `char`,
/// a signed or an unsigned primitive integer; no other type has one.
pub open spec fn const_class(source: Seq<char>) -> Option<ConstClassIr> {
    if source == "bool"@ {
        Some(ConstClassIr::Boolean)
    } else if source == "char"@ {
        Some(ConstClassIr::Character)
    } else if source == "i8"@ || source == "i16"@ || source == "i32"@ || source == "i64"@ || source == "i128"@
        || source == "isize"@ {
        Some(ConstClassIr::SignedInteger)
    } else if source == "u8"@ || source == "u16"@ || source == "u32"@ || source == "u64"@ || source == "u128"@
        || source == "usize"@ {
        Some(ConstClassIr::UnsignedInteger)
    } else {
        None
    }
}

/// Returns the class of a const parameter type.
pub fn const_class_of(source: &str) -> (class: Option<ConstClassIr>)
    ensures
        class == const_class(source@),
{
    if str_eq(source, "bool") {
        Some(ConstClassIr::Boolean)
    } else if str_eq(source, "char") {
        Some(ConstClassIr::Character)
    } else if str_eq(source, "i8") || str_eq(source, "i16") || str_eq(source, "i32") || str_eq(source, "i64")
        || str_eq(source, "i128") || str_eq(source, "isize") {
        Some(ConstClassIr::SignedInteger)
    } else if str_eq(source, "u8") || str_eq(source, "u16") || str_eq(source, "u32") || str_eq(source, "u64")
        || str_eq(source, "u128") || str_eq(source, "usize") {
        Some(ConstClassIr::UnsignedInteger)
    } else {
        None
    }
}

/// One generic argument the payload is applied to.
#[derive(Debug)]
pub enum AppliedArgumentIr<'a> {
    /// A type parameter, recorded by its runtime type name.
    Type(&'a GenericParamIr),
    /// A const parameter whose declared type has a structural class.
    Const { parameter: &'a GenericParamIr, class: ConstClassIr },
}

/// The value of an applied argument: the parameter, and the class of a const
/// one.
pub open spec fn applied_view(argument: AppliedArgumentIr<'_>) -> (GenericParamIr, Option<ConstClassIr>) {
    match argument {
        AppliedArgumentIr::Type(parameter) => (*parameter, None),
        AppliedArgumentIr::Const { parameter, class } => (*parameter, Some(class)),
    }
}

/// The argument a parameter contributes: every type parameter, and each
/// const parameter whose declared type has a class; lifetimes contribute
/// none.
pub open spec fn applied_argument(parameter: GenericParamIr) -> Option<(GenericParamIr, Option<ConstClassIr>)> {
    match parameter.kind {
        GenericKindIr::Type => Some((parameter, None)),
        GenericKindIr::Const => match parameter.const_type {
            Some(ty) => match const_class(ty.source@) {
                Some(class) => Some((parameter, Some(class))),
                None => None,
            },
            None => None,
        },
        GenericKindIr::Lifetime => None,
    }
}

/// The arguments the payload is applied to, in parameter order.
pub open spec fn applied_arguments_of(params: Seq<GenericParamIr>) -> Seq<(GenericParamIr, Option<ConstClassIr>)>
    decreases params.len(),
{
    if params.len() == 0 {
        Seq::empty()
    } else {
        let earlier = applied_arguments_of(params.drop_last());
        match applied_argument(params.last()) {
            Some(argument) => earlier.push(argument),
            None => earlier,
        }
    }
}

/// Returns the generic arguments the payload of a reflected trait is
/// applied to, in parameter order.
pub fn applied_arguments(declaration: &TraitDeclarationIr) -> (arguments: Vec<AppliedArgumentIr<'_>>)
    ensures
        arguments@.len() == applied_arguments_of(declaration.generics.params@).len(),
        forall|i: int|
            0 <= i < arguments@.len() ==> applied_view(#[trigger] arguments@[i]) == applied_arguments_of(
                declaration.generics.params@,
            )[i],
{
    let params = &declaration.generics.params;
    let mut arguments: Vec<AppliedArgumentIr<'_>> = Vec::new();
    let mut index: usize = 0;
    while index < params.len()
        invariant
            index <= params@.len(),
            *params == declaration.generics.params,
            arguments@.len() == applied_arguments_of(params@.take(index as int)).len(),
            forall|i: int|
                0 <= i < arguments@.len() ==> applied_view(#[trigger] arguments@[i]) == applied_arguments_of(
                    params@.take(index as int),
                )[i],
        decreases params.len() - index,
    {
        assert(params@.take(index + 1).drop_last() =~= params@.take(index as int));
        assert(params@.take(index + 1).last() == params@[index as int]);
        let parameter = &params[index];
        match parameter.kind {
            GenericKindIr::Type => arguments.push(AppliedArgumentIr::Type(parameter)),
            GenericKindIr::Const => {
                if let Some(ty) = &parameter.const_type {
                    if let Some(class) = const_class_of(ty.source.as_str()) {
                        arguments.push(AppliedArgumentIr::Const { parameter, class });
                    }
                }
            },
            GenericKindIr::Lifetime => {},
        }
        index += 1;
    }
    assert(params@.take(params@.len() as int) =~= params@);
    arguments
}

// ---------------------------------------------------------------------------
// Arguments of an external supertrait
// ---------------------------------------------------------------------------

/// One argument of an external supertrait at the trait hook's instance.
#[derive(Debug)]
pub enum SupertraitArgumentIr<'a> {
    /// A type parameter of the reflected trait, recorded by its runtime type
    /// name at the concrete instance.
    RuntimeType(&'a GenericParamIr),
    /// Any other argument, by its structural model.
    Argument(GenericArgumentExpressionIr),
}

/// The first type parameter named `name`.
pub open spec fn type_parameter_named(params: Seq<GenericParamIr>, name: Seq<char>) -> Option<GenericParamIr>
    decreases params.len(),
{
    if params.len() == 0 {
        None
    } else if params[0].kind == GenericKindIr::Type && params[0].name@ == name {
        Some(params[0])
    } else {
        type_parameter_named(params.drop_first(), name)
    }
}

/// The type parameter an argument names: a one-segment path type spelled
/// like a type parameter of the trait.
pub open spec fn names_type_parameter(item: PathArgumentIr, params: Seq<GenericParamIr>) -> Option<GenericParamIr> {
    match item {
        PathArgumentIr::Type(ty) => match ty.kind {
            TypeKindIr::Path(path) => if path.segments@.len() == 1 {
                type_parameter_named(params, path.segments@[0].name@)
            } else {
                None
            },
            _ => None,
        },
        _ => None,
    }
}

/// Whether supertrait arguments model an angle-bracketed argument list, in
/// order: arguments naming a trait type parameter by its runtime type, the
/// others by their model, and arguments without a model left out.
pub open spec fn supertrait_arguments_listed(
    modeled: Seq<SupertraitArgumentIr<'_>>,
    items: Seq<PathArgumentIr>,
    params: Seq<GenericParamIr>,
) -> bool
    decreases items.len(),
{
    if items.len() == 0 {
        modeled.len() == 0
    } else {
        match names_type_parameter(items[0], params) {
            Some(parameter) => {
                &&& modeled.len() > 0
                &&& modeled[0] matches SupertraitArgumentIr::RuntimeType(named) && *named == parameter
                &&& supertrait_arguments_listed(modeled.drop_first(), items.drop_first(), params)
            },
            None => if argument_kept(items[0]) {
                &&& modeled.len() > 0
                &&& modeled[0] matches SupertraitArgumentIr::Argument(argument) && argument_expresses(
                    argument,
                    items[0],
                )
                &&& supertrait_arguments_listed(modeled.drop_first(), items.drop_first(), params)
            } else {
                supertrait_arguments_listed(modeled, items.drop_first(), params)
            },
        }
    }
}

/// Whether supertrait arguments model a supertrait's arguments.
pub open spec fn supertrait_arguments_express(
    modeled: Seq<SupertraitArgumentIr<'_>>,
    arguments: PathArgumentsIr,
    params: Seq<GenericParamIr>,
) -> bool {
    match arguments {
        PathArgumentsIr::AngleBracketed(items) => supertrait_arguments_listed(modeled, items@, params),
        PathArgumentsIr::Empty => modeled.len() == 0,
        PathArgumentsIr::Parenthesized { .. } => {
            &&& modeled.len() == 1
            &&& modeled[0] matches SupertraitArgumentIr::Argument(argument)
            &&& arguments_express(seq![argument], arguments)
        },
    }
}

proof fn lemma_supertrait_arguments_append<'a>(
    first: Seq<SupertraitArgumentIr<'a>>,
    first_items: Seq<PathArgumentIr>,
    second: Seq<SupertraitArgumentIr<'a>>,
    second_items: Seq<PathArgumentIr>,
    params: Seq<GenericParamIr>,
)
    requires
        supertrait_arguments_listed(first, first_items, params),
        supertrait_arguments_listed(second, second_items, params),
    ensures
        supertrait_arguments_listed(first + second, first_items + second_items, params),
    decreases first_items.len(),
{
    if first_items.len() == 0 {
        assert(first + second =~= second);
        assert(first_items + second_items =~= second_items);
    } else {
        assert((first_items + second_items)[0] == first_items[0]);
        assert((first_items + second_items).drop_first() =~= first_items.drop_first() + second_items);
        if names_type_parameter(first_items[0], params) is Some || argument_kept(first_items[0]) {
            assert((first + second)[0] == first[0]);
            assert((first + second).drop_first() =~= first.drop_first() + second);
            lemma_supertrait_arguments_append(first.drop_first(), first_items.drop_first(), second, second_items, params);
        } else {
            lemma_supertrait_arguments_append(first, first_items.drop_first(), second, second_items, params);
        }
    }
}

fn find_type_parameter<'a>(params: &'a Vec<GenericParamIr>, name: &str) -> (parameter: Option<&'a GenericParamIr>)
    ensures
        match parameter {
            Some(parameter) => type_parameter_named(params@, name@) == Some(*parameter),
            None => type_parameter_named(params@, name@) is None,
        },
{
    let mut index: usize = 0;
    assert(params@.skip(0) =~= params@);
    while index < params.len()
        invariant
            index <= params@.len(),
            type_parameter_named(params@.skip(index as int), name@) == type_parameter_named(params@, name@),
        decreases params.len() - index,
    {
        let ghost rest = params@.skip(index as int);
        assert(rest[0] == params@[index as int]);
        if params[index].kind == GenericKindIr::Type && str_eq(params[index].name.as_str(), name) {
            return Some(&params[index]);
        }
        assert(rest.drop_first() =~= params@.skip(index + 1));
        index += 1;
    }
    assert(params@.skip(index as int) =~= Seq::<GenericParamIr>::empty());
    None
}

fn parameter_named_by<'a>(item: &PathArgumentIr, params: &'a Vec<GenericParamIr>) -> (parameter: Option<
    &'a GenericParamIr,
>)
    ensures
        match parameter {
            Some(parameter) => names_type_parameter(*item, params@) == Some(*parameter),
            None => names_type_parameter(*item, params@) is None,
        },
{
    match item {
        PathArgumentIr::Type(ty) => match &ty.kind {
            TypeKindIr::Path(path) => if path.segments.len() == 1 {
                find_type_parameter(params, path.segments[0].name.as_str())
            } else {
                None
            },
            _ => None,
        },
        _ => None,
    }
}

/// Returns the arguments of an external supertrait as the trait hook's
/// concrete instance records them.
pub fn external_supertrait_arguments<'a>(arguments: &PathArgumentsIr, declaration: &'a TraitDeclarationIr) -> (modeled:
    Vec<SupertraitArgumentIr<'a>>)
    requires
        arguments_qualified_items(*arguments),
    ensures
        supertrait_arguments_express(modeled@, *arguments, declaration.generics.params@),
{
    let params = &declaration.generics.params;
    match arguments {
        PathArgumentsIr::AngleBracketed(items) => {
            let mut modeled: Vec<SupertraitArgumentIr<'a>> = Vec::new();
            let mut index: usize = 0;
            assert(items@.take(0) =~= Seq::<PathArgumentIr>::empty());
            while index < items.len()
                invariant
                    index <= items@.len(),
                    *params == declaration.generics.params,
                    forall|i: int| 0 <= i < items@.len() ==> argument_qualified_items(#[trigger] items@[i]),
                    supertrait_arguments_listed(modeled@, items@.take(index as int), params@),
                decreases items.len() - index,
            {
                let ghost before = modeled@;
                let ghost item = items@[index as int];
                assert(items@.take(index + 1) =~= items@.take(index as int) + seq![item]);
                let ghost empty: Seq<SupertraitArgumentIr<'a>> = Seq::empty();
                proof {
                    assert(seq![item].drop_first() =~= Seq::<PathArgumentIr>::empty());
                    assert(seq![item][0] == item);
                    assert(supertrait_arguments_listed(empty, Seq::<PathArgumentIr>::empty(), params@));
                }
                match parameter_named_by(&items[index], params) {
                    Some(parameter) => {
                        let argument = SupertraitArgumentIr::RuntimeType(parameter);
                        proof {
                            assert(seq![argument].drop_first() =~= empty);
                            assert(seq![argument][0] == argument);
                            assert(supertrait_arguments_listed(seq![argument], seq![item], params@));
                            lemma_supertrait_arguments_append(
                                before,
                                items@.take(index as int),
                                seq![argument],
                                seq![item],
                                params@,
                            );
                        }
                        modeled.push(argument);
                        assert(modeled@ =~= before + seq![argument]);
                    },
                    None => {
                        let kept = match &items[index] {
                            PathArgumentIr::Lifetime(_) => true,
                            PathArgumentIr::Type(_) => true,
                            PathArgumentIr::Const(_) => true,
                            PathArgumentIr::AssociatedType { .. } => true,
                            _ => false,
                        };
                        if kept {
                            let argument = SupertraitArgumentIr::Argument(argument_expression(&items[index]));
                            proof {
                                assert(seq![argument].drop_first() =~= empty);
                                assert(seq![argument][0] == argument);
                                assert(supertrait_arguments_listed(seq![argument], seq![item], params@));
                                lemma_supertrait_arguments_append(
                                    before,
                                    items@.take(index as int),
                                    seq![argument],
                                    seq![item],
                                    params@,
                                );
                            }
                            modeled.push(argument);
                            assert(modeled@ =~= before + seq![argument]);
                        } else {
                            proof {
                                assert(supertrait_arguments_listed(empty, seq![item], params@));
                                lemma_supertrait_arguments_append(
                                    before,
                                    items@.take(index as int),
                                    empty,
                                    seq![item],
                                    params@,
                                );
                                assert(before + empty =~= before);
                            }
                        }
                    },
                }
                index += 1;
            }
            assert(items@.take(items@.len() as int) =~= items@);
            modeled
        },
        PathArgumentsIr::Empty => Vec::new(),
        PathArgumentsIr::Parenthesized { .. } => {
            let mut general = path_arguments(arguments);
            let ghost whole = general@;
            let argument = general.remove(0);
            assert(whole =~= seq![argument]);
            let mut modeled: Vec<SupertraitArgumentIr<'a>> = Vec::new();
            modeled.push(SupertraitArgumentIr::Argument(argument));
            modeled
        },
    }
}

} // verus!

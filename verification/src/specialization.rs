//! The concrete arguments that an explicit specialization supplies to the
//! generic parameters of a reflected impl or method.

use vstd::prelude::*;

use crate::ir::GenericKindIr;
use crate::ir::GenericParamIr;
use crate::ir::SpecializationBindingIr;
use crate::ir::SpecializationIr;
use crate::ir::SpecializationValueIr;
use crate::ir::TokenTreeIr;
use crate::ir::TypeIr;
use crate::text::decimal;
use crate::text::decimal_string;
use crate::text::join4;
use crate::text::str_eq;

verus! {

// ---------------------------------------------------------------------------
// Bindings by name
// ---------------------------------------------------------------------------

/// The first binding of a parameter name, if the specialization has one.
pub open spec fn named_binding(bindings: Seq<SpecializationBindingIr>, name: Seq<char>) -> Option<
    SpecializationBindingIr,
>
    decreases bindings.len(),
{
    if bindings.len() == 0 {
        None
    } else if bindings[0].name@ == name {
        Some(bindings[0])
    } else {
        named_binding(bindings.drop_first(), name)
    }
}

/// Returns the first binding of a parameter name.
pub fn find_binding<'a>(specialization: &'a SpecializationIr, name: &str) -> (binding: Option<
    &'a SpecializationBindingIr,
>)
    ensures
        match binding {
            Some(binding) => named_binding(specialization.bindings@, name@) == Some(*binding),
            None => named_binding(specialization.bindings@, name@) is None,
        },
{
    let bindings = &specialization.bindings;
    let mut index: usize = 0;
    assert(bindings@.skip(0) =~= bindings@);
    while index < bindings.len()
        invariant
            index <= bindings@.len(),
            *bindings == specialization.bindings,
            named_binding(bindings@.skip(index as int), name@) == named_binding(bindings@, name@),
        decreases bindings.len() - index,
    {
        let ghost rest = bindings@.skip(index as int);
        assert(rest[0] == bindings@[index as int]);
        if str_eq(bindings[index].name.as_str(), name) {
            return Some(&bindings[index]);
        }
        assert(rest.drop_first() =~= bindings@.skip(index + 1));
        index += 1;
    }
    assert(bindings@.skip(index as int) =~= Seq::<SpecializationBindingIr>::empty());
    None
}

/// The tokens a bound value supplies to a type parameter: a type, or a path
/// that may name either; a const value supplies none.
pub open spec fn type_tokens(value: SpecializationValueIr) -> Option<Seq<TokenTreeIr>> {
    match value {
        SpecializationValueIr::Type(ty) => Some(ty.tokens@),
        SpecializationValueIr::AmbiguousPath(tokens) => Some(tokens@),
        SpecializationValueIr::Const(_) => None,
    }
}

/// The tokens a bound value supplies to a const parameter: a const
/// expression, or a path that may name either; a type supplies none.
pub open spec fn const_tokens(value: SpecializationValueIr) -> Option<Seq<TokenTreeIr>> {
    match value {
        SpecializationValueIr::Const(tokens) => Some(tokens@),
        SpecializationValueIr::AmbiguousPath(tokens) => Some(tokens@),
        SpecializationValueIr::Type(_) => None,
    }
}

/// The tokens a specialization supplies to a parameter of the given kind;
/// lifetimes are never specialized.
pub open spec fn argument_tokens(bindings: Seq<SpecializationBindingIr>, parameter: GenericParamIr) -> Option<
    Seq<TokenTreeIr>,
> {
    match named_binding(bindings, parameter.name@) {
        Some(binding) => match parameter.kind {
            GenericKindIr::Type => type_tokens(binding.value),
            GenericKindIr::Const => const_tokens(binding.value),
            GenericKindIr::Lifetime => None,
        },
        None => None,
    }
}

/// Returns the tokens a specialization binds to a type parameter.
pub fn specialization_type_argument<'a>(specialization: &'a SpecializationIr, name: &str) -> (tokens: Option<
    &'a Vec<TokenTreeIr>,
>)
    ensures
        match (tokens, named_binding(specialization.bindings@, name@)) {
            (Some(tokens), Some(binding)) => type_tokens(binding.value) == Some(tokens@),
            (None, Some(binding)) => type_tokens(binding.value) is None,
            (None, None) => true,
            (Some(_), None) => false,
        },
{
    match find_binding(specialization, name) {
        Some(binding) => match &binding.value {
            SpecializationValueIr::Type(ty) => Some(&ty.tokens),
            SpecializationValueIr::AmbiguousPath(tokens) => Some(tokens),
            SpecializationValueIr::Const(_) => None,
        },
        None => None,
    }
}

/// Returns the tokens a specialization binds to a const parameter.
pub fn specialization_const_argument<'a>(specialization: &'a SpecializationIr, name: &str) -> (tokens: Option<
    &'a Vec<TokenTreeIr>,
>)
    ensures
        match (tokens, named_binding(specialization.bindings@, name@)) {
            (Some(tokens), Some(binding)) => const_tokens(binding.value) == Some(tokens@),
            (None, Some(binding)) => const_tokens(binding.value) is None,
            (None, None) => true,
            (Some(_), None) => false,
        },
{
    match find_binding(specialization, name) {
        Some(binding) => match &binding.value {
            SpecializationValueIr::Const(tokens) => Some(tokens),
            SpecializationValueIr::AmbiguousPath(tokens) => Some(tokens),
            SpecializationValueIr::Type(_) => None,
        },
        None => None,
    }
}

// ---------------------------------------------------------------------------
// Specialized methods
// ---------------------------------------------------------------------------

/// Whether a specialization supplies every generic parameter of a method:
/// each type and const parameter has a binding of its kind, and the method
/// declares no lifetime parameter.
pub open spec fn fully_specialized(params: Seq<GenericParamIr>, bindings: Seq<SpecializationBindingIr>) -> bool {
    forall|i: int| 0 <= i < params.len() ==> (#[trigger] argument_tokens(bindings, params[i])) is Some
}

/// Returns the concrete argument tokens, one per generic parameter in
/// order, when a specialization supplies every generic parameter of a
/// method; `None` when it does not.
pub fn specialized_arguments<'a>(params: &Vec<GenericParamIr>, specialization: &'a SpecializationIr) -> (arguments:
    Option<Vec<&'a Vec<TokenTreeIr>>>)
    ensures
        match arguments {
            Some(arguments) => {
                &&& fully_specialized(params@, specialization.bindings@)
                &&& arguments@.len() == params@.len()
                &&& forall|i: int|
                    0 <= i < params@.len() ==> argument_tokens(specialization.bindings@, params@[i]) == Some(
                        (#[trigger] arguments@[i])@,
                    )
            },
            None => !fully_specialized(params@, specialization.bindings@),
        },
{
    let mut arguments: Vec<&'a Vec<TokenTreeIr>> = Vec::new();
    let mut index: usize = 0;
    while index < params.len()
        invariant
            index <= params@.len(),
            arguments@.len() == index,
            forall|i: int|
                0 <= i < index ==> argument_tokens(specialization.bindings@, params@[i]) == Some(
                    (#[trigger] arguments@[i])@,
                ),
        decreases params.len() - index,
    {
        let parameter = &params[index];
        let found = match parameter.kind {
            GenericKindIr::Type => specialization_type_argument(specialization, parameter.name.as_str()),
            GenericKindIr::Const => specialization_const_argument(specialization, parameter.name.as_str()),
            GenericKindIr::Lifetime => None,
        };
        match found {
            Some(tokens) => {
                arguments.push(tokens);
            },
            None => {
                assert(argument_tokens(specialization.bindings@, params@[index as int]) is None);
                return None;
            },
        }
        index += 1;
    }
    assert(fully_specialized(params@, specialization.bindings@)) by {
        assert forall|i: int| 0 <= i < params@.len() implies (#[trigger] argument_tokens(
            specialization.bindings@,
            params@[i],
        )) is Some by {
            assert(argument_tokens(specialization.bindings@, params@[i]) == Some(arguments@[i]@));
        }
    }
    Some(arguments)
}

// ---------------------------------------------------------------------------
// Impl specialization arguments
// ---------------------------------------------------------------------------

/// The runtime description of one specialized impl parameter.
#[derive(Debug)]
pub enum SpecializedArgumentIr<'a> {
    /// A type parameter bound to a type.
    Type(&'a TypeIr),
    /// A type parameter bound to a path that may name a type or a const.
    AmbiguousType(&'a Vec<TokenTreeIr>),
    /// A const parameter of the declared type bound to a value.
    Const { declared_type: &'a TypeIr, value: &'a Vec<TokenTreeIr> },
}

/// The value of a [`SpecializedArgumentIr`].
pub enum ArgumentView {
    Type(TypeIr),
    AmbiguousType(Seq<TokenTreeIr>),
    Const(TypeIr, Seq<TokenTreeIr>),
}

/// The value of one specialized argument.
pub open spec fn argument_view(argument: SpecializedArgumentIr<'_>) -> ArgumentView {
    match argument {
        SpecializedArgumentIr::Type(ty) => ArgumentView::Type(*ty),
        SpecializedArgumentIr::AmbiguousType(tokens) => ArgumentView::AmbiguousType(tokens@),
        SpecializedArgumentIr::Const { declared_type, value } => ArgumentView::Const(*declared_type, value@),
    }
}

/// The specialized argument of a type or const parameter: present when the
/// specialization binds the parameter with a value of its kind and, for a
/// const parameter, the parameter declares its type.
pub open spec fn parameter_argument(parameter: GenericParamIr, bindings: Seq<SpecializationBindingIr>) -> Option<
    ArgumentView,
> {
    match named_binding(bindings, parameter.name@) {
        Some(binding) => match (parameter.kind, binding.value) {
            (GenericKindIr::Type, SpecializationValueIr::Type(ty)) => Some(ArgumentView::Type(ty)),
            (GenericKindIr::Type, SpecializationValueIr::AmbiguousPath(tokens)) => Some(
                ArgumentView::AmbiguousType(tokens@),
            ),
            (GenericKindIr::Const, SpecializationValueIr::Const(tokens)) => match parameter.const_type {
                Some(declared) => Some(ArgumentView::Const(declared, tokens@)),
                None => None,
            },
            (GenericKindIr::Const, SpecializationValueIr::AmbiguousPath(tokens)) => match parameter.const_type {
                Some(declared) => Some(ArgumentView::Const(declared, tokens@)),
                None => None,
            },
            _ => None,
        },
        None => None,
    }
}

/// The specialized arguments of an impl's parameters, in order, skipping
/// lifetimes and parameters the specialization does not supply.
pub open spec fn specialized_argument_views(
    params: Seq<GenericParamIr>,
    bindings: Seq<SpecializationBindingIr>,
) -> Seq<ArgumentView>
    decreases params.len(),
{
    if params.len() == 0 {
        Seq::empty()
    } else {
        let earlier = specialized_argument_views(params.drop_last(), bindings);
        match parameter_argument(params.last(), bindings) {
            Some(argument) => earlier.push(argument),
            None => earlier,
        }
    }
}

fn argument_of<'a>(parameter: &'a GenericParamIr, specialization: &'a SpecializationIr) -> (argument: Option<
    SpecializedArgumentIr<'a>,
>)
    ensures
        match argument {
            Some(argument) => parameter_argument(*parameter, specialization.bindings@) == Some(argument_view(argument)),
            None => parameter_argument(*parameter, specialization.bindings@) is None,
        },
{
    let binding = match find_binding(specialization, parameter.name.as_str()) {
        Some(binding) => binding,
        None => return None,
    };
    match (parameter.kind, &binding.value) {
        (GenericKindIr::Type, SpecializationValueIr::Type(ty)) => Some(SpecializedArgumentIr::Type(ty)),
        (GenericKindIr::Type, SpecializationValueIr::AmbiguousPath(tokens)) => Some(
            SpecializedArgumentIr::AmbiguousType(tokens),
        ),
        (GenericKindIr::Const, SpecializationValueIr::Const(tokens)) => match &parameter.const_type {
            Some(declared_type) => Some(SpecializedArgumentIr::Const { declared_type, value: tokens }),
            None => None,
        },
        (GenericKindIr::Const, SpecializationValueIr::AmbiguousPath(tokens)) => match &parameter.const_type {
            Some(declared_type) => Some(SpecializedArgumentIr::Const { declared_type, value: tokens }),
            None => None,
        },
        _ => None,
    }
}

/// Returns the specialized arguments of an impl's generic parameters, in
/// order: a type, an ambiguous path read as a type, or a const value with
/// its declared type. Lifetimes and parameters without a binding of their
/// kind are left out.
pub fn specialization_arguments<'a>(specialization: &'a SpecializationIr, params: &'a Vec<GenericParamIr>) -> (arguments:
    Vec<SpecializedArgumentIr<'a>>)
    ensures
        arguments@.len() == specialized_argument_views(params@, specialization.bindings@).len(),
        forall|i: int|
            0 <= i < arguments@.len() ==> argument_view(#[trigger] arguments@[i]) == specialized_argument_views(
                params@,
                specialization.bindings@,
            )[i],
{
    let mut arguments: Vec<SpecializedArgumentIr<'a>> = Vec::new();
    let mut index: usize = 0;
    while index < params.len()
        invariant
            index <= params@.len(),
            arguments@.len() == specialized_argument_views(params@.take(index as int), specialization.bindings@).len(),
            forall|i: int|
                0 <= i < arguments@.len() ==> argument_view(#[trigger] arguments@[i]) == specialized_argument_views(
                    params@.take(index as int),
                    specialization.bindings@,
                )[i],
        decreases params.len() - index,
    {
        assert(params@.take(index + 1).drop_last() =~= params@.take(index as int));
        assert(params@.take(index + 1).last() == params@[index as int]);
        if let Some(argument) = argument_of(&params[index], specialization) {
            arguments.push(argument);
        }
        index += 1;
    }
    assert(params@.take(params@.len() as int) =~= params@);
    arguments
}

// ---------------------------------------------------------------------------
// Names
// ---------------------------------------------------------------------------

/// The static name of the adapter descriptor of one method specialization.
pub open spec fn specialization_descriptor(method_index: nat, specialization_index: nat) -> Seq<char> {
    "__QUBIT_REFLECT_GENERIC_SPECIALIZATION_ADAPTER_"@ + decimal(method_index) + "_"@ + decimal(
        specialization_index,
    )
}

/// Returns the static descriptor name shared by specialization emission and
/// registration.
pub fn specialization_descriptor_name(method_index: usize, specialization_index: usize) -> (name: String)
    ensures
        name@ == specialization_descriptor(method_index as nat, specialization_index as nat),
{
    let method = decimal_string(method_index);
    let specialization = decimal_string(specialization_index);
    proof {
        reveal_strlit("__QUBIT_REFLECT_GENERIC_SPECIALIZATION_ADAPTER_");
        reveal_strlit("_");
    }
    join4("__QUBIT_REFLECT_GENERIC_SPECIALIZATION_ADAPTER_", method.as_str(), "_", specialization.as_str())
}

} // verus!

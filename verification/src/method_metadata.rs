//! The structural metadata that a reflected trait's descriptor records for
//! its methods and associated items.

use vstd::prelude::*;

use crate::generic_definition::definition_expresses;
use crate::generic_definition::generic_definition;
use crate::generic_definition::generics_qualified_items;
use crate::generic_definition::GenericDefinitionIr;
use crate::ir::AssociatedConstIr;
use crate::ir::AssociatedTypeIr;
use crate::ir::HelperAttributeIr;
use crate::ir::MethodIr;
use crate::ir::ParameterIr;
use crate::ir::ParameterPatternKindIr;
use crate::ir::ReceiverIr;
use crate::ir::ReceiverKindIr;
use crate::ir::ReturnTypeIr;
use crate::ir::TypeKindIr;
use crate::member_plan::first_rename;
use crate::substitution::token_text;
use crate::substitution::tokens_text;
use crate::substitution::tokens_view;
use crate::type_expression::abi_expresses;
use crate::type_expression::abi_expression;
use crate::type_expression::bound_predicates;
use crate::type_expression::expresses;
use crate::type_expression::predicates_express;
use crate::type_expression::qualified_items;
use crate::type_expression::type_expression;
use crate::type_expression::AbiIr;
use crate::type_expression::PredicateExpressionIr;
use crate::type_expression::TypeExpressionIr;

verus! {

// ---------------------------------------------------------------------------
// Query names
// ---------------------------------------------------------------------------

/// Returns the value of the first `rename` helper, if any.
pub fn first_rename_of(attributes: &Vec<HelperAttributeIr>) -> (rename: Option<&String>)
    ensures
        match rename {
            Some(rename) => first_rename(attributes@) == Some(rename@),
            None => first_rename(attributes@) is None,
        },
{
    let mut index: usize = 0;
    assert(attributes@.skip(0) =~= attributes@);
    while index < attributes.len()
        invariant
            index <= attributes@.len(),
            first_rename(attributes@) == first_rename(attributes@.skip(index as int)),
        decreases attributes.len() - index,
    {
        assert(attributes@.skip(index as int).drop_first() =~= attributes@.skip(index + 1));
        assert(attributes@.skip(index as int)[0] == attributes@[index as int]);
        if let Some(value) = attributes[index].rename() {
            return Some(value);
        }
        index += 1;
    }
    assert(attributes@.skip(index as int) =~= Seq::<HelperAttributeIr>::empty());
    None
}

/// The name a method is queried by: its first rename, or its own name.
pub open spec fn method_query(method: MethodIr) -> Seq<char> {
    match first_rename(method.attributes@) {
        Some(rename) => rename,
        None => method.name@,
    }
}

// ---------------------------------------------------------------------------
// Receivers, parameters and returns
// ---------------------------------------------------------------------------

/// How a method takes its receiver, as its descriptor records it.
#[derive(Debug)]
pub enum ReceiverDescriptorIr {
    Owned,
    Shared,
    Mutable,
    /// An explicitly typed receiver, by its declaration text.
    Explicit(String),
}

/// The descriptor of a receiver.
pub open spec fn receiver_describes(descriptor: ReceiverDescriptorIr, receiver: ReceiverIr) -> bool {
    match receiver.kind {
        ReceiverKindIr::Value => descriptor is Owned,
        ReceiverKindIr::SharedReference => descriptor is Shared,
        ReceiverKindIr::MutableReference => descriptor is Mutable,
        ReceiverKindIr::Typed => descriptor matches ReceiverDescriptorIr::Explicit(text) && text@ == token_text(
            tokens_view(receiver.declaration@),
        ),
    }
}

/// Returns the descriptor of a receiver.
pub fn receiver_descriptor(receiver: &ReceiverIr) -> (descriptor: ReceiverDescriptorIr)
    ensures
        receiver_describes(descriptor, *receiver),
{
    match receiver.kind {
        ReceiverKindIr::Value => ReceiverDescriptorIr::Owned,
        ReceiverKindIr::SharedReference => ReceiverDescriptorIr::Shared,
        ReceiverKindIr::MutableReference => ReceiverDescriptorIr::Mutable,
        ReceiverKindIr::Typed => ReceiverDescriptorIr::Explicit(tokens_text(&receiver.declaration)),
    }
}

/// How a parameter binds its argument, as its descriptor records it.
#[derive(Debug)]
pub enum PatternDescriptorIr {
    Identifier,
    Wildcard,
    /// A destructuring pattern, by its source text.
    Destructure(String),
}

/// How a parameter's argument is passed.
#[derive(Clone, Copy, Debug, PartialEq, Eq, Structural)]
pub enum PassingModeIr {
    Owned,
    SharedBorrow,
    MutableBorrow,
}

/// The descriptor facts of one parameter.
#[derive(Debug)]
pub struct ParameterDescriptorIr {
    pub index: usize,
    pub name: Option<String>,
    pub pattern: PatternDescriptorIr,
    pub passing: PassingModeIr,
    pub ty: TypeExpressionIr,
}

/// The passing mode of a parameter type.
pub open spec fn passing_mode(ty: crate::ir::TypeIr) -> PassingModeIr {
    match ty.kind {
        TypeKindIr::Reference { mutable, .. } => if mutable {
            PassingModeIr::MutableBorrow
        } else {
            PassingModeIr::SharedBorrow
        },
        _ => PassingModeIr::Owned,
    }
}

/// Whether descriptor facts describe a parameter.
pub open spec fn parameter_describes(descriptor: ParameterDescriptorIr, parameter: ParameterIr) -> bool {
    &&& descriptor.index == parameter.index
    &&& match (descriptor.name, parameter.name) {
        (Some(name), Some(expected)) => name@ == expected@,
        (None, None) => true,
        _ => false,
    }
    &&& match parameter.pattern.kind {
        ParameterPatternKindIr::Identifier => descriptor.pattern is Identifier,
        ParameterPatternKindIr::Wildcard => descriptor.pattern is Wildcard,
        ParameterPatternKindIr::Destructure => descriptor.pattern matches PatternDescriptorIr::Destructure(source)
            && source@ == parameter.pattern.source@,
    }
    &&& descriptor.passing == passing_mode(parameter.ty)
    &&& expresses(descriptor.ty, parameter.ty)
}

/// Returns the descriptor facts of one parameter.
pub fn parameter_descriptor(parameter: &ParameterIr) -> (descriptor: ParameterDescriptorIr)
    requires
        qualified_items(parameter.ty),
    ensures
        parameter_describes(descriptor, *parameter),
{
    let name = match &parameter.name {
        Some(name) => Some(name.clone()),
        None => None,
    };
    let pattern = match parameter.pattern.kind {
        ParameterPatternKindIr::Identifier => PatternDescriptorIr::Identifier,
        ParameterPatternKindIr::Wildcard => PatternDescriptorIr::Wildcard,
        ParameterPatternKindIr::Destructure => PatternDescriptorIr::Destructure(parameter.pattern.source.clone()),
    };
    let passing = match &parameter.ty.kind {
        TypeKindIr::Reference { mutable, .. } => if *mutable {
            PassingModeIr::MutableBorrow
        } else {
            PassingModeIr::SharedBorrow
        },
        _ => PassingModeIr::Owned,
    };
    ParameterDescriptorIr { index: parameter.index, name, pattern, passing, ty: type_expression(&parameter.ty) }
}

/// What a method returns, as its descriptor records it.
#[derive(Clone, Copy, Debug, PartialEq, Eq, Structural)]
pub enum ReturnKindIr {
    Never,
    Reference,
    Opaque,
    Concrete,
}

/// The descriptor of a method's return.
#[derive(Debug)]
pub enum ReturnDescriptorIr {
    Unit,
    Value { kind: ReturnKindIr, ty: TypeExpressionIr },
}

/// The kind of a returned type.
pub open spec fn return_kind(ty: crate::ir::TypeIr) -> ReturnKindIr {
    match ty.kind {
        TypeKindIr::Never => ReturnKindIr::Never,
        TypeKindIr::Reference { .. } => ReturnKindIr::Reference,
        TypeKindIr::ImplTrait { .. } => ReturnKindIr::Opaque,
        _ => ReturnKindIr::Concrete,
    }
}

/// Whether a descriptor describes a method's return.
pub open spec fn return_describes(descriptor: ReturnDescriptorIr, return_type: ReturnTypeIr) -> bool {
    match return_type {
        ReturnTypeIr::Unit => descriptor is Unit,
        ReturnTypeIr::Type(ty) => descriptor matches ReturnDescriptorIr::Value { kind, ty: modeled } && kind
            == return_kind(ty) && expresses(modeled, ty),
    }
}

/// Returns the descriptor of a method's return.
pub fn return_descriptor(return_type: &ReturnTypeIr) -> (descriptor: ReturnDescriptorIr)
    requires
        match return_type {
            ReturnTypeIr::Type(ty) => qualified_items(*ty),
            ReturnTypeIr::Unit => true,
        },
    ensures
        return_describes(descriptor, *return_type),
{
    match return_type {
        ReturnTypeIr::Unit => ReturnDescriptorIr::Unit,
        ReturnTypeIr::Type(ty) => {
            let kind = match &ty.kind {
                TypeKindIr::Never => ReturnKindIr::Never,
                TypeKindIr::Reference { .. } => ReturnKindIr::Reference,
                TypeKindIr::ImplTrait { .. } => ReturnKindIr::Opaque,
                _ => ReturnKindIr::Concrete,
            };
            ReturnDescriptorIr::Value { kind, ty: type_expression(ty) }
        },
    }
}

// ---------------------------------------------------------------------------
// Methods
// ---------------------------------------------------------------------------

/// The descriptor facts of one trait method.
#[derive(Debug)]
pub struct MethodMetadataIr {
    pub name: String,
    pub query: String,
    pub receiver: Option<ReceiverDescriptorIr>,
    pub parameters: Vec<ParameterDescriptorIr>,
    pub return_value: ReturnDescriptorIr,
    pub is_async: bool,
    pub is_unsafe: bool,
    pub is_const: bool,
    pub abi: Option<AbiIr>,
    pub is_variadic: bool,
    pub generics: GenericDefinitionIr,
    pub has_default: bool,
}

/// Whether the types a method's metadata reads have well-formed qualified
/// paths.
pub open spec fn method_qualified_items(method: MethodIr) -> bool {
    &&& forall|i: int| 0 <= i < method.parameters@.len() ==> qualified_items(#[trigger] method.parameters@[i].ty)
    &&& match method.return_type {
        ReturnTypeIr::Type(ty) => qualified_items(ty),
        ReturnTypeIr::Unit => true,
    }
    &&& generics_qualified_items(method.generics)
}

/// Whether metadata describes a trait method.
pub open spec fn method_describes(metadata: MethodMetadataIr, method: MethodIr) -> bool {
    &&& metadata.name@ == method.name@
    &&& metadata.query@ == method_query(method)
    &&& match (metadata.receiver, method.receiver) {
        (Some(descriptor), Some(receiver)) => receiver_describes(descriptor, receiver),
        (None, None) => true,
        _ => false,
    }
    &&& metadata.parameters@.len() == method.parameters@.len()
    &&& forall|i: int|
        0 <= i < method.parameters@.len() ==> parameter_describes(
            #[trigger] metadata.parameters@[i],
            method.parameters@[i],
        )
    &&& return_describes(metadata.return_value, method.return_type)
    &&& metadata.is_async == method.qualifiers.is_async
    &&& metadata.is_unsafe == method.qualifiers.is_unsafe
    &&& metadata.is_const == method.qualifiers.is_const
    &&& match (metadata.abi, method.qualifiers.abi) {
        (Some(abi), Some(name)) => abi_expresses(abi, Some(name)),
        (None, None) => true,
        _ => false,
    }
    &&& metadata.is_variadic == method.qualifiers.is_variadic
    &&& definition_expresses(metadata.generics, method.generics)
    &&& metadata.has_default == method.has_default
}

/// Returns the descriptor facts of one trait method.
pub fn method_metadata(method: &MethodIr) -> (metadata: MethodMetadataIr)
    requires
        method_qualified_items(*method),
    ensures
        method_describes(metadata, *method),
{
    let query = match first_rename_of(&method.attributes) {
        Some(rename) => rename.clone(),
        None => method.name.clone(),
    };
    let receiver = match &method.receiver {
        Some(receiver) => Some(receiver_descriptor(receiver)),
        None => None,
    };
    let mut parameters: Vec<ParameterDescriptorIr> = Vec::new();
    let mut index: usize = 0;
    while index < method.parameters.len()
        invariant
            index <= method.parameters@.len(),
            method_qualified_items(*method),
            parameters@.len() == index,
            forall|i: int| 0 <= i < index ==> parameter_describes(#[trigger] parameters@[i], method.parameters@[i]),
        decreases method.parameters.len() - index,
    {
        parameters.push(parameter_descriptor(&method.parameters[index]));
        index += 1;
    }
    let abi = match &method.qualifiers.abi {
        Some(_) => Some(abi_expression(&method.qualifiers.abi)),
        None => None,
    };
    MethodMetadataIr {
        name: method.name.clone(),
        query,
        receiver,
        parameters,
        return_value: return_descriptor(&method.return_type),
        is_async: method.qualifiers.is_async,
        is_unsafe: method.qualifiers.is_unsafe,
        is_const: method.qualifiers.is_const,
        abi,
        is_variadic: method.qualifiers.is_variadic,
        generics: generic_definition(&method.generics),
        has_default: method.has_default,
    }
}

// ---------------------------------------------------------------------------
// Associated items
// ---------------------------------------------------------------------------

/// The descriptor facts of one associated type: its bounds on itself, its
/// default, and its own generics.
#[derive(Debug)]
pub struct AssociatedTypeMetadataIr {
    pub name: String,
    pub bounds: Vec<PredicateExpressionIr>,
    pub default: Option<TypeExpressionIr>,
    pub generics: GenericDefinitionIr,
}

/// Whether the types an associated type's metadata reads have well-formed
/// qualified paths.
pub open spec fn associated_type_qualified_items(item: AssociatedTypeIr) -> bool {
    &&& match item.value {
        Some(value) => qualified_items(value),
        None => true,
    }
    &&& generics_qualified_items(item.generics)
}

/// Whether metadata describes an associated type.
pub open spec fn associated_type_describes(metadata: AssociatedTypeMetadataIr, item: AssociatedTypeIr) -> bool {
    &&& metadata.name@ == item.name@
    &&& predicates_express(metadata.bounds@, item.bounds@)
    &&& match item.value {
        Some(value) => metadata.default matches Some(modeled) && expresses(modeled, value),
        None => metadata.default is None,
    }
    &&& definition_expresses(metadata.generics, item.generics)
}

/// Returns the descriptor facts of one associated type.
pub fn associated_type_metadata(item: &AssociatedTypeIr) -> (metadata: AssociatedTypeMetadataIr)
    requires
        associated_type_qualified_items(*item),
    ensures
        associated_type_describes(metadata, *item),
{
    let default = match &item.value {
        Some(value) => Some(type_expression(value)),
        None => None,
    };
    AssociatedTypeMetadataIr {
        name: item.name.clone(),
        bounds: bound_predicates(&item.bounds),
        default,
        generics: generic_definition(&item.generics),
    }
}

/// The descriptor facts of one associated const: its type, and whether it
/// has a default value.
#[derive(Debug)]
pub struct AssociatedConstMetadataIr {
    pub name: String,
    pub ty: TypeExpressionIr,
    pub has_default: bool,
}

/// Returns the descriptor facts of one associated const.
pub fn associated_const_metadata(item: &AssociatedConstIr) -> (metadata: AssociatedConstMetadataIr)
    requires
        qualified_items(item.ty),
    ensures
        metadata.name@ == item.name@,
        expresses(metadata.ty, item.ty),
        metadata.has_default == (item.value is Some),
{
    AssociatedConstMetadataIr { name: item.name.clone(), ty: type_expression(&item.ty), has_default: item.value.is_some() }
}

} // verus!

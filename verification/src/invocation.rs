//! Invocation analysis shared by impl and trait expansion: one complete
//! decision per method about how, and whether, it can be invoked through a
//! dynamic adapter, made before any code is emitted.

use vstd::prelude::*;

use crate::helper::HelperName;
use crate::ir::HelperAttributeIr;
use crate::ir::MethodIr;
use crate::ir::ParameterIr;
use crate::ir::PathArgumentIr;
use crate::ir::PathArgumentsIr;
use crate::ir::ReceiverIr;
use crate::ir::ReceiverKindIr;
use crate::ir::ReturnTypeIr;
use crate::ir::TokenTreeIr;
use crate::ir::TypeIr;
use crate::ir::TypeKindIr;
use crate::lifetime::type_contains_non_static_lifetime;
use crate::lifetime::type_non_static;
use crate::text::str_eq;
use crate::validate::has_named;

verus! {

// ---------------------------------------------------------------------------
// Plan
// ---------------------------------------------------------------------------

/// The standard owned container of an explicit `self: Container<Self>`
/// receiver.
#[derive(Clone, Copy, Debug, PartialEq, Eq, Structural)]
pub enum OwnedContainerIr {
    /// `Box<Self>`.
    Box,
    /// `Rc<Self>`.
    Rc,
    /// `Arc<Self>`.
    Arc,
    /// `Pin<Box<Self>>`.
    PinBox,
}

/// Receiver facts retained for adapter emission.
#[derive(Debug)]
pub enum ReceiverPlan {
    Value,
    SharedReference,
    MutableReference,
    OwnedContainer(OwnedContainerIr),
    Pinned { mutable: bool },
    /// An explicit receiver type served by a registered receiver adapter.
    Extension(Vec<TokenTreeIr>),
    Unsupported,
}

/// One parameter's validated invocation facts.
#[derive(Clone, Copy, Debug, PartialEq, Eq, Structural)]
pub struct ParameterPlan {
    pub index: usize,
    pub supported: bool,
    pub unsupported_unsized: bool,
}

/// Validated output category retained for adapter emission.
#[derive(Clone, Copy, Debug, PartialEq, Eq, Structural)]
pub enum OutputPlan {
    Unit,
    Never,
    Owned,
    SharedBorrow,
    MutableBorrow,
    Opaque,
    Unsupported,
}

/// Requested local, thread-safe, catching, and asynchronous modes.
#[derive(Clone, Copy, Debug, PartialEq, Eq, Structural)]
pub struct AdapterModes {
    pub thread_safe: bool,
    pub catching: bool,
    pub asynchronous: bool,
}

/// One stable reason an adapter cannot be emitted.
#[derive(Clone, Copy, Debug, PartialEq, Eq, Structural)]
pub enum UnavailableReasonPlan {
    UnsupportedReceiver,
    UnspecializedGeneric,
    UnsafeMethod,
    UnsupportedAbi,
    Variadic,
    UnsupportedBorrowedReturn,
    OpaqueReturn,
    UnsupportedUnsizedValue,
    UnprovenDefaultConstraint,
    UnprovenAssociatedType,
    PinnedModeConflict,
    DisabledByPolicy,
}

/// Whether code can emit an executable adapter.
#[derive(Debug)]
pub enum AvailabilityPlan {
    Executable,
    DescribedOnly(Vec<UnavailableReasonPlan>),
}

/// Complete invocation facts shared by impl and trait expansion.
#[derive(Debug)]
pub struct InvocationPlan {
    pub receiver: Option<ReceiverPlan>,
    pub parameters: Vec<ParameterPlan>,
    pub output: OutputPlan,
    pub modes: AdapterModes,
    pub availability: AvailabilityPlan,
}

impl InvocationPlan {
    /// Returns whether an executable adapter can be emitted.
    pub fn is_executable(&self) -> (executable: bool)
        ensures
            executable == (self.availability is Executable),
    {
        match self.availability {
            AvailabilityPlan::Executable => true,
            AvailabilityPlan::DescribedOnly(_) => false,
        }
    }

    /// Returns pinned receiver mutability when this is a pinned invocation.
    pub fn pinned_receiver_mutability(&self) -> (mutable: Option<bool>)
        ensures
            mutable == match self.receiver {
                Some(ReceiverPlan::Pinned { mutable }) => Some(mutable),
                _ => None::<bool>,
            },
    {
        match &self.receiver {
            Some(ReceiverPlan::Pinned { mutable }) => Some(*mutable),
            _ => None,
        }
    }

    /// Returns the standard owned receiver container retained for emission.
    pub fn owned_receiver_type(&self) -> (container: Option<OwnedContainerIr>)
        ensures
            container == match self.receiver {
                Some(ReceiverPlan::OwnedContainer(container)) => Some(container),
                _ => None::<OwnedContainerIr>,
            },
    {
        match &self.receiver {
            Some(ReceiverPlan::OwnedContainer(container)) => Some(*container),
            _ => None,
        }
    }

    /// Returns the extension receiver type retained for emission.
    pub fn extension_receiver_type(&self) -> (receiver: Option<&Vec<TokenTreeIr>>)
        ensures
            receiver == match self.receiver {
                Some(ReceiverPlan::Extension(receiver)) => Some(&receiver),
                _ => None::<&Vec<TokenTreeIr>>,
            },
    {
        match &self.receiver {
            Some(ReceiverPlan::Extension(receiver)) => Some(receiver),
            _ => None,
        }
    }

    /// Returns the number of analyzed positional parameters.
    pub fn parameter_count(&self) -> (count: usize)
        ensures
            count == self.parameters@.len(),
    {
        self.parameters.len()
    }
}

/// Owner-specific facts needed by otherwise pure method analysis.
#[derive(Debug)]
pub struct MethodContext {
    /// The receiver type served by a registered receiver adapter, if any.
    pub extension_receiver: Option<Vec<TokenTreeIr>>,
    /// Whether the method is a default trait method.
    pub default_method: bool,
    /// Whether the signature mentions an associated type whose `'static`
    /// bound is not proven.
    pub has_unproven_associated_type: bool,
}

impl MethodContext {
    /// Creates ordinary impl-method analysis context.
    pub fn implementation() -> (context: MethodContext)
        ensures
            context.extension_receiver is None,
            !context.default_method,
            !context.has_unproven_associated_type,
    {
        MethodContext { extension_receiver: None, default_method: false, has_unproven_associated_type: false }
    }

    /// Creates default-trait-method analysis context.
    pub fn trait_default(has_unproven_associated_type: bool) -> (context: MethodContext)
        ensures
            context.extension_receiver is None,
            context.default_method,
            context.has_unproven_associated_type == has_unproven_associated_type,
    {
        MethodContext { extension_receiver: None, default_method: true, has_unproven_associated_type }
    }
}

// ---------------------------------------------------------------------------
// Type shapes
// ---------------------------------------------------------------------------

/// Whether a type is the single-segment path `Self`.
pub open spec fn is_self(ty: TypeIr) -> bool {
    match ty.kind {
        TypeKindIr::Path(path) => path.segments@.len() == 1 && path.segments@[0].name@ == "Self"@,
        _ => false,
    }
}

/// The only argument of an angle-bracketed list when it is one type.
pub open spec fn single_type_argument(arguments: PathArgumentsIr) -> Option<TypeIr> {
    match arguments {
        PathArgumentsIr::AngleBracketed(items) => if items@.len() == 1 {
            match items@[0] {
                PathArgumentIr::Type(ty) => Some(ty),
                _ => None,
            }
        } else {
            None
        },
        _ => None,
    }
}

/// Whether a type is a path whose last segment is `Box<Self>`.
pub open spec fn is_box_self(ty: TypeIr) -> bool {
    match ty.kind {
        TypeKindIr::Path(path) => {
            &&& path.segments@.len() > 0
            &&& path.segments@.last().name@ == "Box"@
            &&& match single_type_argument(path.segments@.last().arguments) {
                Some(argument) => is_self(argument),
                None => false,
            }
        },
        _ => false,
    }
}

/// The owned container of an explicit receiver type.
pub open spec fn owned_container(receiver: ReceiverIr) -> Option<OwnedContainerIr> {
    if receiver.kind != ReceiverKindIr::Typed {
        None
    } else {
        match receiver.ty.kind {
            TypeKindIr::Path(path) => if path.segments@.len() == 0 {
                None
            } else {
                let segment = path.segments@.last();
                match single_type_argument(segment.arguments) {
                    Some(argument) => if segment.name@ == "Box"@ && is_self(argument) {
                        Some(OwnedContainerIr::Box)
                    } else if segment.name@ == "Rc"@ && is_self(argument) {
                        Some(OwnedContainerIr::Rc)
                    } else if segment.name@ == "Arc"@ && is_self(argument) {
                        Some(OwnedContainerIr::Arc)
                    } else if segment.name@ == "Pin"@ && is_box_self(argument) {
                        Some(OwnedContainerIr::PinBox)
                    } else {
                        None
                    },
                    None => None,
                }
            },
            _ => None,
        }
    }
}

/// The mutability of an explicit `Pin<&Self>` or `Pin<&mut Self>` receiver.
pub open spec fn pinned_mutability(receiver: ReceiverIr) -> Option<bool> {
    if receiver.kind != ReceiverKindIr::Typed {
        None
    } else {
        match receiver.ty.kind {
            TypeKindIr::Path(path) => if path.segments@.len() == 0 {
                None
            } else {
                let segment = path.segments@.last();
                match single_type_argument(segment.arguments) {
                    Some(argument) => match argument.kind {
                        TypeKindIr::Reference { mutable, element, .. } => if segment.name@ == "Pin"@ && is_self(
                            *element,
                        ) {
                            Some(mutable)
                        } else {
                            None
                        },
                        _ => None,
                    },
                    None => None,
                }
            },
            _ => None,
        }
    }
}

fn is_self_type(ty: &TypeIr) -> (result: bool)
    ensures
        result == is_self(*ty),
{
    match &ty.kind {
        TypeKindIr::Path(path) => path.segments.len() == 1 && str_eq(path.segments[0].name.as_str(), "Self"),
        _ => false,
    }
}

fn single_type(arguments: &PathArgumentsIr) -> (argument: Option<&TypeIr>)
    ensures
        match argument {
            Some(argument) => single_type_argument(*arguments) == Some(*argument),
            None => single_type_argument(*arguments) is None,
        },
{
    match arguments {
        PathArgumentsIr::AngleBracketed(items) => {
            if items.len() == 1 {
                match &items[0] {
                    PathArgumentIr::Type(ty) => Some(ty),
                    _ => None,
                }
            } else {
                None
            }
        },
        _ => None,
    }
}

fn is_box_self_type(ty: &TypeIr) -> (result: bool)
    ensures
        result == is_box_self(*ty),
{
    match &ty.kind {
        TypeKindIr::Path(path) => {
            if path.segments.len() == 0 {
                return false;
            }
            let segment = &path.segments[path.segments.len() - 1];
            str_eq(segment.name.as_str(), "Box") && match single_type(&segment.arguments) {
                Some(argument) => is_self_type(argument),
                None => false,
            }
        },
        _ => false,
    }
}

/// Returns the owned standard container for an explicit receiver.
pub fn typed_owned_receiver_type(receiver: &ReceiverIr) -> (container: Option<OwnedContainerIr>)
    ensures
        container == owned_container(*receiver),
{
    if receiver.kind != ReceiverKindIr::Typed {
        return None;
    }
    match &receiver.ty.kind {
        TypeKindIr::Path(path) => {
            if path.segments.len() == 0 {
                return None;
            }
            let segment = &path.segments[path.segments.len() - 1];
            match single_type(&segment.arguments) {
                Some(argument) => {
                    let name = segment.name.as_str();
                    if str_eq(name, "Box") && is_self_type(argument) {
                        Some(OwnedContainerIr::Box)
                    } else if str_eq(name, "Rc") && is_self_type(argument) {
                        Some(OwnedContainerIr::Rc)
                    } else if str_eq(name, "Arc") && is_self_type(argument) {
                        Some(OwnedContainerIr::Arc)
                    } else if str_eq(name, "Pin") && is_box_self_type(argument) {
                        Some(OwnedContainerIr::PinBox)
                    } else {
                        None
                    }
                },
                None => None,
            }
        },
        _ => None,
    }
}

/// Returns pinned shared/mutable receiver mode for `Pin<&Self>` shapes.
pub fn typed_pinned_receiver_mutable(receiver: &ReceiverIr) -> (mutable: Option<bool>)
    ensures
        mutable == pinned_mutability(*receiver),
{
    if receiver.kind != ReceiverKindIr::Typed {
        return None;
    }
    match &receiver.ty.kind {
        TypeKindIr::Path(path) => {
            if path.segments.len() == 0 {
                return None;
            }
            let segment = &path.segments[path.segments.len() - 1];
            match single_type(&segment.arguments) {
                Some(argument) => match &argument.kind {
                    TypeKindIr::Reference { mutable, element, .. } => {
                        if str_eq(segment.name.as_str(), "Pin") && is_self_type(element) {
                            Some(*mutable)
                        } else {
                            None
                        }
                    },
                    _ => None,
                },
                None => None,
            }
        },
        _ => None,
    }
}

/// Whether a type can cross the dynamic boundary as an owned value.
pub open spec fn owned_dynamic(ty: TypeIr) -> bool {
    match ty.kind {
        TypeKindIr::Path(_) => true,
        TypeKindIr::Tuple(_) => true,
        TypeKindIr::Array { .. } => true,
        TypeKindIr::Pointer { .. } => true,
        TypeKindIr::BareFunction { .. } => true,
        _ => false,
    }
}

fn supports_owned_dynamic_type(ty: &TypeIr) -> (supported: bool)
    ensures
        supported == owned_dynamic(*ty),
{
    match &ty.kind {
        TypeKindIr::Path(_) => true,
        TypeKindIr::Tuple(_) => true,
        TypeKindIr::Array { .. } => true,
        TypeKindIr::Pointer { .. } => true,
        TypeKindIr::BareFunction { .. } => true,
        _ => false,
    }
}

/// Whether a parameter type can cross the safe dynamic boundary: an owned
/// dynamic type, or a reference to one.
pub open spec fn parameter_supported(ty: TypeIr) -> bool {
    match ty.kind {
        TypeKindIr::Reference { element, .. } => owned_dynamic(*element),
        _ => owned_dynamic(ty),
    }
}

/// Returns whether a parameter can cross the safe dynamic boundary.
pub fn supports_invocation_parameter(ty: &TypeIr) -> (supported: bool)
    ensures
        supported == parameter_supported(*ty),
{
    match &ty.kind {
        TypeKindIr::Reference { element, .. } => supports_owned_dynamic_type(element),
        _ => supports_owned_dynamic_type(ty),
    }
}

/// Whether a parameter borrows an unsized slice or trait object.
pub open spec fn unsized_parameter(ty: TypeIr) -> bool {
    match ty.kind {
        TypeKindIr::Reference { element, .. } => element.kind is Slice || element.kind is TraitObject,
        _ => false,
    }
}

fn has_unsupported_unsized_parameter(ty: &TypeIr) -> (unsized_value: bool)
    ensures
        unsized_value == unsized_parameter(*ty),
{
    match &ty.kind {
        TypeKindIr::Reference { element, .. } => match &element.kind {
            TypeKindIr::Slice(_) => true,
            TypeKindIr::TraitObject { .. } => true,
            _ => false,
        },
        _ => false,
    }
}

/// Whether an invocation adapter can represent this output.
pub open spec fn return_supported(return_type: ReturnTypeIr) -> bool {
    match return_type {
        ReturnTypeIr::Unit => true,
        ReturnTypeIr::Type(ty) => ty.kind is Reference || ty.kind is Never || owned_dynamic(ty),
    }
}

/// Returns whether an invocation adapter can represent this output.
pub fn supports_invocation_return(return_type: &ReturnTypeIr) -> (supported: bool)
    ensures
        supported == return_supported(*return_type),
{
    match return_type {
        ReturnTypeIr::Unit => true,
        ReturnTypeIr::Type(ty) => match &ty.kind {
            TypeKindIr::Reference { .. } => true,
            TypeKindIr::Never => true,
            _ => supports_owned_dynamic_type(ty),
        },
    }
}

/// The output category of a return declaration.
pub open spec fn output_of(return_type: ReturnTypeIr) -> OutputPlan {
    match return_type {
        ReturnTypeIr::Unit => OutputPlan::Unit,
        ReturnTypeIr::Type(ty) => match ty.kind {
            TypeKindIr::Never => OutputPlan::Never,
            TypeKindIr::Reference { mutable, .. } => if mutable {
                OutputPlan::MutableBorrow
            } else {
                OutputPlan::SharedBorrow
            },
            TypeKindIr::ImplTrait { .. } => OutputPlan::Opaque,
            _ => if owned_dynamic(ty) {
                OutputPlan::Owned
            } else {
                OutputPlan::Unsupported
            },
        },
    }
}

/// Returns the output category of a return declaration.
pub fn output_plan(return_type: &ReturnTypeIr) -> (output: OutputPlan)
    ensures
        output == output_of(*return_type),
{
    match return_type {
        ReturnTypeIr::Unit => OutputPlan::Unit,
        ReturnTypeIr::Type(ty) => match &ty.kind {
            TypeKindIr::Never => OutputPlan::Never,
            TypeKindIr::Reference { mutable, .. } => if *mutable {
                OutputPlan::MutableBorrow
            } else {
                OutputPlan::SharedBorrow
            },
            TypeKindIr::ImplTrait { .. } => OutputPlan::Opaque,
            _ => if supports_owned_dynamic_type(ty) {
                OutputPlan::Owned
            } else {
                OutputPlan::Unsupported
            },
        },
    }
}

/// Whether a return declaration carries a non-static borrow.
pub open spec fn return_non_static(return_type: ReturnTypeIr) -> bool {
    match return_type {
        ReturnTypeIr::Type(ty) => type_non_static(ty),
        ReturnTypeIr::Unit => false,
    }
}

/// Returns whether a return declaration contains a non-static lifetime.
pub fn return_contains_non_static_lifetime(return_type: &ReturnTypeIr) -> (result: bool)
    ensures
        result == return_non_static(*return_type),
{
    match return_type {
        ReturnTypeIr::Type(ty) => type_contains_non_static_lifetime(ty),
        ReturnTypeIr::Unit => false,
    }
}

/// Whether the declaration returns a borrow.
pub open spec fn borrow_return(return_type: ReturnTypeIr) -> bool {
    match return_type {
        ReturnTypeIr::Type(ty) => ty.kind is Reference,
        ReturnTypeIr::Unit => false,
    }
}

/// Returns whether the declaration returns a borrow.
pub fn is_borrow_return(return_type: &ReturnTypeIr) -> (result: bool)
    ensures
        result == borrow_return(*return_type),
{
    match return_type {
        ReturnTypeIr::Type(ty) => match &ty.kind {
            TypeKindIr::Reference { .. } => true,
            _ => false,
        },
        ReturnTypeIr::Unit => false,
    }
}

/// Whether the declaration returns a shared borrow.
pub open spec fn shared_borrow_return(return_type: ReturnTypeIr) -> bool {
    match return_type {
        ReturnTypeIr::Type(ty) => match ty.kind {
            TypeKindIr::Reference { mutable, .. } => !mutable,
            _ => false,
        },
        ReturnTypeIr::Unit => false,
    }
}

/// Returns whether a shared borrow can retain the invocation call lifetime.
pub fn is_supported_shared_borrow_return(return_type: &ReturnTypeIr) -> (result: bool)
    ensures
        result == shared_borrow_return(*return_type),
{
    match return_type {
        ReturnTypeIr::Type(ty) => match &ty.kind {
            TypeKindIr::Reference { mutable, .. } => !*mutable,
            _ => false,
        },
        ReturnTypeIr::Unit => false,
    }
}

/// Whether a parameter is a mutable reference.
pub open spec fn mutable_reference_parameter(parameter: ParameterIr) -> bool {
    match parameter.ty.kind {
        TypeKindIr::Reference { mutable, .. } => mutable,
        _ => false,
    }
}

/// Whether a returned mutable borrow has the `&mut self` receiver as its
/// unique origin: the receiver is `&mut self`, no parameter is a mutable
/// reference, and the return is a mutable reference.
pub open spec fn unique_mutable_borrow(method: MethodIr) -> bool {
    &&& match method.receiver {
        Some(receiver) => receiver.kind == ReceiverKindIr::MutableReference,
        None => false,
    }
    &&& !(exists|i: int|
        0 <= i < method.parameters@.len() && mutable_reference_parameter(#[trigger] method.parameters@[i]))
    &&& match method.return_type {
        ReturnTypeIr::Type(ty) => match ty.kind {
            TypeKindIr::Reference { mutable, .. } => mutable,
            _ => false,
        },
        ReturnTypeIr::Unit => false,
    }
}

/// Returns whether a unique mutable-borrow origin can be identified.
pub fn is_supported_mutable_borrow_return(method: &MethodIr) -> (result: bool)
    ensures
        result == unique_mutable_borrow(*method),
{
    let receiver_mutable = match &method.receiver {
        Some(receiver) => receiver.kind == ReceiverKindIr::MutableReference,
        None => false,
    };
    if !receiver_mutable {
        return false;
    }
    let mut index: usize = 0;
    while index < method.parameters.len()
        invariant
            index <= method.parameters@.len(),
            forall|j: int| 0 <= j < index ==> !mutable_reference_parameter(#[trigger] method.parameters@[j]),
        decreases method.parameters.len() - index,
    {
        let is_mutable = match &method.parameters[index].ty.kind {
            TypeKindIr::Reference { mutable, .. } => *mutable,
            _ => false,
        };
        if is_mutable {
            return false;
        }
        index += 1;
    }
    match &method.return_type {
        ReturnTypeIr::Type(ty) => match &ty.kind {
            TypeKindIr::Reference { mutable, .. } => *mutable,
            _ => false,
        },
        ReturnTypeIr::Unit => false,
    }
}

/// Whether `ty` names Rust's built-in unsized `str` type.
pub open spec fn str_type(ty: TypeIr) -> bool {
    match ty.kind {
        TypeKindIr::Path(path) => path.segments@.len() > 0 && path.segments@.last().name@ == "str"@
            && path.segments@.last().arguments is Empty,
        _ => false,
    }
}

/// Returns whether `ty` names Rust's built-in unsized `str` type.
pub fn is_str_type(ty: &TypeIr) -> (result: bool)
    ensures
        result == str_type(*ty),
{
    match &ty.kind {
        TypeKindIr::Path(path) => {
            if path.segments.len() == 0 {
                return false;
            }
            let segment = &path.segments[path.segments.len() - 1];
            str_eq(segment.name.as_str(), "str") && match &segment.arguments {
                PathArgumentsIr::Empty => true,
                _ => false,
            }
        },
        _ => false,
    }
}

// ---------------------------------------------------------------------------
// Method analysis
// ---------------------------------------------------------------------------

/// Whether `skip` or `no_invoke` disables invocation.
pub open spec fn disabled_by_policy(method: MethodIr) -> bool {
    has_named(method.attributes@, HelperName::NoInvoke) || has_named(method.attributes@, HelperName::Skip)
}

fn has_helper(attributes: &Vec<HelperAttributeIr>, name: HelperName) -> (found: bool)
    ensures
        found == has_named(attributes@, name),
{
    let mut index: usize = 0;
    while index < attributes.len()
        invariant
            index <= attributes@.len(),
            forall|j: int| 0 <= j < index ==> attributes@[j].name != name,
        decreases attributes.len() - index,
    {
        if attributes[index].name == name {
            return true;
        }
        index += 1;
    }
    false
}

fn invocation_disabled_by_policy(method: &MethodIr) -> (disabled: bool)
    ensures
        disabled == disabled_by_policy(*method),
{
    has_helper(&method.attributes, HelperName::NoInvoke) || has_helper(&method.attributes, HelperName::Skip)
}

/// The receiver plan of a receiver.
pub open spec fn receiver_plan(receiver: ReceiverIr, extension: Option<Vec<TokenTreeIr>>) -> ReceiverPlan {
    match receiver.kind {
        ReceiverKindIr::Value => ReceiverPlan::Value,
        ReceiverKindIr::SharedReference => ReceiverPlan::SharedReference,
        ReceiverKindIr::MutableReference => ReceiverPlan::MutableReference,
        ReceiverKindIr::Typed => match owned_container(receiver) {
            Some(container) => ReceiverPlan::OwnedContainer(container),
            None => match pinned_mutability(receiver) {
                Some(mutable) => ReceiverPlan::Pinned { mutable },
                None => match extension {
                    Some(tokens) => ReceiverPlan::Extension(tokens),
                    None => ReceiverPlan::Unsupported,
                },
            },
        },
    }
}

/// The invocation facts of one parameter.
pub open spec fn parameter_plan(parameter: ParameterIr) -> ParameterPlan {
    ParameterPlan {
        index: parameter.index,
        supported: parameter_supported(parameter.ty),
        unsupported_unsized: unsized_parameter(parameter.ty),
    }
}

/// The invocation facts of all parameters, in order.
pub open spec fn parameter_plans(parameters: Seq<ParameterIr>) -> Seq<ParameterPlan> {
    parameters.map_values(|parameter: ParameterIr| parameter_plan(parameter))
}

/// The adapter modes a method requests.
pub open spec fn modes_of(method: MethodIr) -> AdapterModes {
    AdapterModes {
        thread_safe: has_named(method.attributes@, HelperName::ThreadSafe),
        catching: has_named(method.attributes@, HelperName::CatchUnwind) && !method.qualifiers.is_async,
        asynchronous: method.qualifiers.is_async,
    }
}

/// Whether the return's borrow is representable.
pub open spec fn borrow_supported(method: MethodIr) -> bool {
    !return_non_static(method.return_type) || shared_borrow_return(method.return_type) || unique_mutable_borrow(
        method,
    )
}

/// Whether a method can be invoked through an executable adapter, given the
/// receiver plan it gets and its owner's facts.
pub open spec fn executable(
    method: MethodIr,
    receiver: Option<ReceiverPlan>,
    default_method: bool,
    has_unproven_associated_type: bool,
) -> bool {
    let modes = modes_of(method);
    let pinned = match receiver {
        Some(ReceiverPlan::Pinned { .. }) => true,
        _ => false,
    };
    let supported_receiver = match receiver {
        Some(ReceiverPlan::Unsupported) => false,
        _ => true,
    };
    let default_blocked = default_method && (!method.has_default || method.generics.where_predicates@.len() > 0
        || has_unproven_associated_type);
    let mode_blocked = pinned && (method.qualifiers.is_async || borrow_return(method.return_type)
        || modes.thread_safe || modes.catching);
    &&& supported_receiver
    &&& forall|i: int|
        0 <= i < method.parameters@.len() ==> parameter_supported(#[trigger] method.parameters@[i].ty)
    &&& method.generics.params@.len() == 0
    &&& !method.qualifiers.is_unsafe
    &&& method.qualifiers.abi is None
    &&& !method.qualifiers.is_variadic
    &&& borrow_supported(method)
    &&& (!method.qualifiers.is_async || !borrow_return(method.return_type))
    &&& !disabled_by_policy(method)
    &&& !default_blocked
    &&& !mode_blocked
    &&& return_supported(method.return_type)
}

/// `seq![reason]` when `condition` holds, else nothing.
pub open spec fn reason_if(condition: bool, reason: UnavailableReasonPlan) -> Seq<UnavailableReasonPlan> {
    if condition {
        seq![reason]
    } else {
        Seq::empty()
    }
}

/// The canonical, ordered reasons a method is only described; a method
/// blocked by nothing listed here is reported as disabled by policy.
pub open spec fn reasons_of(method: MethodIr, receiver: Option<ReceiverPlan>) -> Seq<UnavailableReasonPlan> {
    let listed = reason_if(
        receiver matches Some(ReceiverPlan::Unsupported),
        UnavailableReasonPlan::UnsupportedReceiver,
    ) + reason_if(method.generics.params@.len() > 0, UnavailableReasonPlan::UnspecializedGeneric) + reason_if(
        method.qualifiers.is_unsafe,
        UnavailableReasonPlan::UnsafeMethod,
    ) + reason_if(method.qualifiers.abi is Some, UnavailableReasonPlan::UnsupportedAbi) + reason_if(
        method.qualifiers.is_variadic,
        UnavailableReasonPlan::Variadic,
    ) + reason_if(
        !borrow_supported(method) || (method.qualifiers.is_async && borrow_return(method.return_type)),
        UnavailableReasonPlan::UnsupportedBorrowedReturn,
    ) + reason_if(output_of(method.return_type) == OutputPlan::Opaque, UnavailableReasonPlan::OpaqueReturn)
        + reason_if(
        exists|i: int| 0 <= i < method.parameters@.len() && unsized_parameter(#[trigger] method.parameters@[i].ty),
        UnavailableReasonPlan::UnsupportedUnsizedValue,
    ) + reason_if(disabled_by_policy(method), UnavailableReasonPlan::DisabledByPolicy);
    if listed.len() == 0 {
        seq![UnavailableReasonPlan::DisabledByPolicy]
    } else {
        listed
    }
}

fn push_if(reasons: &mut Vec<UnavailableReasonPlan>, condition: bool, reason: UnavailableReasonPlan)
    ensures
        final(reasons)@ == old(reasons)@ + reason_if(condition, reason),
{
    if condition {
        reasons.push(reason);
    }
    assert(final(reasons)@ =~= old(reasons)@ + reason_if(condition, reason));
}

fn any_unsized(parameters: &Vec<ParameterPlan>, method: &MethodIr) -> (found: bool)
    requires
        parameters@ == parameter_plans(method.parameters@),
    ensures
        found == exists|i: int| 0 <= i < method.parameters@.len() && unsized_parameter(#[trigger] method.parameters@[i].ty),
{
    let mut index: usize = 0;
    while index < parameters.len()
        invariant
            parameters@ == parameter_plans(method.parameters@),
            index <= parameters@.len(),
            forall|j: int| 0 <= j < index ==> !unsized_parameter(#[trigger] method.parameters@[j].ty),
        decreases parameters.len() - index,
    {
        if parameters[index].unsupported_unsized {
            return true;
        }
        index += 1;
    }
    false
}

fn unavailable_reasons(method: &MethodIr, receiver: &Option<ReceiverPlan>, parameters: &Vec<ParameterPlan>) -> (reasons:
    Vec<UnavailableReasonPlan>)
    requires
        parameters@ == parameter_plans(method.parameters@),
    ensures
        reasons@ == reasons_of(*method, *receiver),
{
    let mut reasons: Vec<UnavailableReasonPlan> = Vec::new();
    let unsupported = match receiver {
        Some(ReceiverPlan::Unsupported) => true,
        _ => false,
    };
    push_if(&mut reasons, unsupported, UnavailableReasonPlan::UnsupportedReceiver);
    push_if(&mut reasons, method.generics.params.len() > 0, UnavailableReasonPlan::UnspecializedGeneric);
    push_if(&mut reasons, method.qualifiers.is_unsafe, UnavailableReasonPlan::UnsafeMethod);
    push_if(&mut reasons, method.qualifiers.abi.is_some(), UnavailableReasonPlan::UnsupportedAbi);
    push_if(&mut reasons, method.qualifiers.is_variadic, UnavailableReasonPlan::Variadic);
    let borrow_blocked = (return_contains_non_static_lifetime(&method.return_type)
        && !is_supported_shared_borrow_return(&method.return_type) && !is_supported_mutable_borrow_return(method))
        || (method.qualifiers.is_async && is_borrow_return(&method.return_type));
    push_if(&mut reasons, borrow_blocked, UnavailableReasonPlan::UnsupportedBorrowedReturn);
    let opaque = output_plan(&method.return_type) == OutputPlan::Opaque;
    push_if(&mut reasons, opaque, UnavailableReasonPlan::OpaqueReturn);
    let unsized_value = any_unsized(parameters, method);
    push_if(&mut reasons, unsized_value, UnavailableReasonPlan::UnsupportedUnsizedValue);
    push_if(&mut reasons, invocation_disabled_by_policy(method), UnavailableReasonPlan::DisabledByPolicy);
    if reasons.len() == 0 {
        reasons.push(UnavailableReasonPlan::DisabledByPolicy);
    }
    reasons
}

fn plan_parameters(method: &MethodIr) -> (plans: Vec<ParameterPlan>)
    ensures
        plans@ == parameter_plans(method.parameters@),
{
    let mut plans: Vec<ParameterPlan> = Vec::new();
    let mut index: usize = 0;
    while index < method.parameters.len()
        invariant
            index <= method.parameters@.len(),
            plans@ == parameter_plans(method.parameters@.take(index as int)),
        decreases method.parameters.len() - index,
    {
        let parameter = &method.parameters[index];
        plans.push(
            ParameterPlan {
                index: parameter.index,
                supported: supports_invocation_parameter(&parameter.ty),
                unsupported_unsized: has_unsupported_unsized_parameter(&parameter.ty),
            },
        );
        assert(parameter_plans(method.parameters@.take(index + 1)) =~= parameter_plans(
            method.parameters@.take(index as int),
        ).push(parameter_plan(method.parameters@[index as int])));
        index += 1;
    }
    assert(method.parameters@.take(method.parameters@.len() as int) == method.parameters@);
    plans
}

fn all_supported(parameters: &Vec<ParameterPlan>, method: &MethodIr) -> (supported: bool)
    requires
        parameters@ == parameter_plans(method.parameters@),
    ensures
        supported == forall|i: int|
            0 <= i < method.parameters@.len() ==> parameter_supported(#[trigger] method.parameters@[i].ty),
{
    let mut index: usize = 0;
    while index < parameters.len()
        invariant
            parameters@ == parameter_plans(method.parameters@),
            index <= parameters@.len(),
            forall|j: int| 0 <= j < index ==> parameter_supported(#[trigger] method.parameters@[j].ty),
        decreases parameters.len() - index,
    {
        if !parameters[index].supported {
            assert(!parameter_supported(method.parameters@[index as int].ty));
            return false;
        }
        index += 1;
    }
    true
}

fn receiver_plan_of(receiver: &ReceiverIr, extension: Option<Vec<TokenTreeIr>>) -> (plan: ReceiverPlan)
    ensures
        plan == receiver_plan(*receiver, extension),
{
    match receiver.kind {
        ReceiverKindIr::Value => ReceiverPlan::Value,
        ReceiverKindIr::SharedReference => ReceiverPlan::SharedReference,
        ReceiverKindIr::MutableReference => ReceiverPlan::MutableReference,
        ReceiverKindIr::Typed => match typed_owned_receiver_type(receiver) {
            Some(container) => ReceiverPlan::OwnedContainer(container),
            None => match typed_pinned_receiver_mutable(receiver) {
                Some(mutable) => ReceiverPlan::Pinned { mutable },
                None => match extension {
                    Some(tokens) => ReceiverPlan::Extension(tokens),
                    None => ReceiverPlan::Unsupported,
                },
            },
        },
    }
}

/// Produces one complete invocation decision without emitting tokens.
pub fn analyze_method(method: &MethodIr, context: MethodContext) -> (plan: InvocationPlan)
    ensures
        plan.receiver == match method.receiver {
            Some(receiver) => Some(receiver_plan(receiver, context.extension_receiver)),
            None => None::<ReceiverPlan>,
        },
        plan.parameters@ == parameter_plans(method.parameters@),
        plan.output == output_of(method.return_type),
        plan.modes == modes_of(*method),
        match plan.availability {
            AvailabilityPlan::Executable => executable(
                *method,
                plan.receiver,
                context.default_method,
                context.has_unproven_associated_type,
            ),
            AvailabilityPlan::DescribedOnly(reasons) => !executable(
                *method,
                plan.receiver,
                context.default_method,
                context.has_unproven_associated_type,
            ) && reasons@ == reasons_of(*method, plan.receiver),
        },
{
    let MethodContext { extension_receiver, default_method, has_unproven_associated_type } = context;
    let receiver = match &method.receiver {
        Some(receiver) => Some(receiver_plan_of(receiver, extension_receiver)),
        None => None,
    };
    let parameters = plan_parameters(method);
    let output = output_plan(&method.return_type);
    let is_async = method.qualifiers.is_async;
    let modes = AdapterModes {
        thread_safe: has_helper(&method.attributes, HelperName::ThreadSafe),
        catching: has_helper(&method.attributes, HelperName::CatchUnwind) && !is_async,
        asynchronous: is_async,
    };
    let pinned = match &receiver {
        Some(ReceiverPlan::Pinned { .. }) => true,
        _ => false,
    };
    let supported_receiver = match &receiver {
        Some(ReceiverPlan::Unsupported) => false,
        _ => true,
    };
    let supported_parameters = all_supported(&parameters, method);
    let borrow_return = is_borrow_return(&method.return_type);
    let supported_borrow = !return_contains_non_static_lifetime(&method.return_type)
        || is_supported_shared_borrow_return(&method.return_type) || is_supported_mutable_borrow_return(method);
    let policy_disabled = invocation_disabled_by_policy(method);
    let default_blocked = default_method && (!method.has_default || method.generics.where_predicates.len() > 0
        || has_unproven_associated_type);
    let mode_blocked = pinned && (is_async || borrow_return || modes.thread_safe || modes.catching);
    let executable = supported_receiver && supported_parameters && method.generics.params.len() == 0
        && !method.qualifiers.is_unsafe && method.qualifiers.abi.is_none() && !method.qualifiers.is_variadic
        && supported_borrow && (!is_async || !borrow_return) && !policy_disabled && !default_blocked
        && !mode_blocked && supports_invocation_return(&method.return_type);
    let availability = if executable {
        AvailabilityPlan::Executable
    } else {
        AvailabilityPlan::DescribedOnly(unavailable_reasons(method, &receiver, &parameters))
    };
    InvocationPlan { receiver, parameters, output, modes, availability }
}

} // verus!

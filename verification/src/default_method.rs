//! Invocation decisions for the default methods of a reflected trait: which
//! of them get a generated adapter, and how that adapter takes its receiver.

use vstd::prelude::*;

use crate::associated::type_contains_associated_type;
use crate::associated::type_has_associated;
use crate::invocation::analyze_method;
use crate::invocation::executable;
use crate::invocation::modes_of;
use crate::invocation::output_of;
use crate::invocation::parameter_plans;
use crate::invocation::reasons_of;
use crate::invocation::receiver_plan;
use crate::invocation::AvailabilityPlan;
use crate::invocation::InvocationPlan;
use crate::invocation::MethodContext;
use crate::invocation::OwnedContainerIr;
use crate::invocation::ReceiverPlan;
use crate::ir::MethodIr;
use crate::ir::ReturnTypeIr;

verus! {

/// Whether a parameter or the return type of a method names an associated
/// type, which a default adapter cannot prove anything about.
pub open spec fn method_names_associated_type(method: MethodIr) -> bool {
    ||| exists|i: int|
        0 <= i < method.parameters@.len() && type_has_associated(#[trigger] method.parameters@[i].ty)
    ||| (method.return_type matches ReturnTypeIr::Type(ty) && type_has_associated(ty))
}

/// Returns whether a parameter or the return type of a method names an
/// associated type.
pub fn has_unproven_associated_type(method: &MethodIr) -> (found: bool)
    ensures
        found == method_names_associated_type(*method),
{
    let mut index: usize = 0;
    while index < method.parameters.len()
        invariant
            index <= method.parameters@.len(),
            forall|i: int| 0 <= i < index ==> !type_has_associated(#[trigger] method.parameters@[i].ty),
        decreases method.parameters.len() - index,
    {
        if type_contains_associated_type(&method.parameters[index].ty) {
            return true;
        }
        index += 1;
    }
    match &method.return_type {
        ReturnTypeIr::Type(ty) => type_contains_associated_type(ty),
        ReturnTypeIr::Unit => false,
    }
}

/// The receiver plan of a default method: trait defaults have no extension
/// receivers.
pub open spec fn default_receiver(method: MethodIr) -> Option<ReceiverPlan> {
    match method.receiver {
        Some(receiver) => Some(receiver_plan(receiver, None)),
        None => None,
    }
}

/// Whether a default method can be invoked through a generated adapter.
pub open spec fn default_executable(method: MethodIr) -> bool {
    executable(method, default_receiver(method), true, method_names_associated_type(method))
}

/// Analyzes a reflected trait's default method: the plan that describes it,
/// executable only where the owner facts it needs are proven.
pub fn default_method_plan(method: &MethodIr) -> (plan: InvocationPlan)
    ensures
        plan.receiver == default_receiver(*method),
        plan.parameters@ == parameter_plans(method.parameters@),
        plan.output == output_of(method.return_type),
        plan.modes == modes_of(*method),
        match plan.availability {
            AvailabilityPlan::Executable => default_executable(*method),
            AvailabilityPlan::DescribedOnly(reasons) => !default_executable(*method) && reasons@ == reasons_of(
                *method,
                plan.receiver,
            ),
        },
{
    let unproven = has_unproven_associated_type(method);
    analyze_method(method, MethodContext::trait_default(unproven))
}

/// How the adapter of a default method takes its receiver.
#[derive(Clone, Copy, Debug, PartialEq, Eq, Structural)]
pub enum DefaultReceiverIr {
    /// A pinned receiver, served by the pinned adapter.
    Pinned { mutable: bool },
    /// `self` by value.
    OwnedSelf,
    /// An owned container of `Self`.
    OwnedContainer(OwnedContainerIr),
    /// `&mut self`.
    Mutable,
    /// `&self`.
    Shared,
    /// An associated function without a receiver.
    Static,
}

/// The adapter a default method gets, if any: executable methods whose
/// receiver an adapter can take.
pub open spec fn default_adapter(method: MethodIr) -> Option<DefaultReceiverIr> {
    if !default_executable(method) {
        None
    } else {
        match default_receiver(method) {
            Some(ReceiverPlan::Pinned { mutable }) => Some(DefaultReceiverIr::Pinned { mutable }),
            Some(ReceiverPlan::Value) => Some(DefaultReceiverIr::OwnedSelf),
            Some(ReceiverPlan::OwnedContainer(container)) => Some(DefaultReceiverIr::OwnedContainer(container)),
            Some(ReceiverPlan::MutableReference) => Some(DefaultReceiverIr::Mutable),
            Some(ReceiverPlan::SharedReference) => Some(DefaultReceiverIr::Shared),
            Some(ReceiverPlan::Extension(_)) => None,
            Some(ReceiverPlan::Unsupported) => None,
            None => Some(DefaultReceiverIr::Static),
        }
    }
}

/// Decides whether a default method gets a generated adapter, and how that
/// adapter takes its receiver.
pub fn default_method_adapter(method: &MethodIr) -> (adapter: Option<DefaultReceiverIr>)
    ensures
        adapter == default_adapter(*method),
{
    let plan = default_method_plan(method);
    if !plan.is_executable() {
        return None;
    }
    match &plan.receiver {
        Some(ReceiverPlan::Pinned { mutable }) => Some(DefaultReceiverIr::Pinned { mutable: *mutable }),
        Some(ReceiverPlan::Value) => Some(DefaultReceiverIr::OwnedSelf),
        Some(ReceiverPlan::OwnedContainer(container)) => Some(DefaultReceiverIr::OwnedContainer(*container)),
        Some(ReceiverPlan::MutableReference) => Some(DefaultReceiverIr::Mutable),
        Some(ReceiverPlan::SharedReference) => Some(DefaultReceiverIr::Shared),
        Some(ReceiverPlan::Extension(_)) => None,
        Some(ReceiverPlan::Unsupported) => None,
        None => Some(DefaultReceiverIr::Static),
    }
}

} // verus!

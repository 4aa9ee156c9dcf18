//! What a generated invocation adapter checks of the values it handles: the
//! marker-trait bounds it asserts for the types it moves across a
//! thread-safe boundary or through a panic-catching call, and how each
//! positional argument is passed to it.

use vstd::prelude::*;

use crate::invocation::is_str_type;
use crate::invocation::str_type;
use crate::ir::MethodIr;
use crate::ir::ParameterIr;
use crate::ir::ReceiverIr;
use crate::ir::ReceiverKindIr;
use crate::ir::ReturnTypeIr;
use crate::ir::TypeIr;
use crate::ir::TypeKindIr;

verus! {

/// A marker trait an adapter asserts.
#[derive(Clone, Copy, Debug, PartialEq, Eq, Structural)]
pub enum MarkerIr {
    /// `Sync`.
    Sync,
    /// `Send + Sync`.
    SendSync,
    /// `UnwindSafe`.
    UnwindSafe,
    /// `RefUnwindSafe`.
    RefUnwindSafe,
}

/// The type a marker is asserted for.
#[derive(Clone, Copy, Debug)]
pub enum AssertedIr<'a> {
    /// The implementing type.
    Target,
    /// A mutable borrow of the implementing type.
    TargetMut,
    /// The receiver's own declared type, with `Self` read as the target.
    ReceiverType,
    /// A type of the signature.
    Type(&'a TypeIr),
    /// A mutable borrow of a type of the signature.
    TypeMut(&'a TypeIr),
}

/// One asserted bound.
#[derive(Clone, Copy, Debug)]
pub struct MarkerAssertionIr<'a> {
    pub marker: MarkerIr,
    pub subject: AssertedIr<'a>,
}

/// The value of an asserted type.
pub enum AssertedView {
    Target,
    TargetMut,
    ReceiverType,
    Type(TypeIr),
    TypeMut(TypeIr),
}

/// The value of one asserted bound.
pub open spec fn assertion_view(assertion: MarkerAssertionIr<'_>) -> (MarkerIr, AssertedView) {
    (
        assertion.marker,
        match assertion.subject {
            AssertedIr::Target => AssertedView::Target,
            AssertedIr::TargetMut => AssertedView::TargetMut,
            AssertedIr::ReceiverType => AssertedView::ReceiverType,
            AssertedIr::Type(ty) => AssertedView::Type(*ty),
            AssertedIr::TypeMut(ty) => AssertedView::TypeMut(*ty),
        },
    )
}

/// The values of asserted bounds, in order.
pub open spec fn assertion_views(assertions: Seq<MarkerAssertionIr<'_>>) -> Seq<(MarkerIr, AssertedView)> {
    assertions.map_values(|assertion: MarkerAssertionIr<'_>| assertion_view(assertion))
}

// ---------------------------------------------------------------------------
// Thread-safe adapters
// ---------------------------------------------------------------------------

/// The bound a thread-safe adapter asserts for its receiver: its own type
/// must be `Send + Sync` when it has one (an owned container or a registered
/// receiver type); otherwise `&self` needs a `Sync` target, `self` and
/// `&mut self` a `Send + Sync` one, and other typed receivers nothing.
pub open spec fn thread_safe_receiver(receiver: ReceiverIr, own_type: bool) -> Option<(MarkerIr, AssertedView)> {
    if own_type {
        Some((MarkerIr::SendSync, AssertedView::ReceiverType))
    } else {
        match receiver.kind {
            ReceiverKindIr::SharedReference => Some((MarkerIr::Sync, AssertedView::Target)),
            ReceiverKindIr::Value => Some((MarkerIr::SendSync, AssertedView::Target)),
            ReceiverKindIr::MutableReference => Some((MarkerIr::SendSync, AssertedView::Target)),
            ReceiverKindIr::Typed => None,
        }
    }
}

/// The bound a thread-safe adapter asserts for one parameter: a shared
/// borrow needs a `Sync` referent, anything else a `Send + Sync` value or
/// referent.
pub open spec fn thread_safe_parameter(parameter: ParameterIr) -> (MarkerIr, AssertedView) {
    match parameter.ty.kind {
        TypeKindIr::Reference { mutable, element, .. } => if mutable {
            (MarkerIr::SendSync, AssertedView::Type(*element))
        } else {
            (MarkerIr::Sync, AssertedView::Type(*element))
        },
        _ => (MarkerIr::SendSync, AssertedView::Type(parameter.ty)),
    }
}

/// The bound a thread-safe adapter asserts for the returned value: `Send +
/// Sync`, unless nothing, a borrow or `!` is returned.
pub open spec fn thread_safe_output(return_type: ReturnTypeIr) -> Option<(MarkerIr, AssertedView)> {
    match return_type {
        ReturnTypeIr::Type(ty) => match ty.kind {
            TypeKindIr::Reference { .. } => None,
            TypeKindIr::Never => None,
            _ => Some((MarkerIr::SendSync, AssertedView::Type(ty))),
        },
        ReturnTypeIr::Unit => None,
    }
}

/// An optional bound as a sequence of at most one bound.
pub open spec fn optional_bound(bound: Option<(MarkerIr, AssertedView)>) -> Seq<(MarkerIr, AssertedView)> {
    match bound {
        Some(bound) => seq![bound],
        None => Seq::empty(),
    }
}

/// Every bound a thread-safe adapter asserts, in order: the receiver's, one
/// per parameter, then the output's.
pub open spec fn thread_safe_bounds(method: MethodIr, own_type: bool) -> Seq<(MarkerIr, AssertedView)> {
    optional_bound(
        match method.receiver {
            Some(receiver) => thread_safe_receiver(receiver, own_type),
            None => None,
        },
    ) + method.parameters@.map_values(|parameter: ParameterIr| thread_safe_parameter(parameter))
        + optional_bound(thread_safe_output(method.return_type))
}

pub(crate) fn thread_safe_receiver_of(receiver: &ReceiverIr, own_type: bool) -> (assertion: Option<MarkerAssertionIr<'_>>)
    ensures
        match assertion {
            Some(assertion) => thread_safe_receiver(*receiver, own_type) == Some(assertion_view(assertion)),
            None => thread_safe_receiver(*receiver, own_type) is None,
        },
{
    if own_type {
        return Some(MarkerAssertionIr { marker: MarkerIr::SendSync, subject: AssertedIr::ReceiverType });
    }
    match receiver.kind {
        ReceiverKindIr::SharedReference => Some(MarkerAssertionIr { marker: MarkerIr::Sync, subject: AssertedIr::Target }),
        ReceiverKindIr::Value | ReceiverKindIr::MutableReference => Some(
            MarkerAssertionIr { marker: MarkerIr::SendSync, subject: AssertedIr::Target },
        ),
        ReceiverKindIr::Typed => None,
    }
}

pub(crate) fn thread_safe_parameter_of(parameter: &ParameterIr) -> (assertion: MarkerAssertionIr<'_>)
    ensures
        assertion_view(assertion) == thread_safe_parameter(*parameter),
{
    match &parameter.ty.kind {
        TypeKindIr::Reference { mutable, element, .. } => if *mutable {
            MarkerAssertionIr { marker: MarkerIr::SendSync, subject: AssertedIr::Type(element) }
        } else {
            MarkerAssertionIr { marker: MarkerIr::Sync, subject: AssertedIr::Type(element) }
        },
        _ => MarkerAssertionIr { marker: MarkerIr::SendSync, subject: AssertedIr::Type(&parameter.ty) },
    }
}

pub(crate) fn thread_safe_output_of(return_type: &ReturnTypeIr) -> (assertion: Option<MarkerAssertionIr<'_>>)
    ensures
        match assertion {
            Some(assertion) => thread_safe_output(*return_type) == Some(assertion_view(assertion)),
            None => thread_safe_output(*return_type) is None,
        },
{
    match return_type {
        ReturnTypeIr::Type(ty) => match &ty.kind {
            TypeKindIr::Reference { .. } => None,
            TypeKindIr::Never => None,
            _ => Some(MarkerAssertionIr { marker: MarkerIr::SendSync, subject: AssertedIr::Type(ty) }),
        },
        ReturnTypeIr::Unit => None,
    }
}

/// Pushes an optional bound.
fn push_optional<'a>(assertions: &mut Vec<MarkerAssertionIr<'a>>, assertion: Option<MarkerAssertionIr<'a>>)
    ensures
        assertion_views(final(assertions)@) == assertion_views(old(assertions)@) + optional_bound(
            match assertion {
                Some(assertion) => Some(assertion_view(assertion)),
                None => None,
            },
        ),
{
    let ghost before = assertions@;
    if let Some(assertion) = assertion {
        assertions.push(assertion);
        assert(assertion_views(assertions@) =~= assertion_views(before) + seq![assertion_view(assertion)]);
    } else {
        assert(assertion_views(assertions@) =~= assertion_views(before) + Seq::empty());
    }
}

/// Returns the marker bounds a thread-safe adapter asserts for a method, in
/// order; `own_type` tells whether its receiver has a type of its own (an
/// owned container or a registered receiver type).
pub fn thread_safe_assertions(method: &MethodIr, own_type: bool) -> (assertions: Vec<MarkerAssertionIr<'_>>)
    ensures
        assertion_views(assertions@) == thread_safe_bounds(*method, own_type),
{
    let mut assertions: Vec<MarkerAssertionIr<'_>> = Vec::new();
    let receiver = match &method.receiver {
        Some(receiver) => thread_safe_receiver_of(receiver, own_type),
        None => None,
    };
    push_optional(&mut assertions, receiver);
    let ghost head = assertion_views(assertions@);
    let mut index: usize = 0;
    while index < method.parameters.len()
        invariant
            index <= method.parameters@.len(),
            assertion_views(assertions@) == head + method.parameters@.take(index as int).map_values(
                |parameter: ParameterIr| thread_safe_parameter(parameter),
            ),
        decreases method.parameters.len() - index,
    {
        let ghost before = assertions@;
        let assertion = thread_safe_parameter_of(&method.parameters[index]);
        assertions.push(assertion);
        assert(method.parameters@.take(index + 1) =~= method.parameters@.take(index as int).push(
            method.parameters@[index as int],
        ));
        assert(assertion_views(assertions@) =~= assertion_views(before).push(assertion_view(assertion)));
        index += 1;
    }
    assert(method.parameters@.take(method.parameters@.len() as int) =~= method.parameters@);
    push_optional(&mut assertions, thread_safe_output_of(&method.return_type));
    assertions
}

// ---------------------------------------------------------------------------
// Panic-catching adapters
// ---------------------------------------------------------------------------

/// The bound a panic-catching adapter asserts for its receiver: its own
/// type must be `UnwindSafe` when it has one; otherwise `&self` needs a
/// `RefUnwindSafe` target, `&mut self` an `UnwindSafe` mutable borrow of it,
/// `self` an `UnwindSafe` target, and other typed receivers nothing.
pub open spec fn catching_receiver(receiver: ReceiverIr, own_type: bool) -> Option<(MarkerIr, AssertedView)> {
    if own_type {
        Some((MarkerIr::UnwindSafe, AssertedView::ReceiverType))
    } else {
        match receiver.kind {
            ReceiverKindIr::SharedReference => Some((MarkerIr::RefUnwindSafe, AssertedView::Target)),
            ReceiverKindIr::MutableReference => Some((MarkerIr::UnwindSafe, AssertedView::TargetMut)),
            ReceiverKindIr::Value => Some((MarkerIr::UnwindSafe, AssertedView::Target)),
            ReceiverKindIr::Typed => None,
        }
    }
}

/// The bound a panic-catching adapter asserts for one parameter: a shared
/// borrow needs a `RefUnwindSafe` referent, a mutable borrow must itself be
/// `UnwindSafe`, and a value must be `UnwindSafe`.
pub open spec fn catching_parameter(parameter: ParameterIr) -> (MarkerIr, AssertedView) {
    match parameter.ty.kind {
        TypeKindIr::Reference { mutable, element, .. } => if mutable {
            (MarkerIr::UnwindSafe, AssertedView::TypeMut(*element))
        } else {
            (MarkerIr::RefUnwindSafe, AssertedView::Type(*element))
        },
        _ => (MarkerIr::UnwindSafe, AssertedView::Type(parameter.ty)),
    }
}

/// The bound a panic-catching adapter asserts for the returned value, as
/// for a parameter, and nothing for `!` or no value.
pub open spec fn catching_output(return_type: ReturnTypeIr) -> Option<(MarkerIr, AssertedView)> {
    match return_type {
        ReturnTypeIr::Type(ty) => match ty.kind {
            TypeKindIr::Reference { mutable, element, .. } => if mutable {
                Some((MarkerIr::UnwindSafe, AssertedView::TypeMut(*element)))
            } else {
                Some((MarkerIr::RefUnwindSafe, AssertedView::Type(*element)))
            },
            TypeKindIr::Never => None,
            _ => Some((MarkerIr::UnwindSafe, AssertedView::Type(ty))),
        },
        ReturnTypeIr::Unit => None,
    }
}

/// Every bound a panic-catching adapter asserts, in order: the receiver's,
/// one per parameter, then the output's.
pub open spec fn catching_bounds(method: MethodIr, own_type: bool) -> Seq<(MarkerIr, AssertedView)> {
    optional_bound(
        match method.receiver {
            Some(receiver) => catching_receiver(receiver, own_type),
            None => None,
        },
    ) + method.parameters@.map_values(|parameter: ParameterIr| catching_parameter(parameter)) + optional_bound(
        catching_output(method.return_type),
    )
}

pub(crate) fn catching_receiver_of(receiver: &ReceiverIr, own_type: bool) -> (assertion: Option<MarkerAssertionIr<'_>>)
    ensures
        match assertion {
            Some(assertion) => catching_receiver(*receiver, own_type) == Some(assertion_view(assertion)),
            None => catching_receiver(*receiver, own_type) is None,
        },
{
    if own_type {
        return Some(MarkerAssertionIr { marker: MarkerIr::UnwindSafe, subject: AssertedIr::ReceiverType });
    }
    match receiver.kind {
        ReceiverKindIr::SharedReference => Some(
            MarkerAssertionIr { marker: MarkerIr::RefUnwindSafe, subject: AssertedIr::Target },
        ),
        ReceiverKindIr::MutableReference => Some(
            MarkerAssertionIr { marker: MarkerIr::UnwindSafe, subject: AssertedIr::TargetMut },
        ),
        ReceiverKindIr::Value => Some(MarkerAssertionIr { marker: MarkerIr::UnwindSafe, subject: AssertedIr::Target }),
        ReceiverKindIr::Typed => None,
    }
}

pub(crate) fn catching_parameter_of(parameter: &ParameterIr) -> (assertion: MarkerAssertionIr<'_>)
    ensures
        assertion_view(assertion) == catching_parameter(*parameter),
{
    match &parameter.ty.kind {
        TypeKindIr::Reference { mutable, element, .. } => if *mutable {
            MarkerAssertionIr { marker: MarkerIr::UnwindSafe, subject: AssertedIr::TypeMut(element) }
        } else {
            MarkerAssertionIr { marker: MarkerIr::RefUnwindSafe, subject: AssertedIr::Type(element) }
        },
        _ => MarkerAssertionIr { marker: MarkerIr::UnwindSafe, subject: AssertedIr::Type(&parameter.ty) },
    }
}

pub(crate) fn catching_output_of(return_type: &ReturnTypeIr) -> (assertion: Option<MarkerAssertionIr<'_>>)
    ensures
        match assertion {
            Some(assertion) => catching_output(*return_type) == Some(assertion_view(assertion)),
            None => catching_output(*return_type) is None,
        },
{
    match return_type {
        ReturnTypeIr::Type(ty) => match &ty.kind {
            TypeKindIr::Reference { mutable, element, .. } => if *mutable {
                Some(MarkerAssertionIr { marker: MarkerIr::UnwindSafe, subject: AssertedIr::TypeMut(element) })
            } else {
                Some(MarkerAssertionIr { marker: MarkerIr::RefUnwindSafe, subject: AssertedIr::Type(element) })
            },
            TypeKindIr::Never => None,
            _ => Some(MarkerAssertionIr { marker: MarkerIr::UnwindSafe, subject: AssertedIr::Type(ty) }),
        },
        ReturnTypeIr::Unit => None,
    }
}

/// Returns the marker bounds a panic-catching adapter asserts for a method,
/// in order; `own_type` tells whether its receiver has a type of its own.
pub fn catching_assertions(method: &MethodIr, own_type: bool) -> (assertions: Vec<MarkerAssertionIr<'_>>)
    ensures
        assertion_views(assertions@) == catching_bounds(*method, own_type),
{
    let mut assertions: Vec<MarkerAssertionIr<'_>> = Vec::new();
    let receiver = match &method.receiver {
        Some(receiver) => catching_receiver_of(receiver, own_type),
        None => None,
    };
    push_optional(&mut assertions, receiver);
    let ghost head = assertion_views(assertions@);
    let mut index: usize = 0;
    while index < method.parameters.len()
        invariant
            index <= method.parameters@.len(),
            assertion_views(assertions@) == head + method.parameters@.take(index as int).map_values(
                |parameter: ParameterIr| catching_parameter(parameter),
            ),
        decreases method.parameters.len() - index,
    {
        let ghost before = assertions@;
        let assertion = catching_parameter_of(&method.parameters[index]);
        assertions.push(assertion);
        assert(method.parameters@.take(index + 1) =~= method.parameters@.take(index as int).push(
            method.parameters@[index as int],
        ));
        assert(assertion_views(assertions@) =~= assertion_views(before).push(assertion_view(assertion)));
        index += 1;
    }
    assert(method.parameters@.take(method.parameters@.len() as int) =~= method.parameters@);
    push_optional(&mut assertions, catching_output_of(&method.return_type));
    assertions
}

// ---------------------------------------------------------------------------
// Positional arguments
// ---------------------------------------------------------------------------

/// How an adapter receives one positional argument.
#[derive(Clone, Copy, Debug)]
pub enum ArgumentPassingIr<'a> {
    /// An owned value of the parameter type.
    Owned(&'a TypeIr),
    /// A shared borrow of the referent, which a mutable borrow also serves.
    Shared(&'a TypeIr),
    /// A shared borrow of a string slice.
    SharedStr,
    /// A mutable borrow of the referent.
    Mutable(&'a TypeIr),
    /// A mutable borrow of a string slice.
    MutableStr,
}

/// The value of an [`ArgumentPassingIr`].
pub enum PassingView {
    Owned(TypeIr),
    Shared(TypeIr),
    SharedStr,
    Mutable(TypeIr),
    MutableStr,
}

/// The value of one argument passing.
pub open spec fn passing_view(passing: ArgumentPassingIr<'_>) -> PassingView {
    match passing {
        ArgumentPassingIr::Owned(ty) => PassingView::Owned(*ty),
        ArgumentPassingIr::Shared(ty) => PassingView::Shared(*ty),
        ArgumentPassingIr::SharedStr => PassingView::SharedStr,
        ArgumentPassingIr::Mutable(ty) => PassingView::Mutable(*ty),
        ArgumentPassingIr::MutableStr => PassingView::MutableStr,
    }
}

/// How a parameter's argument is passed: borrows by their referent, with
/// string slices read as text, and anything else by value.
pub open spec fn passing_of(parameter: ParameterIr) -> PassingView {
    match parameter.ty.kind {
        TypeKindIr::Reference { mutable, element, .. } => if mutable {
            if str_type(*element) {
                PassingView::MutableStr
            } else {
                PassingView::Mutable(*element)
            }
        } else if str_type(*element) {
            PassingView::SharedStr
        } else {
            PassingView::Shared(*element)
        },
        _ => PassingView::Owned(parameter.ty),
    }
}

/// Returns how an adapter receives a parameter's argument.
pub fn argument_passing(parameter: &ParameterIr) -> (passing: ArgumentPassingIr<'_>)
    ensures
        passing_view(passing) == passing_of(*parameter),
{
    match &parameter.ty.kind {
        TypeKindIr::Reference { mutable, element, .. } => if *mutable {
            if is_str_type(element) {
                ArgumentPassingIr::MutableStr
            } else {
                ArgumentPassingIr::Mutable(element)
            }
        } else if is_str_type(element) {
            ArgumentPassingIr::SharedStr
        } else {
            ArgumentPassingIr::Shared(element)
        },
        _ => ArgumentPassingIr::Owned(&parameter.ty),
    }
}

} // verus!

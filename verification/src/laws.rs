//! Properties that hold of the library as a whole, stated over the same
//! specifications the functions' contracts use.

use vstd::prelude::*;

use crate::attributes::key_result;
use crate::attributes::meta_result;
use crate::attributes::msg_unknown_helper;
use crate::attributes::MetaIr;
use crate::dyn_compatibility::provably_dyn_compatible;
use crate::helper::helper_named;
use crate::helper::helper_spelling;
use crate::helper::lemma_helper_named_is_spelling;
use crate::helper::HelperName;
use crate::helper::HelperTarget;
use crate::invocation::executable;
use crate::invocation::output_of;
use crate::invocation::parameter_plans;
use crate::invocation::reason_if;
use crate::invocation::reasons_of;
use crate::invocation::OutputPlan;
use crate::invocation::ReceiverPlan;
use crate::ir::MethodIr;
use crate::ir::TraitDeclarationIr;
use crate::record::wrapped_sum;
use crate::context::fnv_hash;
use crate::context::fnv_step;
use vstd::string::StringSliceAdditionalSpecFns;
use vstd::utf8::encode_utf8;
use crate::context::repr_integer_name;
use crate::context::EnumReprIr;
use crate::invocation::UnavailableReasonPlan;
use crate::representation::named_repr;
use crate::validate::has_named;
use crate::validate::is_stable_id;
use crate::validate::stable_char_ok;
use crate::dyn_compatibility::method_dispatchable;
use crate::dyn_compatibility::requires_sized_self;
use crate::invocation::borrow_supported;
use crate::invocation::mutable_reference_parameter;
use crate::ir::ReceiverKindIr;
use crate::ir::ReturnTypeIr;
use crate::ir::TypeKindIr;
use crate::ir::HelperAttributeIr;
use crate::validate::attribute_list_diagnostics;
use crate::validate::conflict_diagnostics;
use crate::validate::first_named;
use crate::validate::is_first_named;
use crate::validate::policy_conflicts;
use crate::validate::skip_conflicts;
use crate::diagnostics::DiagnosticView;
use crate::reflected::constructor_arity;
use crate::reflected::segment_names;
use crate::reflected::transparent_uses;
use crate::ir::PathArgumentIr;
use crate::ir::PathArgumentsIr;
use crate::ir::TypeIr;
use crate::ir::ParameterIr;
use crate::assertions::optional_bound;
use crate::assertions::thread_safe_parameter;
use crate::assertions::catching_parameter;
use crate::assertions::thread_safe_bounds;
use crate::assertions::catching_bounds;
use crate::assertions::MarkerIr;
use crate::assertions::AssertedView;

verus! {

/// An accepted helper item names its helper by the helper's own spelling,
/// sits on the requested target and keeps the item's span.
pub proof fn law_accepted_helper_is_spelled_by_its_key(meta: MetaIr, target: HelperTarget)
    requires
        meta_result(meta, target) is Ok,
    ensures
        meta.ident matches Some(key) && helper_spelling(meta_result(meta, target)->Ok_0.name) == key@,
        meta_result(meta, target)->Ok_0.target == target,
        meta_result(meta, target)->Ok_0.span == meta.span,
{
    let key = meta.ident->Some_0;
    lemma_helper_named_is_spelling(key@);
}

/// A key that spells no helper is rejected at the item, naming the key.
pub proof fn law_unknown_key_is_rejected(meta: MetaIr, target: HelperTarget)
    requires
        meta.ident matches Some(key) && helper_named(key@) is None,
    ensures
        meta_result(meta, target) == Err::<crate::ir::HelperAttributeIr, (usize, Seq<char>)>(
            (meta.span, msg_unknown_helper(meta.ident->Some_0@)),
        ),
{
}

/// An executable invocation plan has a supported receiver and output and
/// only supported parameters.
pub proof fn law_executable_plan_is_supported(
    method: MethodIr,
    receiver: Option<ReceiverPlan>,
    default_method: bool,
    has_unproven_associated_type: bool,
)
    requires
        executable(method, receiver, default_method, has_unproven_associated_type),
    ensures
        !(receiver matches Some(ReceiverPlan::Unsupported)),
        output_of(method.return_type) != OutputPlan::Unsupported,
        output_of(method.return_type) != OutputPlan::Opaque,
        forall|i: int|
            0 <= i < method.parameters@.len() ==> (#[trigger] parameter_plans(method.parameters@)[i]).supported,
        forall|i: int|
            0 <= i < method.parameters@.len() ==> parameter_plans(method.parameters@)[i].index
                == (#[trigger] method.parameters@[i]).index,
{
    assert forall|i: int| 0 <= i < method.parameters@.len() implies (
    #[trigger] parameter_plans(method.parameters@)[i]).supported by {
        assert(crate::invocation::parameter_supported(method.parameters@[i].ty));
    }
}

/// A method that is only described always carries at least one reason.
pub proof fn law_described_plan_has_a_reason(method: MethodIr, receiver: Option<ReceiverPlan>)
    ensures
        reasons_of(method, receiver).len() > 0,
{
}

/// The `dyn_compatible` helper asserts dyn compatibility outright.
pub proof fn law_dyn_compatible_helper_is_trusted(declaration: TraitDeclarationIr)
    requires
        has_named(declaration.attributes@, HelperName::DynCompatible),
    ensures
        provably_dyn_compatible(declaration),
{
}

/// A stable identifier has no empty segment: a dot never begins or ends it
/// and never follows another dot.
pub proof fn law_stable_id_segments_are_non_empty(value: Seq<char>, i: int)
    requires
        is_stable_id(value),
        0 <= i < value.len(),
        value[i] == '.',
    ensures
        0 < i,
        i + 1 < value.len(),
        value[i + 1] != '.',
{
    assert(stable_char_ok(value, 0));
    if i + 1 < value.len() {
        assert(stable_char_ok(value, i + 1));
    }
}

/// Two wrapping additions equal one addition of the wrapped sum of the
/// deltas: a counter's value depends only on the total added, modulo 2^64.
pub proof fn law_wrapping_additions_compose(value: u64, first: u64, second: u64)
    ensures
        wrapped_sum(wrapped_sum(value, first), second) == wrapped_sum(value, wrapped_sum(first, second)),
{
    let m: int = 0x1_0000_0000_0000_0000int;
    let a = value as int;
    let b = first as int;
    let c = second as int;
    vstd::arithmetic::div_mod::lemma_add_mod_noop_right(a, b + c, m);
    vstd::arithmetic::div_mod::lemma_add_mod_noop(a + b, c, m);
    vstd::arithmetic::div_mod::lemma_small_mod(c as nat, m as nat);
    vstd::arithmetic::div_mod::lemma_mod_bound(a + b, m);
    vstd::arithmetic::div_mod::lemma_mod_bound(b + c, m);
    vstd::arithmetic::div_mod::lemma_mod_bound(a + (b + c) % m, m);
    vstd::arithmetic::div_mod::lemma_mod_bound((a + b) % m + c, m);
    vstd::arithmetic::div_mod::lemma_small_mod(((a + b) % m) as nat, m as nat);
    assert(((a + b) % m) % m == (a + b) % m);
    assert(((a + b) % m + c) % m == (a + b + c) % m);
    assert((a + (b + c) % m) % m == (a + b + c) % m);
}

// ---------------------------------------------------------------------------
// Unavailable reasons come in one order, each once
// ---------------------------------------------------------------------------

/// The position of an unavailable reason in its declaration order.
pub open spec fn reason_rank(reason: UnavailableReasonPlan) -> int {
    match reason {
        UnavailableReasonPlan::UnsupportedReceiver => 0,
        UnavailableReasonPlan::UnspecializedGeneric => 1,
        UnavailableReasonPlan::UnsafeMethod => 2,
        UnavailableReasonPlan::UnsupportedAbi => 3,
        UnavailableReasonPlan::Variadic => 4,
        UnavailableReasonPlan::UnsupportedBorrowedReturn => 5,
        UnavailableReasonPlan::OpaqueReturn => 6,
        UnavailableReasonPlan::UnsupportedUnsizedValue => 7,
        UnavailableReasonPlan::UnprovenDefaultConstraint => 8,
        UnavailableReasonPlan::UnprovenAssociatedType => 9,
        UnavailableReasonPlan::PinnedModeConflict => 10,
        UnavailableReasonPlan::DisabledByPolicy => 11,
    }
}

/// Whether reasons strictly follow declaration order, so none repeats.
pub open spec fn reasons_ordered(reasons: Seq<UnavailableReasonPlan>) -> bool {
    forall|i: int, j: int| 0 <= i < j < reasons.len() ==> reason_rank(#[trigger] reasons[i]) < reason_rank(
        #[trigger] reasons[j],
    )
}

/// Whether every reason ranks below `bound`.
pub open spec fn ranks_below(reasons: Seq<UnavailableReasonPlan>, bound: int) -> bool {
    forall|i: int| 0 <= i < reasons.len() ==> reason_rank(#[trigger] reasons[i]) < bound
}

proof fn lemma_reason_appended(prefix: Seq<UnavailableReasonPlan>, condition: bool, reason: UnavailableReasonPlan)
    requires
        reasons_ordered(prefix),
        ranks_below(prefix, reason_rank(reason)),
    ensures
        reasons_ordered(prefix + reason_if(condition, reason)),
        ranks_below(prefix + reason_if(condition, reason), reason_rank(reason) + 1),
{
    let all = prefix + reason_if(condition, reason);
    assert forall|i: int, j: int| 0 <= i < j < all.len() implies reason_rank(#[trigger] all[i]) < reason_rank(
        #[trigger] all[j],
    ) by {
        if j < prefix.len() {
            assert(all[i] == prefix[i] && all[j] == prefix[j]);
        } else {
            assert(all[i] == prefix[i]);
            assert(all[j] == reason);
        }
    }
    assert forall|i: int| 0 <= i < all.len() implies reason_rank(#[trigger] all[i]) < reason_rank(reason) + 1 by {
        if i < prefix.len() {
            assert(all[i] == prefix[i]);
        }
    }
}

/// The reasons a method is only described come in the order the reasons
/// are declared, so no reason is listed twice.
pub proof fn law_described_reasons_are_ordered(method: MethodIr, receiver: Option<ReceiverPlan>)
    ensures
        reasons_ordered(reasons_of(method, receiver)),
{
    let empty = Seq::<UnavailableReasonPlan>::empty();
    let r0 = reason_if(receiver matches Some(ReceiverPlan::Unsupported), UnavailableReasonPlan::UnsupportedReceiver);
    lemma_reason_appended(empty, receiver matches Some(ReceiverPlan::Unsupported), UnavailableReasonPlan::UnsupportedReceiver);
    assert(empty + r0 =~= r0);
    let r1 = r0 + reason_if(method.generics.params@.len() > 0, UnavailableReasonPlan::UnspecializedGeneric);
    lemma_reason_appended(r0, method.generics.params@.len() > 0, UnavailableReasonPlan::UnspecializedGeneric);
    let r2 = r1 + reason_if(method.qualifiers.is_unsafe, UnavailableReasonPlan::UnsafeMethod);
    lemma_reason_appended(r1, method.qualifiers.is_unsafe, UnavailableReasonPlan::UnsafeMethod);
    let r3 = r2 + reason_if(method.qualifiers.abi is Some, UnavailableReasonPlan::UnsupportedAbi);
    lemma_reason_appended(r2, method.qualifiers.abi is Some, UnavailableReasonPlan::UnsupportedAbi);
    let r4 = r3 + reason_if(method.qualifiers.is_variadic, UnavailableReasonPlan::Variadic);
    lemma_reason_appended(r3, method.qualifiers.is_variadic, UnavailableReasonPlan::Variadic);
    let borrowed = !crate::invocation::borrow_supported(method) || (method.qualifiers.is_async
        && crate::invocation::borrow_return(method.return_type));
    let r5 = r4 + reason_if(borrowed, UnavailableReasonPlan::UnsupportedBorrowedReturn);
    lemma_reason_appended(r4, borrowed, UnavailableReasonPlan::UnsupportedBorrowedReturn);
    let opaque = output_of(method.return_type) == OutputPlan::Opaque;
    let r6 = r5 + reason_if(opaque, UnavailableReasonPlan::OpaqueReturn);
    lemma_reason_appended(r5, opaque, UnavailableReasonPlan::OpaqueReturn);
    let unsized_value = exists|i: int|
        0 <= i < method.parameters@.len() && crate::invocation::unsized_parameter(#[trigger] method.parameters@[i].ty);
    let r7 = r6 + reason_if(unsized_value, UnavailableReasonPlan::UnsupportedUnsizedValue);
    lemma_reason_appended(r6, unsized_value, UnavailableReasonPlan::UnsupportedUnsizedValue);
    let policy = crate::invocation::disabled_by_policy(method);
    let r8 = r7 + reason_if(policy, UnavailableReasonPlan::DisabledByPolicy);
    lemma_reason_appended(r7, policy, UnavailableReasonPlan::DisabledByPolicy);
    assert(reasons_ordered(r8));
    if r8.len() == 0 {
        assert(reasons_ordered(seq![UnavailableReasonPlan::DisabledByPolicy]));
    }
}

// ---------------------------------------------------------------------------
// Fingerprints extend over concatenation
// ---------------------------------------------------------------------------

/// The hash reached from `hash` by folding in `bytes` one by one.
pub open spec fn fnv_extend(hash: u64, bytes: Seq<u8>) -> u64
    decreases bytes.len(),
{
    if bytes.len() == 0 {
        hash
    } else {
        fnv_step(fnv_extend(hash, bytes.drop_last()), bytes.last())
    }
}

/// The fingerprint of a concatenation is the fingerprint of its first part
/// with the bytes of the second folded in: fingerprints can be computed
/// incrementally.
pub proof fn law_fingerprint_extends(first: Seq<u8>, second: Seq<u8>)
    ensures
        fnv_hash(first + second) == fnv_extend(fnv_hash(first), second),
    decreases second.len(),
{
    if second.len() == 0 {
        assert(first + second =~= first);
    } else {
        law_fingerprint_extends(first, second.drop_last());
        assert((first + second).drop_last() =~= first + second.drop_last());
        assert((first + second).last() == second.last());
    }
}

proof fn lemma_encoding_of_concatenation(first: Seq<char>, second: Seq<char>)
    ensures
        encode_utf8(first + second) == encode_utf8(first) + encode_utf8(second),
    decreases first.len(),
{
    if first.len() == 0 {
        assert(first + second =~= second);
        assert(encode_utf8(first) + encode_utf8(second) =~= encode_utf8(second));
    } else {
        lemma_encoding_of_concatenation(first.drop_first(), second);
        assert((first + second).drop_first() =~= first.drop_first() + second);
        assert((first + second)[0] == first[0]);
        let head = vstd::utf8::encode_scalar(first[0] as u32);
        assert(head + (encode_utf8(first.drop_first()) + encode_utf8(second)) =~= head + encode_utf8(
            first.drop_first(),
        ) + encode_utf8(second));
    }
}

/// The fingerprint of two texts written one after the other is the
/// fingerprint of the first with the UTF-8 bytes of the second folded in,
/// and every context fingerprints a text as the free function does.
pub proof fn law_fingerprint_of_concatenation(first: &str, second: &str, joined: &str)
    requires
        joined@ == first@ + second@,
    ensures
        fnv_hash(joined.spec_bytes()) == fnv_extend(fnv_hash(first.spec_bytes()), second.spec_bytes()),
{
    lemma_encoding_of_concatenation(first@, second@);
    law_fingerprint_extends(first.spec_bytes(), second.spec_bytes());
}

// ---------------------------------------------------------------------------
// Integer representations round-trip through their spelling
// ---------------------------------------------------------------------------

/// A representation has an integer spelling exactly when it is a primitive
/// integer, and reading that spelling as a `repr` argument gives the
/// representation back.
pub proof fn law_integer_name_round_trips(repr: EnumReprIr)
    ensures
        repr_integer_name(repr) is None <==> (repr is Rust || repr is C || repr is Transparent || repr is Align),
        repr_integer_name(repr) matches Some(name) ==> named_repr(name) == Some(repr),
{
    reveal_strlit("i8");
    reveal_strlit("i16");
    reveal_strlit("i32");
    reveal_strlit("i64");
    reveal_strlit("i128");
    reveal_strlit("isize");
    reveal_strlit("u8");
    reveal_strlit("u16");
    reveal_strlit("u32");
    reveal_strlit("u64");
    reveal_strlit("u128");
    reveal_strlit("usize");
    reveal_strlit("Rust");
    reveal_strlit("C");
    reveal_strlit("transparent");
    assert("Rust"@.len() == 4);
    assert("Rust"@[0] == 'R');
    assert("Rust"@[1] == 'u');
    assert("Rust"@[2] == 's');
    assert("Rust"@[3] == 't');
    assert("C"@.len() == 1);
    assert("C"@[0] == 'C');
    assert("transparent"@.len() == 11);
    assert("transparent"@[0] == 't');
    assert("transparent"@[1] == 'r');
    assert("transparent"@[2] == 'a');
    assert("transparent"@[3] == 'n');
    assert("i8"@.len() == 2);
    assert("i8"@[0] == 'i');
    assert("i8"@[1] == '8');
    assert("i16"@.len() == 3);
    assert("i16"@[0] == 'i');
    assert("i16"@[1] == '1');
    assert("i16"@[2] == '6');
    assert("i32"@.len() == 3);
    assert("i32"@[0] == 'i');
    assert("i32"@[1] == '3');
    assert("i32"@[2] == '2');
    assert("i64"@.len() == 3);
    assert("i64"@[0] == 'i');
    assert("i64"@[1] == '6');
    assert("i64"@[2] == '4');
    assert("i128"@.len() == 4);
    assert("i128"@[0] == 'i');
    assert("i128"@[1] == '1');
    assert("i128"@[2] == '2');
    assert("i128"@[3] == '8');
    assert("isize"@.len() == 5);
    assert("isize"@[0] == 'i');
    assert("isize"@[1] == 's');
    assert("isize"@[2] == 'i');
    assert("isize"@[3] == 'z');
    assert("u8"@.len() == 2);
    assert("u8"@[0] == 'u');
    assert("u8"@[1] == '8');
    assert("u16"@.len() == 3);
    assert("u16"@[0] == 'u');
    assert("u16"@[1] == '1');
    assert("u16"@[2] == '6');
    assert("u32"@.len() == 3);
    assert("u32"@[0] == 'u');
    assert("u32"@[1] == '3');
    assert("u32"@[2] == '2');
    assert("u64"@.len() == 3);
    assert("u64"@[0] == 'u');
    assert("u64"@[1] == '6');
    assert("u64"@[2] == '4');
    assert("u128"@.len() == 4);
    assert("u128"@[0] == 'u');
    assert("u128"@[1] == '1');
    assert("u128"@[2] == '2');
    assert("u128"@[3] == '8');
    assert("usize"@.len() == 5);
    assert("usize"@[0] == 'u');
    assert("usize"@[1] == 's');
    assert("usize"@[2] == 'i');
    assert("usize"@[3] == 'z');
    match repr {
        EnumReprIr::I8 => assert(named_repr("i8"@) == Some(repr)),
        EnumReprIr::I16 => assert(named_repr("i16"@) == Some(repr)),
        EnumReprIr::I32 => assert(named_repr("i32"@) == Some(repr)),
        EnumReprIr::I64 => assert(named_repr("i64"@) == Some(repr)),
        EnumReprIr::I128 => assert(named_repr("i128"@) == Some(repr)),
        EnumReprIr::Isize => assert(named_repr("isize"@) == Some(repr)),
        EnumReprIr::U8 => assert(named_repr("u8"@) == Some(repr)),
        EnumReprIr::U16 => assert(named_repr("u16"@) == Some(repr)),
        EnumReprIr::U32 => assert(named_repr("u32"@) == Some(repr)),
        EnumReprIr::U64 => assert(named_repr("u64"@) == Some(repr)),
        EnumReprIr::U128 => assert(named_repr("u128"@) == Some(repr)),
        EnumReprIr::Usize => assert(named_repr("usize"@) == Some(repr)),
        _ => {},
    }
}

// ---------------------------------------------------------------------------
// What an invocation plan records
// ---------------------------------------------------------------------------

/// An invocation plan keeps each parameter's position, catches panics
/// exactly for synchronous methods that ask for it, and is executable only
/// for a method with a supported receiver and output, no type parameters,
/// no `unsafe`, no ABI, and no `skip` or `no_invoke` helper.
pub proof fn law_invocation_plan_facts(
    method: MethodIr,
    receiver: Option<ReceiverPlan>,
    default_method: bool,
    has_unproven_associated_type: bool,
)
    ensures
        parameter_plans(method.parameters@).len() == method.parameters@.len(),
        forall|i: int|
            0 <= i < method.parameters@.len() ==> #[trigger] parameter_plans(method.parameters@)[i].index
                == method.parameters@[i].index,
        crate::invocation::modes_of(method).catching == (has_named(method.attributes@, HelperName::CatchUnwind)
            && !method.qualifiers.is_async),
        executable(method, receiver, default_method, has_unproven_associated_type) ==> {
            &&& !(receiver matches Some(ReceiverPlan::Unsupported))
            &&& output_of(method.return_type) != OutputPlan::Opaque
            &&& output_of(method.return_type) != OutputPlan::Unsupported
            &&& method.generics.params@.len() == 0
            &&& !method.qualifiers.is_unsafe
            &&& method.qualifiers.abi is None
            &&& !has_named(method.attributes@, HelperName::Skip)
            &&& !has_named(method.attributes@, HelperName::NoInvoke)
        },
{
}

// ---------------------------------------------------------------------------
// Borrowed returns need a unique origin
// ---------------------------------------------------------------------------

/// Whether a method returns a mutable borrow.
pub open spec fn returns_mutable_borrow(method: MethodIr) -> bool {
    match method.return_type {
        ReturnTypeIr::Type(ty) => match ty.kind {
            TypeKindIr::Reference { mutable, .. } => mutable,
            _ => false,
        },
        ReturnTypeIr::Unit => false,
    }
}

/// Whether the parameter at `i` is a mutable borrow.
pub open spec fn mutable_parameter_at(method: MethodIr, i: int) -> bool {
    &&& 0 <= i < method.parameters@.len()
    &&& match method.parameters@[i].ty.kind {
        TypeKindIr::Reference { mutable, .. } => mutable,
        _ => false,
    }
}

/// A method that returns a mutable borrow while one of its parameters is
/// itself a mutable borrow gives that borrow no unique origin: whatever its
/// receiver and owner, it gets no executable adapter, and its reasons name
/// the unsupported borrowed return.
pub proof fn law_mutable_return_beside_mutable_parameter_is_refused(
    method: MethodIr,
    receiver: Option<ReceiverPlan>,
    default_method: bool,
    has_unproven_associated_type: bool,
    i: int,
)
    requires
        returns_mutable_borrow(method),
        mutable_parameter_at(method, i),
    ensures
        !executable(method, receiver, default_method, has_unproven_associated_type),
        reasons_of(method, receiver).contains(UnavailableReasonPlan::UnsupportedBorrowedReturn),
{
    assert(mutable_reference_parameter(method.parameters@[i]));
    assert(!borrow_supported(method));
    let before = reason_if(
        receiver matches Some(ReceiverPlan::Unsupported),
        UnavailableReasonPlan::UnsupportedReceiver,
    ) + reason_if(method.generics.params@.len() > 0, UnavailableReasonPlan::UnspecializedGeneric) + reason_if(
        method.qualifiers.is_unsafe,
        UnavailableReasonPlan::UnsafeMethod,
    ) + reason_if(method.qualifiers.abi is Some, UnavailableReasonPlan::UnsupportedAbi) + reason_if(
        method.qualifiers.is_variadic,
        UnavailableReasonPlan::Variadic,
    );
    let with_borrow = before + seq![UnavailableReasonPlan::UnsupportedBorrowedReturn];
    assert(with_borrow[before.len() as int] == UnavailableReasonPlan::UnsupportedBorrowedReturn);
    let listed = with_borrow + reason_if(
        output_of(method.return_type) == OutputPlan::Opaque,
        UnavailableReasonPlan::OpaqueReturn,
    ) + reason_if(
        exists|k: int|
            0 <= k < method.parameters@.len() && crate::invocation::unsized_parameter(#[trigger] method.parameters@[k].ty),
        UnavailableReasonPlan::UnsupportedUnsizedValue,
    ) + reason_if(crate::invocation::disabled_by_policy(method), UnavailableReasonPlan::DisabledByPolicy);
    assert(listed[before.len() as int] == UnavailableReasonPlan::UnsupportedBorrowedReturn);
    assert(reasons_of(method, receiver) == listed);
}

/// A mutable borrow returned from `&mut self` with no mutable-borrow
/// parameter has the receiver as its unique origin, so the borrow does not
/// keep the method from being invoked.
pub proof fn law_mutable_return_from_mutable_receiver_is_supported(method: MethodIr)
    requires
        returns_mutable_borrow(method),
        method.receiver matches Some(receiver) && receiver.kind == ReceiverKindIr::MutableReference,
        forall|i: int| !mutable_parameter_at(method, i),
    ensures
        borrow_supported(method),
{
    assert forall|i: int| 0 <= i < method.parameters@.len() implies !mutable_reference_parameter(
        #[trigger] method.parameters@[i],
    ) by {
        assert(!mutable_parameter_at(method, i));
    }
}

// ---------------------------------------------------------------------------
// Dyn dispatch of methods
// ---------------------------------------------------------------------------

/// An `async` method cannot be called through a trait object unless it is
/// excluded from the vtable by a `Self: Sized` predicate.
pub proof fn law_async_method_is_not_dispatchable(method: MethodIr)
    requires
        method.qualifiers.is_async,
        !requires_sized_self(method.generics.where_predicates@),
    ensures
        !method_dispatchable(method),
{
}

/// A method without a receiver, or with a type parameter, cannot be called
/// through a trait object unless a `Self: Sized` predicate excludes it.
pub proof fn law_static_or_generic_method_is_not_dispatchable(method: MethodIr, i: int)
    requires
        !requires_sized_self(method.generics.where_predicates@),
        method.receiver is None || (0 <= i < method.generics.params@.len()
            && method.generics.params@[i].kind != crate::ir::GenericKindIr::Lifetime),
    ensures
        !method_dispatchable(method),
{
}

/// A trait without the `dyn_compatible` helper that declares an `async`
/// method not excluded by `Self: Sized` is not provably dyn compatible.
pub proof fn law_trait_with_async_method_is_not_dyn_compatible(declaration: TraitDeclarationIr, i: int)
    requires
        !has_named(declaration.attributes@, HelperName::DynCompatible),
        0 <= i < declaration.methods@.len(),
        declaration.methods@[i].qualifiers.is_async,
        !requires_sized_self(declaration.methods@[i].generics.where_predicates@),
    ensures
        !provably_dyn_compatible(declaration),
{
    law_async_method_is_not_dispatchable(declaration.methods@[i]);
}

// ---------------------------------------------------------------------------
// Conflicting policies are reported
// ---------------------------------------------------------------------------

/// Whether `k` is the position of the first helper named `name`.
pub open spec fn first_helper_at(attributes: Seq<HelperAttributeIr>, name: HelperName, k: int) -> bool {
    &&& 0 <= k < attributes.len()
    &&& attributes[k].name == name
    &&& forall|j: int| 0 <= j < k ==> attributes[j].name != name
}

/// The policies that `skip` rules out on each target: reading only and
/// construction on a field, construction on a variant, and invocation,
/// panic catching and thread safety on a method.
pub open spec fn excluded_by_skip(target: HelperTarget, name: HelperName) -> bool {
    ||| target == HelperTarget::Field && (name == HelperName::ReadOnly || name == HelperName::NoConstruct)
    ||| target == HelperTarget::Variant && name == HelperName::NoConstruct
    ||| target == HelperTarget::Method && (name == HelperName::NoInvoke || name == HelperName::CatchUnwind || name
        == HelperName::ThreadSafe)
}

proof fn lemma_first_named_is(attributes: Seq<HelperAttributeIr>, name: HelperName, k: int)
    requires
        first_helper_at(attributes, name, k),
    ensures
        first_named(attributes, name) == Some(k),
{
    assert(is_first_named(attributes, name, k));
    let c = choose|c: int| is_first_named(attributes, name, c);
    assert(is_first_named(attributes, name, c));
    if c < k {
        assert(attributes[c].name != name);
    } else if k < c {
        assert(attributes[k].name != name);
    }
}

proof fn lemma_contains_in_sum<A>(first: Seq<A>, second: Seq<A>, item: A)
    ensures
        first.contains(item) ==> (first + second).contains(item),
        second.contains(item) ==> (first + second).contains(item),
{
    if first.contains(item) {
        let i = choose|i: int| 0 <= i < first.len() && first[i] == item;
        assert((first + second)[i] == item);
    }
    if second.contains(item) {
        let i = choose|i: int| 0 <= i < second.len() && second[i] == item;
        assert((first + second)[first.len() + i] == item);
    }
}

/// The diagnostic that names two conflicting helpers.
pub open spec fn conflict_message(left: HelperName, right: HelperName) -> Seq<char> {
    "`"@ + helper_spelling(left) + "` cannot be combined with `"@ + helper_spelling(right) + "`"@
}

/// When the first `skip` helper of a list sits on a target where it rules
/// out another helper of the list, the list is rejected with a diagnostic
/// naming both, at the first helper it rules out.
pub proof fn law_skip_conflicts_are_reported(attributes: Seq<HelperAttributeIr>, skip: int, other: int)
    requires
        first_helper_at(attributes, HelperName::Skip, skip),
        first_helper_at(attributes, attributes[other].name, other),
        excluded_by_skip(attributes[skip].target, attributes[other].name),
    ensures
        attribute_list_diagnostics(attributes).contains(
            (attributes[other].span, conflict_message(HelperName::Skip, attributes[other].name)),
        ),
{
    let right = attributes[other].name;
    let item = (attributes[other].span, conflict_message(HelperName::Skip, right));
    lemma_first_named_is(attributes, HelperName::Skip, skip);
    lemma_first_named_is(attributes, right, other);
    let own = conflict_diagnostics(attributes, HelperName::Skip, right);
    assert(own[0] == item);
    assert(own.contains(item));
    let target = attributes[skip].target;
    let skipped = skip_conflicts(attributes, target);
    if target == HelperTarget::Field {
        let a = conflict_diagnostics(attributes, HelperName::Skip, HelperName::ReadOnly);
        let b = conflict_diagnostics(attributes, HelperName::Skip, HelperName::NoConstruct);
        lemma_contains_in_sum(a, b, item);
        assert(skipped == a + b);
    } else if target == HelperTarget::Variant {
        assert(skipped == own);
    } else {
        let a = conflict_diagnostics(attributes, HelperName::Skip, HelperName::NoInvoke);
        let b = conflict_diagnostics(attributes, HelperName::Skip, HelperName::CatchUnwind);
        let c = conflict_diagnostics(attributes, HelperName::Skip, HelperName::ThreadSafe);
        lemma_contains_in_sum(a, b, item);
        lemma_contains_in_sum(a + b, c, item);
        assert(skipped == a + b + c);
    }
    assert(skipped.contains(item));
    let rest = if has_named(attributes, HelperName::NoInvoke) {
        conflict_diagnostics(attributes, HelperName::NoInvoke, HelperName::CatchUnwind) + conflict_diagnostics(
            attributes,
            HelperName::NoInvoke,
            HelperName::ThreadSafe,
        )
    } else {
        Seq::<DiagnosticView>::empty()
    };
    lemma_contains_in_sum(skipped, rest, item);
    assert(policy_conflicts(attributes) == skipped + rest);
    lemma_contains_in_sum(
        crate::validate::gather(attributes.len(), |i: int| crate::validate::helper_diagnostics(attributes, i)),
        policy_conflicts(attributes),
        item,
    );
}

/// `no_invoke` rules out panic catching and thread safety: a list with both
/// is rejected at the first of the helpers it rules out.
pub proof fn law_no_invoke_conflicts_are_reported(attributes: Seq<HelperAttributeIr>, no_invoke: int, other: int)
    requires
        0 <= no_invoke < attributes.len(),
        attributes[no_invoke].name == HelperName::NoInvoke,
        first_helper_at(attributes, attributes[other].name, other),
        attributes[other].name == HelperName::CatchUnwind || attributes[other].name == HelperName::ThreadSafe,
    ensures
        attribute_list_diagnostics(attributes).contains(
            (attributes[other].span, conflict_message(HelperName::NoInvoke, attributes[other].name)),
        ),
{
    let right = attributes[other].name;
    let item = (attributes[other].span, conflict_message(HelperName::NoInvoke, right));
    lemma_first_named_is(attributes, right, other);
    assert(has_named(attributes, HelperName::NoInvoke));
    let a = conflict_diagnostics(attributes, HelperName::NoInvoke, HelperName::CatchUnwind);
    let b = conflict_diagnostics(attributes, HelperName::NoInvoke, HelperName::ThreadSafe);
    if right == HelperName::CatchUnwind {
        assert(a[0] == item);
        assert(a.contains(item));
    } else {
        assert(b[0] == item);
        assert(b.contains(item));
    }
    lemma_contains_in_sum(a, b, item);
    let skipped = match first_named(attributes, HelperName::Skip) {
        Some(k) => skip_conflicts(attributes, attributes[k].target),
        None => Seq::<DiagnosticView>::empty(),
    };
    lemma_contains_in_sum(skipped, a + b, item);
    assert(policy_conflicts(attributes) == skipped + (a + b));
    lemma_contains_in_sum(
        crate::validate::gather(attributes.len(), |i: int| crate::validate::helper_diagnostics(attributes, i)),
        policy_conflicts(attributes),
        item,
    );
}

// ---------------------------------------------------------------------------
// Transparent standard containers
// ---------------------------------------------------------------------------

/// The reflected arity of the standard containers: one type argument for
/// `Vec`, `Box`, `Rc`, `Arc` and `BTreeSet` (from `std` or `alloc`),
/// `Option` (from `std` or `core`) and `std`'s `HashSet`; two for `BTreeMap`
/// (from `std` or `alloc`) and `std`'s `HashMap`.
pub proof fn law_standard_container_arity(root: Seq<char>, module: Seq<char>, item: Seq<char>)
    ensures
        (root == "std"@ || root == "alloc"@) && module == "collections"@ && item == "BTreeMap"@ ==> constructor_arity(
            seq![root, module, item],
        ) == Some(2nat),
        root == "std"@ && module == "collections"@ && item == "HashMap"@ ==> constructor_arity(
            seq![root, module, item],
        ) == Some(2nat),
        (root == "std"@ || root == "alloc"@) && ((module == "vec"@ && item == "Vec"@) || (module == "boxed"@ && item
            == "Box"@) || (module == "rc"@ && item == "Rc"@) || (module == "sync"@ && item == "Arc"@) || (module
            == "collections"@ && item == "BTreeSet"@)) ==> constructor_arity(seq![root, module, item]) == Some(1nat),
        (root == "std"@ || root == "core"@) && module == "option"@ && item == "Option"@ ==> constructor_arity(
            seq![root, module, item],
        ) == Some(1nat),
        root == "std"@ && module == "collections"@ && item == "HashSet"@ ==> constructor_arity(
            seq![root, module, item],
        ) == Some(1nat),
{
    reveal_strlit("std");
    reveal_strlit("alloc");
    reveal_strlit("core");
    reveal_strlit("vec");
    reveal_strlit("boxed");
    reveal_strlit("rc");
    reveal_strlit("sync");
    reveal_strlit("option");
    reveal_strlit("collections");
    reveal_strlit("Vec");
    reveal_strlit("Box");
    reveal_strlit("Rc");
    reveal_strlit("Arc");
    reveal_strlit("BTreeSet");
    reveal_strlit("Option");
    reveal_strlit("HashSet");
    reveal_strlit("BTreeMap");
    reveal_strlit("HashMap");
    assert("BTreeMap"@ != "BTreeSet"@) by {
        assert("BTreeMap"@[5] != "BTreeSet"@[5]);
    }
    assert("HashMap"@ != "HashSet"@) by {
        assert("HashMap"@[4] != "HashSet"@[4]);
    }
    let names = seq![root, module, item];
    assert(names.len() == 3 && names[0] == root && names[1] == module && names[2] == item);
    assert("BTreeMap"@.len() == 8 && "HashMap"@.len() == 7 && "collections"@.len() == 11);
    assert("Vec"@.len() == 3 && "Box"@.len() == 3 && "Rc"@.len() == 2 && "Arc"@.len() == 3);
    assert("BTreeSet"@.len() == 8 && "HashSet"@.len() == 7 && "option"@.len() == 6);
    if module == "collections"@ && item == "BTreeMap"@ {
        assert(item != "Vec"@ && item != "Box"@ && item != "Rc"@ && item != "Arc"@ && item != "BTreeSet"@);
        assert(module != "option"@);
        assert(item != "HashSet"@);
    }
    if module == "collections"@ && item == "HashMap"@ {
        assert(item != "Vec"@ && item != "Box"@ && item != "Rc"@ && item != "Arc"@ && item != "BTreeSet"@);
        assert(module != "option"@);
        assert(item != "HashSet"@);
    }
}

/// Whether a type is the bare path naming `parameter`.
pub open spec fn names_parameter(ty: TypeIr, parameter: Seq<char>) -> bool {
    match ty.kind {
        TypeKindIr::Path(path) => path.qualified_self is None && path.segments@.len() == 1 && path.segments@[0].name@
            == parameter && path.segments@[0].arguments is Empty,
        _ => false,
    }
}

/// Whether a type is `root::collections::item<key, value>` for a map
/// `item` with a type key and the type `value`.
pub open spec fn is_map_of(ty: TypeIr, value: TypeIr) -> bool {
    match ty.kind {
        TypeKindIr::Path(path) => {
            &&& path.qualified_self is None
            &&& path.segments@.len() == 3
            &&& path.segments@[1].name@ == "collections"@
            &&& ((path.segments@[0].name@ == "std"@ || path.segments@[0].name@ == "alloc"@)
                && path.segments@[2].name@ == "BTreeMap"@) || (path.segments@[0].name@ == "std"@
                && path.segments@[2].name@ == "HashMap"@)
            &&& match path.segments@[2].arguments {
                PathArgumentsIr::AngleBracketed(items) => items@.len() == 2 && items@[0] is Type && items@[1]
                    == PathArgumentIr::Type(value),
                _ => false,
            }
        },
        _ => false,
    }
}

/// A type parameter used as the value type of a `BTreeMap` (from `std` or
/// `alloc`) or of `std`'s `HashMap` is reflected transparently through the
/// map, whatever the key type.
pub proof fn law_map_values_are_transparent(ty: TypeIr, value: TypeIr, parameter: Seq<char>)
    requires
        names_parameter(value, parameter),
        is_map_of(ty, value),
    ensures
        transparent_uses(ty, parameter),
{
    let path = ty.kind->Path_0;
    let names = segment_names(path.segments@);
    assert(names =~= seq![path.segments@[0].name@, path.segments@[1].name@, path.segments@[2].name@]);
    law_standard_container_arity(path.segments@[0].name@, path.segments@[1].name@, path.segments@[2].name@);
    assert(constructor_arity(names) == Some(2nat));
    let items = path.segments@[2].arguments->AngleBracketed_0@;
    assert(transparent_uses(value, parameter));
    assert(items.drop_first()[0] == PathArgumentIr::Type(value));
    assert(crate::reflected::leading_types_transparent(items.drop_first(), 1, parameter));
    assert(crate::reflected::leading_types_transparent(items, 2, parameter));
    assert(!crate::generics::is_parameter_type(ty, parameter));
}

// ---------------------------------------------------------------------------
// Marker bounds of thread-safe and panic-catching adapters
// ---------------------------------------------------------------------------

/// How many receiver bounds an adapter asserts: one, unless the receiver is
/// missing or is a typed receiver without a type of its own.
pub open spec fn receiver_bound_count(method: MethodIr, own_type: bool) -> int {
    match method.receiver {
        Some(receiver) => if own_type || receiver.kind != ReceiverKindIr::Typed {
            1
        } else {
            0
        },
        None => 0,
    }
}

proof fn lemma_bound_layout(
    method: MethodIr,
    receiver: Option<(MarkerIr, AssertedView)>,
    parameters: Seq<(MarkerIr, AssertedView)>,
    output: Option<(MarkerIr, AssertedView)>,
)
    ensures
        ({
            let all = optional_bound(receiver) + parameters + optional_bound(output);
            &&& all.len() == optional_bound(receiver).len() + parameters.len() + optional_bound(output).len()
            &&& receiver matches Some(bound) ==> all[0] == bound
            &&& forall|i: int| 0 <= i < parameters.len() ==> all[optional_bound(receiver).len() + i] == parameters[i]
        }),
{
}

/// A thread-safe adapter asserts first the bound its receiver needs: a
/// receiver with a type of its own must be `Send + Sync`; otherwise `self`
/// and `&mut self` need a `Send + Sync` target and `&self` a `Sync` one,
/// while another typed receiver asserts nothing.
pub proof fn law_thread_safe_receiver_bound(method: MethodIr, own_type: bool)
    requires
        method.receiver is Some,
    ensures
        receiver_bound_count(method, own_type) == 1 ==> thread_safe_bounds(method, own_type).len() > 0,
        own_type ==> thread_safe_bounds(method, own_type)[0] == (MarkerIr::SendSync, AssertedView::ReceiverType),
        !own_type && method.receiver->0.kind == ReceiverKindIr::Value ==> thread_safe_bounds(method, own_type)[0] == (
            MarkerIr::SendSync,
            AssertedView::Target,
        ),
        !own_type && method.receiver->0.kind == ReceiverKindIr::MutableReference ==> thread_safe_bounds(
            method,
            own_type,
        )[0] == (MarkerIr::SendSync, AssertedView::Target),
        !own_type && method.receiver->0.kind == ReceiverKindIr::SharedReference ==> thread_safe_bounds(
            method,
            own_type,
        )[0] == (MarkerIr::Sync, AssertedView::Target),
{
    lemma_bound_layout(
        method,
        crate::assertions::thread_safe_receiver(method.receiver->0, own_type),
        method.parameters@.map_values(|parameter: ParameterIr| thread_safe_parameter(parameter)),
        crate::assertions::thread_safe_output(method.return_type),
    );
}

/// The bound a thread-safe adapter asserts for each parameter, right after
/// the receiver's: a shared borrow needs a `Sync` referent, a mutable
/// borrow a `Send + Sync` referent and a value a `Send + Sync` type.
pub proof fn law_thread_safe_parameter_bound(method: MethodIr, own_type: bool, i: int)
    requires
        0 <= i < method.parameters@.len(),
    ensures
        thread_safe_bounds(method, own_type)[receiver_bound_count(method, own_type) + i] == match method.parameters@[i].ty.kind {
            TypeKindIr::Reference { mutable, element, .. } => if mutable {
                (MarkerIr::SendSync, AssertedView::Type(*element))
            } else {
                (MarkerIr::Sync, AssertedView::Type(*element))
            },
            _ => (MarkerIr::SendSync, AssertedView::Type(method.parameters@[i].ty)),
        },
{
    let receiver = match method.receiver {
        Some(receiver) => crate::assertions::thread_safe_receiver(receiver, own_type),
        None => None,
    };
    lemma_bound_layout(
        method,
        receiver,
        method.parameters@.map_values(|parameter: ParameterIr| thread_safe_parameter(parameter)),
        crate::assertions::thread_safe_output(method.return_type),
    );
    assert(optional_bound(receiver).len() == receiver_bound_count(method, own_type));
}

/// A panic-catching adapter asserts first the bound its receiver needs: a
/// receiver with a type of its own must be `UnwindSafe`; otherwise `self`
/// needs an `UnwindSafe` target, `&mut self` an `UnwindSafe` mutable borrow
/// of it and `&self` a `RefUnwindSafe` target.
pub proof fn law_catching_receiver_bound(method: MethodIr, own_type: bool)
    requires
        method.receiver is Some,
    ensures
        receiver_bound_count(method, own_type) == 1 ==> catching_bounds(method, own_type).len() > 0,
        own_type ==> catching_bounds(method, own_type)[0] == (MarkerIr::UnwindSafe, AssertedView::ReceiverType),
        !own_type && method.receiver->0.kind == ReceiverKindIr::Value ==> catching_bounds(method, own_type)[0] == (
            MarkerIr::UnwindSafe,
            AssertedView::Target,
        ),
        !own_type && method.receiver->0.kind == ReceiverKindIr::MutableReference ==> catching_bounds(
            method,
            own_type,
        )[0] == (MarkerIr::UnwindSafe, AssertedView::TargetMut),
        !own_type && method.receiver->0.kind == ReceiverKindIr::SharedReference ==> catching_bounds(
            method,
            own_type,
        )[0] == (MarkerIr::RefUnwindSafe, AssertedView::Target),
{
    lemma_bound_layout(
        method,
        crate::assertions::catching_receiver(method.receiver->0, own_type),
        method.parameters@.map_values(|parameter: ParameterIr| catching_parameter(parameter)),
        crate::assertions::catching_output(method.return_type),
    );
}

/// The bound a panic-catching adapter asserts for each parameter, right
/// after the receiver's: a shared borrow needs a `RefUnwindSafe` referent,
/// a mutable borrow must itself be `UnwindSafe`, and so must a value.
pub proof fn law_catching_parameter_bound(method: MethodIr, own_type: bool, i: int)
    requires
        0 <= i < method.parameters@.len(),
    ensures
        catching_bounds(method, own_type)[receiver_bound_count(method, own_type) + i] == match method.parameters@[i].ty.kind {
            TypeKindIr::Reference { mutable, element, .. } => if mutable {
                (MarkerIr::UnwindSafe, AssertedView::TypeMut(*element))
            } else {
                (MarkerIr::RefUnwindSafe, AssertedView::Type(*element))
            },
            _ => (MarkerIr::UnwindSafe, AssertedView::Type(method.parameters@[i].ty)),
        },
{
    let receiver = match method.receiver {
        Some(receiver) => crate::assertions::catching_receiver(receiver, own_type),
        None => None,
    };
    lemma_bound_layout(
        method,
        receiver,
        method.parameters@.map_values(|parameter: ParameterIr| catching_parameter(parameter)),
        crate::assertions::catching_output(method.return_type),
    );
    assert(optional_bound(receiver).len() == receiver_bound_count(method, own_type));
}

// ---------------------------------------------------------------------------
// What keeps a method from being invoked is reported
// ---------------------------------------------------------------------------

/// Each listed obstacle keeps a method from getting an executable adapter
/// and is named among its reasons: an unsupported receiver, a generic
/// parameter, `unsafe`, a foreign ABI, variadic parameters, and a borrow
/// returned from an `async` method.
pub proof fn law_obstacles_are_reported(
    method: MethodIr,
    receiver: Option<ReceiverPlan>,
    default_method: bool,
    has_unproven_associated_type: bool,
)
    ensures
        receiver matches Some(ReceiverPlan::Unsupported) ==> !executable(
            method,
            receiver,
            default_method,
            has_unproven_associated_type,
        ) && reasons_of(method, receiver).contains(UnavailableReasonPlan::UnsupportedReceiver),
        method.generics.params@.len() > 0 ==> !executable(method, receiver, default_method, has_unproven_associated_type)
            && reasons_of(method, receiver).contains(UnavailableReasonPlan::UnspecializedGeneric),
        method.qualifiers.is_unsafe ==> !executable(method, receiver, default_method, has_unproven_associated_type)
            && reasons_of(method, receiver).contains(UnavailableReasonPlan::UnsafeMethod),
        method.qualifiers.abi is Some ==> !executable(method, receiver, default_method, has_unproven_associated_type)
            && reasons_of(method, receiver).contains(UnavailableReasonPlan::UnsupportedAbi),
        method.qualifiers.is_variadic ==> !executable(method, receiver, default_method, has_unproven_associated_type)
            && reasons_of(method, receiver).contains(UnavailableReasonPlan::Variadic),
        method.qualifiers.is_async && (method.return_type matches ReturnTypeIr::Type(ty) && ty.kind is Reference)
            ==> !executable(method, receiver, default_method, has_unproven_associated_type) && reasons_of(
            method,
            receiver,
        ).contains(UnavailableReasonPlan::UnsupportedBorrowedReturn),
{
    let r1 = reason_if(receiver matches Some(ReceiverPlan::Unsupported), UnavailableReasonPlan::UnsupportedReceiver);
    let r2 = reason_if(method.generics.params@.len() > 0, UnavailableReasonPlan::UnspecializedGeneric);
    let r3 = reason_if(method.qualifiers.is_unsafe, UnavailableReasonPlan::UnsafeMethod);
    let r4 = reason_if(method.qualifiers.abi is Some, UnavailableReasonPlan::UnsupportedAbi);
    let r5 = reason_if(method.qualifiers.is_variadic, UnavailableReasonPlan::Variadic);
    let r6 = reason_if(
        !borrow_supported(method) || (method.qualifiers.is_async && crate::invocation::borrow_return(method.return_type)),
        UnavailableReasonPlan::UnsupportedBorrowedReturn,
    );
    let r7 = reason_if(output_of(method.return_type) == OutputPlan::Opaque, UnavailableReasonPlan::OpaqueReturn);
    let r8 = reason_if(
        exists|k: int|
            0 <= k < method.parameters@.len() && crate::invocation::unsized_parameter(#[trigger] method.parameters@[k].ty),
        UnavailableReasonPlan::UnsupportedUnsizedValue,
    );
    let r9 = reason_if(crate::invocation::disabled_by_policy(method), UnavailableReasonPlan::DisabledByPolicy);
    let listed = r1 + r2 + r3 + r4 + r5 + r6 + r7 + r8 + r9;
    assert(reasons_of(method, receiver) == if listed.len() == 0 {
        seq![UnavailableReasonPlan::DisabledByPolicy]
    } else {
        listed
    });
    if receiver matches Some(ReceiverPlan::Unsupported) {
        let x = UnavailableReasonPlan::UnsupportedReceiver;
        assert(r1[0] == x);
        lemma_listed_contains(r1, r2, r3, r4, r5, r6, r7, r8, r9, x);
    }
    if method.generics.params@.len() > 0 {
        let x = UnavailableReasonPlan::UnspecializedGeneric;
        assert(r2[0] == x);
        lemma_listed_contains(r1, r2, r3, r4, r5, r6, r7, r8, r9, x);
    }
    if method.qualifiers.is_unsafe {
        let x = UnavailableReasonPlan::UnsafeMethod;
        assert(r3[0] == x);
        lemma_listed_contains(r1, r2, r3, r4, r5, r6, r7, r8, r9, x);
    }
    if method.qualifiers.abi is Some {
        let x = UnavailableReasonPlan::UnsupportedAbi;
        assert(r4[0] == x);
        lemma_listed_contains(r1, r2, r3, r4, r5, r6, r7, r8, r9, x);
    }
    if method.qualifiers.is_variadic {
        let x = UnavailableReasonPlan::Variadic;
        assert(r5[0] == x);
        lemma_listed_contains(r1, r2, r3, r4, r5, r6, r7, r8, r9, x);
    }
    if method.qualifiers.is_async && (method.return_type matches ReturnTypeIr::Type(ty) && ty.kind is Reference) {
        let x = UnavailableReasonPlan::UnsupportedBorrowedReturn;
        assert(r6[0] == x);
        lemma_listed_contains(r1, r2, r3, r4, r5, r6, r7, r8, r9, x);
    }
}

proof fn lemma_listed_contains<A>(
    r1: Seq<A>,
    r2: Seq<A>,
    r3: Seq<A>,
    r4: Seq<A>,
    r5: Seq<A>,
    r6: Seq<A>,
    r7: Seq<A>,
    r8: Seq<A>,
    r9: Seq<A>,
    x: A,
)
    requires
        r1.contains(x) || r2.contains(x) || r3.contains(x) || r4.contains(x) || r5.contains(x) || r6.contains(x),
    ensures
        (r1 + r2 + r3 + r4 + r5 + r6 + r7 + r8 + r9).contains(x),
        (r1 + r2 + r3 + r4 + r5 + r6 + r7 + r8 + r9).len() > 0,
{
    lemma_contains_in_sum(r1, r2, x);
    lemma_contains_in_sum(r1 + r2, r3, x);
    lemma_contains_in_sum(r1 + r2 + r3, r4, x);
    lemma_contains_in_sum(r1 + r2 + r3 + r4, r5, x);
    lemma_contains_in_sum(r1 + r2 + r3 + r4 + r5, r6, x);
    lemma_contains_in_sum(r1 + r2 + r3 + r4 + r5 + r6, r7, x);
    lemma_contains_in_sum(r1 + r2 + r3 + r4 + r5 + r6 + r7, r8, x);
    lemma_contains_in_sum(r1 + r2 + r3 + r4 + r5 + r6 + r7 + r8, r9, x);
}

// ---------------------------------------------------------------------------
// More of the same families
// ---------------------------------------------------------------------------

/// A helper that may appear once, repeated in one list, is rejected at each
/// repetition.
pub proof fn law_repeated_helper_is_rejected(attributes: Seq<HelperAttributeIr>, earlier: int, later: int)
    requires
        0 <= earlier < later < attributes.len(),
        attributes[earlier].name == attributes[later].name,
        attributes[later].name != HelperName::Specialize,
        attributes[later].name != HelperName::ExternalTrait,
    ensures
        attribute_list_diagnostics(attributes).contains(
            (
                attributes[later].span,
                "duplicate `"@ + helper_spelling(attributes[later].name) + "` reflection helper"@,
            ),
        ),
{
    let item = (attributes[later].span, "duplicate `"@ + helper_spelling(attributes[later].name) + "` reflection helper"@);
    let f = |i: int| crate::validate::helper_diagnostics(attributes, i);
    let own = crate::validate::helper_diagnostics(attributes, later);
    assert(crate::validate::repeats_earlier(attributes, later));
    let first = crate::diagnostics::report_if(
        !crate::helper::helper_allowed(attributes[later].name, attributes[later].target),
        attributes[later].span,
        crate::diagnostics::msg_not_valid_on(attributes[later].name, attributes[later].target),
    );
    let second = crate::diagnostics::report_if(
        true,
        attributes[later].span,
        crate::diagnostics::msg_duplicate_helper(attributes[later].name),
    );
    assert(second[0] == item);
    lemma_contains_in_sum(first, second, item);
    lemma_contains_in_sum(first + second, crate::validate::capability_diagnostics(attributes[later].value), item);
    assert(own.contains(item));
    lemma_gather_contains(attributes.len(), f, later, item);
    lemma_contains_in_sum(crate::validate::gather(attributes.len(), f), policy_conflicts(attributes), item);
}

proof fn lemma_gather_contains(
    count: nat,
    item: spec_fn(int) -> Seq<DiagnosticView>,
    index: int,
    diagnostic: DiagnosticView,
)
    requires
        0 <= index < count,
        item(index).contains(diagnostic),
    ensures
        crate::validate::gather(count, item).contains(diagnostic),
    decreases count,
{
    let before = crate::validate::gather((count - 1) as nat, item);
    if index < count - 1 {
        lemma_gather_contains((count - 1) as nat, item, index, diagnostic);
    }
    lemma_contains_in_sum(before, item(count - 1), diagnostic);
}

/// A trait without the `dyn_compatible` helper is not provably dyn
/// compatible when one of its methods cannot be dispatched, when it declares
/// an associated const, or when it requires `Self: Sized` itself.
pub proof fn law_dyn_compatibility_obstacles(declaration: TraitDeclarationIr, i: int)
    requires
        !has_named(declaration.attributes@, HelperName::DynCompatible),
    ensures
        0 <= i < declaration.methods@.len() && !method_dispatchable(declaration.methods@[i]) ==> !provably_dyn_compatible(
            declaration,
        ),
        declaration.associated_consts@.len() > 0 ==> !provably_dyn_compatible(declaration),
        requires_sized_self(declaration.generics.where_predicates@) ==> !provably_dyn_compatible(declaration),
{
}

/// A method that requires `Self: Sized` is left out of the vtable and never
/// keeps its trait from being dyn compatible.
pub proof fn law_sized_self_methods_are_dispatchable(method: MethodIr)
    requires
        requires_sized_self(method.generics.where_predicates@),
    ensures
        method_dispatchable(method),
{
}

/// Whether a type is a standard single-argument container
/// (`Vec`, `Box`, `Rc`, `Arc`, `BTreeSet` from `std` or `alloc`, `Option`
/// from `std` or `core`, `std`'s `HashSet`) applied to exactly `argument`.
pub open spec fn is_container_of(ty: TypeIr, argument: TypeIr) -> bool {
    match ty.kind {
        TypeKindIr::Path(path) => {
            let root = path.segments@[0].name@;
            let module = path.segments@[1].name@;
            let item = path.segments@[2].name@;
            &&& path.qualified_self is None
            &&& path.segments@.len() == 3
            &&& ((root == "std"@ || root == "alloc"@) && ((module == "vec"@ && item == "Vec"@) || (module == "boxed"@
                && item == "Box"@) || (module == "rc"@ && item == "Rc"@) || (module == "sync"@ && item == "Arc"@) || (
            module == "collections"@ && item == "BTreeSet"@))) || ((root == "std"@ || root == "core"@) && module
                == "option"@ && item == "Option"@) || (root == "std"@ && module == "collections"@ && item
                == "HashSet"@)
            &&& match path.segments@[2].arguments {
                PathArgumentsIr::AngleBracketed(items) => items@.len() == 1 && items@[0] == PathArgumentIr::Type(
                    argument,
                ),
                _ => false,
            }
        },
        _ => false,
    }
}

/// A type parameter held by a standard single-argument container is
/// reflected transparently through it.
pub proof fn law_container_elements_are_transparent(ty: TypeIr, element: TypeIr, parameter: Seq<char>)
    requires
        names_parameter(element, parameter),
        is_container_of(ty, element),
    ensures
        transparent_uses(ty, parameter),
{
    let path = ty.kind->Path_0;
    let names = segment_names(path.segments@);
    assert(names =~= seq![path.segments@[0].name@, path.segments@[1].name@, path.segments@[2].name@]);
    law_standard_container_arity(path.segments@[0].name@, path.segments@[1].name@, path.segments@[2].name@);
    assert(constructor_arity(names) == Some(1nat));
    let items = path.segments@[2].arguments->AngleBracketed_0@;
    assert(transparent_uses(element, parameter));
    assert(crate::reflected::leading_types_transparent(items, 1, parameter));
    assert(!crate::generics::is_parameter_type(ty, parameter));
}

/// A thread-safe adapter asserts `Send + Sync` of a returned value last, and
/// asserts nothing for a returned borrow, `!` or no value; a panic-catching
/// one asserts `UnwindSafe` of a returned value, `RefUnwindSafe` of a shared
/// borrow's referent and `UnwindSafe` of a returned mutable borrow.
pub proof fn law_output_bounds(method: MethodIr, own_type: bool)
    ensures
        ({
            let count = receiver_bound_count(method, own_type) + method.parameters@.len();
            let thread_safe = thread_safe_bounds(method, own_type);
            let catching = catching_bounds(method, own_type);
            &&& match method.return_type {
                ReturnTypeIr::Unit => thread_safe.len() == count && catching.len() == count,
                ReturnTypeIr::Type(ty) => match ty.kind {
                    TypeKindIr::Never => thread_safe.len() == count && catching.len() == count,
                    TypeKindIr::Reference { mutable, element, .. } => {
                        &&& thread_safe.len() == count
                        &&& catching.len() == count + 1
                        &&& catching[count] == if mutable {
                            (MarkerIr::UnwindSafe, AssertedView::TypeMut(*element))
                        } else {
                            (MarkerIr::RefUnwindSafe, AssertedView::Type(*element))
                        }
                    },
                    _ => {
                        &&& thread_safe.len() == count + 1
                        &&& thread_safe[count] == (MarkerIr::SendSync, AssertedView::Type(ty))
                        &&& catching.len() == count + 1
                        &&& catching[count] == (MarkerIr::UnwindSafe, AssertedView::Type(ty))
                    },
                },
            }
        }),
{
    let thread_receiver = match method.receiver {
        Some(receiver) => crate::assertions::thread_safe_receiver(receiver, own_type),
        None => None,
    };
    let catching_receiver = match method.receiver {
        Some(receiver) => crate::assertions::catching_receiver(receiver, own_type),
        None => None,
    };
    assert(optional_bound(thread_receiver).len() == receiver_bound_count(method, own_type));
    assert(optional_bound(catching_receiver).len() == receiver_bound_count(method, own_type));
    let a = optional_bound(thread_receiver) + method.parameters@.map_values(
        |parameter: ParameterIr| thread_safe_parameter(parameter),
    );
    let b = optional_bound(catching_receiver) + method.parameters@.map_values(
        |parameter: ParameterIr| catching_parameter(parameter),
    );
    let to = optional_bound(crate::assertions::thread_safe_output(method.return_type));
    let co = optional_bound(crate::assertions::catching_output(method.return_type));
    assert(thread_safe_bounds(method, own_type) == a + to);
    assert(catching_bounds(method, own_type) == b + co);
    if to.len() == 1 {
        assert((a + to)[a.len() as int] == to[0]);
    }
    if co.len() == 1 {
        assert((b + co)[b.len() as int] == co[0]);
    }
}

} // verus!

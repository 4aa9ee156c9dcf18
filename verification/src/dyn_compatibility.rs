//! Conservative, syntactic dyn-compatibility analysis of reflected traits.
//!
//! A trait is reported dyn compatible only when the declaration alone proves
//! that a bare `'static` trait object exists, or when the user asserts it with
//! the `dyn_compatible` helper.

use vstd::prelude::*;

use crate::helper::HelperName;
use crate::ir::AssociatedTypeIr;
use crate::ir::GenericBoundIr;
use crate::ir::GenericKindIr;
use crate::ir::MethodIr;
use crate::ir::ParameterIr;
use crate::ir::PathArgumentIr;
use crate::ir::PathArgumentsIr;
use crate::ir::PathIr;
use crate::ir::ReceiverKindIr;
use crate::ir::ReturnTypeIr;
use crate::ir::TokenTreeIr;
use crate::ir::TraitBoundModifierIr;
use crate::ir::TraitDeclarationIr;
use crate::ir::TypeIr;
use crate::ir::TypeKindIr;
use crate::ir::WherePredicateIr;
use crate::text::str_eq;
use crate::validate::has_named;
use crate::validate::is_owner_prefix;

verus! {

// ---------------------------------------------------------------------------
// Token scans
// ---------------------------------------------------------------------------

/// Whether the tokens from position `start` on contain the identifier
/// `expected`, searching inside groups.
pub open spec fn has_ident_from(tokens: Seq<TokenTreeIr>, start: nat, expected: Seq<char>) -> bool
    decreases tokens, tokens.len() - start,
{
    if start >= tokens.len() {
        false
    } else {
        (match tokens[start as int] {
            TokenTreeIr::Ident { name, .. } => name@ == expected,
            TokenTreeIr::Group { tokens: inner, .. } => has_ident_from(inner@, 0, expected),
            _ => false,
        }) || has_ident_from(tokens, start + 1, expected)
    }
}

/// Whether a token sequence contains the standalone identifier `expected`.
pub open spec fn has_ident(tokens: Seq<TokenTreeIr>, expected: Seq<char>) -> bool {
    has_ident_from(tokens, 0, expected)
}

/// Returns whether a token sequence contains one standalone identifier.
pub fn tokens_contain_ident(tokens: &Vec<TokenTreeIr>, expected: &str) -> (found: bool)
    ensures
        found == has_ident(tokens@, expected@),
    decreases tokens,
{
    let mut index = tokens.len();
    let mut found = false;
    while index > 0
        invariant
            index <= tokens.len(),
            found == has_ident_from(tokens@, index as nat, expected@),
        decreases index,
    {
        index -= 1;
        let here = match &tokens[index] {
            TokenTreeIr::Ident { name, .. } => str_eq(name.as_str(), expected),
            TokenTreeIr::Group { tokens: inner, .. } => tokens_contain_ident(inner, expected),
            _ => false,
        };
        found = here || found;
    }
    found
}

/// Returns whether a token sequence contains the standalone `Self` type name.
pub fn tokens_contain_self(tokens: &Vec<TokenTreeIr>) -> (found: bool)
    ensures
        found == has_ident(tokens@, "Self"@),
{
    tokens_contain_ident(tokens, "Self")
}

/// Whether `Self` at position `index` is followed by `::Name`, the
/// projection of an associated item.
pub open spec fn projected(tokens: Seq<TokenTreeIr>, index: int) -> bool {
    &&& index + 4 <= tokens.len()
    &&& tokens[index + 1] matches TokenTreeIr::Punct { ch: first, .. } && first == ':'
    &&& tokens[index + 2] matches TokenTreeIr::Punct { ch: second, .. } && second == ':'
    &&& tokens[index + 3] is Ident
}

/// Whether `Self` occurs from position `start` on outside an associated-item
/// projection, searching inside groups.
pub open spec fn unprojected_self_from(tokens: Seq<TokenTreeIr>, start: nat) -> bool
    decreases tokens, tokens.len() - start,
{
    if start >= tokens.len() {
        false
    } else {
        (match tokens[start as int] {
            TokenTreeIr::Ident { name, .. } => name@ == "Self"@ && !projected(tokens, start as int),
            TokenTreeIr::Group { tokens: inner, .. } => unprojected_self_from(inner@, 0),
            _ => false,
        }) || unprojected_self_from(tokens, start + 1)
    }
}

/// Whether `Self` occurs outside an associated-type projection.
pub open spec fn unprojected_self(tokens: Seq<TokenTreeIr>) -> bool {
    unprojected_self_from(tokens, 0)
}

fn is_projection(tokens: &Vec<TokenTreeIr>, index: usize) -> (result: bool)
    requires
        index < tokens@.len(),
    ensures
        result == projected(tokens@, index as int),
{
    if tokens.len() - index < 4 {
        return false;
    }
    let first = match &tokens[index + 1] {
        TokenTreeIr::Punct { ch, .. } => *ch == ':',
        _ => false,
    };
    let second = match &tokens[index + 2] {
        TokenTreeIr::Punct { ch, .. } => *ch == ':',
        _ => false,
    };
    let third = match &tokens[index + 3] {
        TokenTreeIr::Ident { .. } => true,
        _ => false,
    };
    first && second && third
}

/// Returns whether `Self` occurs outside an associated-type projection.
pub fn tokens_contain_unprojected_self(tokens: &Vec<TokenTreeIr>) -> (found: bool)
    ensures
        found == unprojected_self(tokens@),
    decreases tokens,
{
    let mut index = tokens.len();
    let mut found = false;
    while index > 0
        invariant
            index <= tokens.len(),
            found == unprojected_self_from(tokens@, index as nat),
        decreases index,
    {
        index -= 1;
        let here = match &tokens[index] {
            TokenTreeIr::Ident { name, .. } => str_eq(name.as_str(), "Self") && !is_projection(tokens, index),
            TokenTreeIr::Group { tokens: inner, .. } => tokens_contain_unprojected_self(inner),
            _ => false,
        };
        found = here || found;
    }
    found
}

// ---------------------------------------------------------------------------
// Paths and where clauses
// ---------------------------------------------------------------------------

/// Whether a path is exactly the identifier `name`: no leading `::`, no
/// qualified self, one segment without arguments.
pub open spec fn path_is_ident(path: PathIr, name: Seq<char>) -> bool {
    &&& !path.leading_colon
    &&& path.qualified_self is None
    &&& path.segments@.len() == 1
    &&& path.segments@[0].name@ == name
    &&& path.segments@[0].arguments is Empty
}

fn is_ident_path(path: &PathIr, name: &str) -> (result: bool)
    ensures
        result == path_is_ident(*path, name@),
{
    !path.leading_colon && path.qualified_self.is_none() && path.segments.len() == 1 && str_eq(
        path.segments[0].name.as_str(),
        name,
    ) && match &path.segments[0].arguments {
        PathArgumentsIr::Empty => true,
        _ => false,
    }
}

/// Whether a bound is the unmodified trait bound `Sized`.
pub open spec fn is_sized_bound(bound: GenericBoundIr) -> bool {
    match bound {
        GenericBoundIr::Trait { path, modifier, .. } => modifier == TraitBoundModifierIr::Plain && path_is_ident(
            path,
            "Sized"@,
        ),
        _ => false,
    }
}

/// Whether a where predicate is a direct `Self: Sized` predicate.
pub open spec fn is_sized_self_predicate(predicate: WherePredicateIr) -> bool {
    match predicate {
        WherePredicateIr::Type { bounded_type, bounds, .. } => {
            &&& (match bounded_type.kind {
                TypeKindIr::Path(path) => path_is_ident(path, "Self"@),
                _ => false,
            })
            &&& exists|b: int| 0 <= b < bounds@.len() && is_sized_bound(#[trigger] bounds@[b])
        },
        _ => false,
    }
}

/// Whether a where clause contains a direct `Self: Sized` predicate.
pub open spec fn requires_sized_self(predicates: Seq<WherePredicateIr>) -> bool {
    exists|p: int| 0 <= p < predicates.len() && is_sized_self_predicate(#[trigger] predicates[p])
}

fn sized_self_predicate(predicate: &WherePredicateIr) -> (result: bool)
    ensures
        result == is_sized_self_predicate(*predicate),
{
    match predicate {
        WherePredicateIr::Type { bounded_type, bounds, .. } => {
            let self_type = match &bounded_type.kind {
                TypeKindIr::Path(path) => is_ident_path(path, "Self"),
                _ => false,
            };
            if !self_type {
                return false;
            }
            let mut index: usize = 0;
            while index < bounds.len()
                invariant
                    index <= bounds@.len(),
                    forall|b: int| 0 <= b < index ==> !is_sized_bound(#[trigger] bounds@[b]),
                    *predicate matches WherePredicateIr::Type { bounded_type: t, bounds: b, .. } && b == *bounds
                        && (match t.kind {
                        TypeKindIr::Path(path) => path_is_ident(path, "Self"@),
                        _ => false,
                    }),
                decreases bounds.len() - index,
            {
                let sized = match &bounds[index] {
                    GenericBoundIr::Trait { path, modifier, .. } => *modifier == TraitBoundModifierIr::Plain
                        && is_ident_path(path, "Sized"),
                    _ => false,
                };
                if sized {
                    assert(is_sized_bound(bounds@[index as int]));
                    return true;
                }
                index += 1;
            }
            false
        },
        _ => false,
    }
}

/// Returns whether a where clause contains a direct `Self: Sized` predicate.
pub fn where_clause_requires_sized_self(predicates: &Vec<WherePredicateIr>) -> (result: bool)
    ensures
        result == requires_sized_self(predicates@),
{
    let mut index: usize = 0;
    while index < predicates.len()
        invariant
            index <= predicates@.len(),
            forall|p: int| 0 <= p < index ==> !is_sized_self_predicate(#[trigger] predicates@[p]),
        decreases predicates.len() - index,
    {
        if sized_self_predicate(&predicates[index]) {
            return true;
        }
        index += 1;
    }
    false
}

// ---------------------------------------------------------------------------
// Supertrait bounds
// ---------------------------------------------------------------------------

/// Whether every segment of a path is free of generic arguments.
pub open spec fn plain_segments(path: PathIr) -> bool {
    forall|i: int| 0 <= i < path.segments@.len() ==> (#[trigger] path.segments@[i]).arguments is Empty
}

/// Whether a path spells `Sized`, `std::marker::Sized` or
/// `core::marker::Sized`, the latter two with or without a leading `::`.
pub open spec fn names_sized(path: PathIr) -> bool {
    &&& path.qualified_self is None
    &&& plain_segments(path)
    &&& {
        ||| (!path.leading_colon && path.segments@.len() == 1 && path.segments@[0].name@ == "Sized"@)
        ||| (path.segments@.len() == 3 && (path.segments@[0].name@ == "std"@ || path.segments@[0].name@ == "core"@)
            && path.segments@[1].name@ == "marker"@ && path.segments@[2].name@ == "Sized"@)
    }
}

/// Whether a path spells one of the standard traits known to preserve dyn
/// compatibility: `fmt::Debug`, `fmt::Display`, `marker::Send`,
/// `marker::Sync` or `marker::Unpin` under `std` or `core`, with or without a
/// leading `::`.
pub open spec fn names_known_dyn_trait(path: PathIr) -> bool {
    &&& path.qualified_self is None
    &&& plain_segments(path)
    &&& path.segments@.len() == 3
    &&& (path.segments@[0].name@ == "std"@ || path.segments@[0].name@ == "core"@)
    &&& {
        let module = path.segments@[1].name@;
        let item = path.segments@[2].name@;
        ||| (module == "fmt"@ && (item == "Debug"@ || item == "Display"@))
        ||| (module == "marker"@ && (item == "Send"@ || item == "Sync"@ || item == "Unpin"@))
    }
}

/// Whether one supertrait bound is known locally to preserve dyn
/// compatibility.
pub open spec fn known_dyn_compatible_bound(bound: GenericBoundIr) -> bool {
    match bound {
        GenericBoundIr::Lifetime(_) => true,
        GenericBoundIr::Trait { path, modifier, .. } => {
            &&& modifier == TraitBoundModifierIr::Plain
            &&& !has_ident(path.tokens@, "Self"@)
            &&& !names_sized(path)
            &&& names_known_dyn_trait(path)
        },
        GenericBoundIr::Other(_) => false,
    }
}

fn segments_plain(path: &PathIr) -> (plain: bool)
    ensures
        plain == plain_segments(*path),
{
    let mut index: usize = 0;
    while index < path.segments.len()
        invariant
            index <= path.segments@.len(),
            forall|i: int| 0 <= i < index ==> (#[trigger] path.segments@[i]).arguments is Empty,
        decreases path.segments.len() - index,
    {
        match &path.segments[index].arguments {
            PathArgumentsIr::Empty => {},
            _ => {
                return false;
            },
        }
        index += 1;
    }
    true
}

fn path_names_sized(path: &PathIr) -> (result: bool)
    ensures
        result == names_sized(*path),
{
    if path.qualified_self.is_some() || !segments_plain(path) {
        return false;
    }
    if !path.leading_colon && path.segments.len() == 1 && str_eq(path.segments[0].name.as_str(), "Sized") {
        return true;
    }
    path.segments.len() == 3 && (str_eq(path.segments[0].name.as_str(), "std") || str_eq(
        path.segments[0].name.as_str(),
        "core",
    )) && str_eq(path.segments[1].name.as_str(), "marker") && str_eq(path.segments[2].name.as_str(), "Sized")
}

fn path_names_known_dyn_trait(path: &PathIr) -> (result: bool)
    ensures
        result == names_known_dyn_trait(*path),
{
    if path.qualified_self.is_some() || !segments_plain(path) || path.segments.len() != 3 {
        return false;
    }
    let root = path.segments[0].name.as_str();
    let module = path.segments[1].name.as_str();
    let item = path.segments[2].name.as_str();
    if !(str_eq(root, "std") || str_eq(root, "core")) {
        return false;
    }
    (str_eq(module, "fmt") && (str_eq(item, "Debug") || str_eq(item, "Display"))) || (str_eq(module, "marker") && (
    str_eq(item, "Send") || str_eq(item, "Sync") || str_eq(item, "Unpin")))
}

/// Returns whether one supertrait bound is known locally to preserve dyn
/// compatibility.
pub fn is_known_dyn_compatible_bound(bound: &GenericBoundIr) -> (known: bool)
    ensures
        known == known_dyn_compatible_bound(*bound),
{
    match bound {
        GenericBoundIr::Lifetime(_) => true,
        GenericBoundIr::Trait { path, modifier, .. } => {
            if *modifier != TraitBoundModifierIr::Plain || tokens_contain_self(&path.tokens) {
                return false;
            }
            if path_names_sized(path) {
                return false;
            }
            path_names_known_dyn_trait(path)
        },
        GenericBoundIr::Other(_) => false,
    }
}

// ---------------------------------------------------------------------------
// Methods and receivers
// ---------------------------------------------------------------------------

/// Whether an explicit receiver type is `Self`, a reference to a dispatchable
/// receiver, or `Box`, `Rc`, `Arc` or `Pin` applied to exactly one
/// dispatchable receiver type.
pub open spec fn dispatchable_receiver_type(ty: TypeIr) -> bool
    decreases ty,
{
    match ty.kind {
        TypeKindIr::Path(path) => if path.qualified_self is Some {
            false
        } else if path_is_ident(path, "Self"@) {
            true
        } else if path.segments@.len() == 0 {
            false
        } else {
            let segment = path.segments@[path.segments@.len() - 1];
            &&& (segment.name@ == "Box"@ || segment.name@ == "Rc"@ || segment.name@ == "Arc"@ || segment.name@
                == "Pin"@)
            &&& match segment.arguments {
                PathArgumentsIr::AngleBracketed(items) => single_dispatchable(items@, 0, None),
                _ => false,
            }
        },
        TypeKindIr::Reference { element, .. } => dispatchable_receiver_type(*element),
        _ => false,
    }
}

/// Scans arguments from `start` on: the list must hold exactly one type
/// argument, and it must be a dispatchable receiver type; `found` records
/// whether the type argument was already seen and was dispatchable.
pub open spec fn single_dispatchable(items: Seq<PathArgumentIr>, start: nat, found: Option<bool>) -> bool
    decreases items, items.len() - start,
{
    if start >= items.len() {
        found == Some(true)
    } else {
        match items[start as int] {
            PathArgumentIr::Type(ty) => match found {
                Some(_) => false,
                None => single_dispatchable(items, start + 1, Some(dispatchable_receiver_type(ty))),
            },
            _ => single_dispatchable(items, start + 1, found),
        }
    }
}

/// Returns whether an explicit receiver type is dyn dispatchable.
pub fn receiver_type_is_dyn_dispatchable(ty: &TypeIr) -> (dispatchable: bool)
    ensures
        dispatchable == dispatchable_receiver_type(*ty),
    decreases ty,
{
    match &ty.kind {
        TypeKindIr::Path(path) => {
            if path.qualified_self.is_some() {
                return false;
            }
            if is_ident_path(path, "Self") {
                return true;
            }
            if path.segments.len() == 0 {
                return false;
            }
            let segment = &path.segments[path.segments.len() - 1];
            let name = segment.name.as_str();
            if !(str_eq(name, "Box") || str_eq(name, "Rc") || str_eq(name, "Arc") || str_eq(name, "Pin")) {
                return false;
            }
            match &segment.arguments {
                PathArgumentsIr::AngleBracketed(items) => single_dispatchable_exec(items),
                _ => false,
            }
        },
        TypeKindIr::Reference { element, .. } => receiver_type_is_dyn_dispatchable(element),
        _ => false,
    }
}

fn single_dispatchable_exec(items: &Vec<PathArgumentIr>) -> (result: bool)
    ensures
        result == single_dispatchable(items@, 0, None),
    decreases items,
{
    let mut index: usize = 0;
    let mut found: Option<bool> = None;
    while index < items.len()
        invariant
            index <= items@.len(),
            single_dispatchable(items@, 0, None) == single_dispatchable(items@, index as nat, found),
        decreases items.len() - index,
    {
        if let PathArgumentIr::Type(ty) = &items[index] {
            if found.is_some() {
                return false;
            }
            found = Some(receiver_type_is_dyn_dispatchable(ty));
        }
        index += 1;
    }
    match found {
        Some(dispatchable) => dispatchable,
        None => false,
    }
}

/// Whether a parameter's declaration mentions neither an unprojected `Self`
/// nor `impl`.
pub open spec fn parameter_dispatchable(parameter: ParameterIr) -> bool {
    !unprojected_self(parameter.declaration@) && !has_ident(parameter.declaration@, "impl"@)
}

/// The tokens of a return declaration's type.
pub open spec fn return_tokens(return_type: ReturnTypeIr) -> Seq<TokenTreeIr> {
    match return_type {
        ReturnTypeIr::Type(ty) => ty.tokens@,
        ReturnTypeIr::Unit => Seq::empty(),
    }
}

/// Whether one trait method is dispatchable through a trait object, or is
/// excluded from the vtable by `Self: Sized`.
pub open spec fn method_dispatchable(method: MethodIr) -> bool {
    if requires_sized_self(method.generics.where_predicates@) {
        true
    } else {
        &&& !method.qualifiers.is_async
        &&& forall|i: int|
            0 <= i < method.generics.params@.len() ==> (#[trigger] method.generics.params@[i]).kind
                == GenericKindIr::Lifetime
        &&& !unprojected_self(method.generics.where_clause@)
        &&& match method.receiver {
            Some(receiver) => receiver.kind != ReceiverKindIr::Typed || dispatchable_receiver_type(receiver.ty),
            None => false,
        }
        &&& forall|i: int|
            0 <= i < method.parameters@.len() ==> parameter_dispatchable(#[trigger] method.parameters@[i])
        &&& !unprojected_self(return_tokens(method.return_type))
        &&& !has_ident(return_tokens(method.return_type), "impl"@)
    }
}

fn parameters_dispatchable(parameters: &Vec<ParameterIr>) -> (result: bool)
    ensures
        result == forall|i: int| 0 <= i < parameters@.len() ==> parameter_dispatchable(#[trigger] parameters@[i]),
{
    let mut index: usize = 0;
    while index < parameters.len()
        invariant
            index <= parameters@.len(),
            forall|i: int| 0 <= i < index ==> parameter_dispatchable(#[trigger] parameters@[i]),
        decreases parameters.len() - index,
    {
        let declaration = &parameters[index].declaration;
        if tokens_contain_unprojected_self(declaration) || tokens_contain_ident(declaration, "impl") {
            assert(!parameter_dispatchable(parameters@[index as int]));
            return false;
        }
        index += 1;
    }
    true
}

/// Returns whether one method is dispatchable through a trait object or is
/// explicitly excluded from the vtable by `Self: Sized`.
pub fn method_is_dyn_dispatchable(method: &MethodIr) -> (dispatchable: bool)
    ensures
        dispatchable == method_dispatchable(*method),
{
    if where_clause_requires_sized_self(&method.generics.where_predicates) {
        return true;
    }
    if method.qualifiers.is_async {
        return false;
    }
    let mut index: usize = 0;
    while index < method.generics.params.len()
        invariant
            index <= method.generics.params@.len(),
            forall|i: int| 0 <= i < index ==> (#[trigger] method.generics.params@[i]).kind == GenericKindIr::Lifetime,
            !requires_sized_self(method.generics.where_predicates@),
            !method.qualifiers.is_async,
        decreases method.generics.params.len() - index,
    {
        if method.generics.params[index].kind != GenericKindIr::Lifetime {
            assert((method.generics.params@[index as int]).kind != GenericKindIr::Lifetime);
            return false;
        }
        index += 1;
    }
    if tokens_contain_unprojected_self(&method.generics.where_clause) {
        return false;
    }
    let receiver_ok = match &method.receiver {
        Some(receiver) => receiver.kind != ReceiverKindIr::Typed || receiver_type_is_dyn_dispatchable(&receiver.ty),
        None => false,
    };
    if !receiver_ok {
        return false;
    }
    if !parameters_dispatchable(&method.parameters) {
        return false;
    }
    match &method.return_type {
        ReturnTypeIr::Type(ty) => !tokens_contain_unprojected_self(&ty.tokens) && !tokens_contain_ident(
            &ty.tokens,
            "impl",
        ),
        ReturnTypeIr::Unit => {
            assert(!unprojected_self_from(Seq::<TokenTreeIr>::empty(), 0));
            assert(!has_ident_from(Seq::<TokenTreeIr>::empty(), 0, "impl"@));
            true
        },
    }
}

// ---------------------------------------------------------------------------
// Traits
// ---------------------------------------------------------------------------

/// Whether a trait object must name a concrete binding for this associated
/// type.
pub open spec fn requires_dyn_binding(associated: AssociatedTypeIr) -> bool {
    !requires_sized_self(associated.generics.where_predicates@)
}

/// Returns whether a dyn application must name a concrete binding for this
/// associated type.
pub fn associated_type_requires_dyn_binding(associated: &AssociatedTypeIr) -> (required: bool)
    ensures
        required == requires_dyn_binding(*associated),
{
    !where_clause_requires_sized_self(&associated.generics.where_predicates)
}

/// Whether an associated type keeps a trait dyn compatible: it is not
/// generic, or it is excluded by `Self: Sized`.
pub open spec fn associated_type_dyn_compatible(associated: AssociatedTypeIr) -> bool {
    associated.generics.params@.len() == 0 || requires_sized_self(associated.generics.where_predicates@)
}

/// Whether the declaration is syntactically proven to admit a bare `'static`
/// trait object: the user asserts it with `dyn_compatible`, or the trait's
/// where clause, supertraits, methods and associated items all prove it, and
/// it declares no associated constant or other item.
pub open spec fn provably_dyn_compatible(declaration: TraitDeclarationIr) -> bool {
    if has_named(declaration.attributes@, HelperName::DynCompatible) {
        true
    } else {
        &&& !requires_sized_self(declaration.generics.where_predicates@)
        &&& !unprojected_self(declaration.generics.where_clause@)
        &&& forall|i: int|
            0 <= i < declaration.supertraits@.len() ==> known_dyn_compatible_bound(
                #[trigger] declaration.supertraits@[i],
            )
        &&& forall|i: int| 0 <= i < declaration.methods@.len() ==> method_dispatchable(#[trigger] declaration.methods@[i])
        &&& forall|i: int|
            0 <= i < declaration.associated_types@.len() ==> associated_type_dyn_compatible(
                #[trigger] declaration.associated_types@[i],
            )
        &&& declaration.associated_consts@.len() == 0
        &&& !declaration.has_other_items
    }
}

fn has_helper(declaration: &TraitDeclarationIr, name: HelperName) -> (found: bool)
    ensures
        found == has_named(declaration.attributes@, name),
{
    let mut index: usize = 0;
    while index < declaration.attributes.len()
        invariant
            index <= declaration.attributes@.len(),
            forall|j: int| 0 <= j < index ==> declaration.attributes@[j].name != name,
        decreases declaration.attributes.len() - index,
    {
        if declaration.attributes[index].name == name {
            return true;
        }
        index += 1;
    }
    false
}

/// Returns whether the declaration is syntactically proven to admit a bare
/// `'static` trait object.
pub fn is_provably_dyn_compatible(declaration: &TraitDeclarationIr) -> (compatible: bool)
    ensures
        compatible == provably_dyn_compatible(*declaration),
{
    if has_helper(declaration, HelperName::DynCompatible) {
        return true;
    }
    if where_clause_requires_sized_self(&declaration.generics.where_predicates) || tokens_contain_unprojected_self(
        &declaration.generics.where_clause,
    ) {
        return false;
    }
    let mut index: usize = 0;
    while index < declaration.supertraits.len()
        invariant
            index <= declaration.supertraits@.len(),
            forall|i: int| 0 <= i < index ==> known_dyn_compatible_bound(#[trigger] declaration.supertraits@[i]),
            !has_named(declaration.attributes@, HelperName::DynCompatible),
            !requires_sized_self(declaration.generics.where_predicates@),
            !unprojected_self(declaration.generics.where_clause@),
        decreases declaration.supertraits.len() - index,
    {
        if !is_known_dyn_compatible_bound(&declaration.supertraits[index]) {
            assert(!known_dyn_compatible_bound(declaration.supertraits@[index as int]));
            return false;
        }
        index += 1;
    }
    let mut index: usize = 0;
    while index < declaration.methods.len()
        invariant
            index <= declaration.methods@.len(),
            forall|i: int| 0 <= i < index ==> method_dispatchable(#[trigger] declaration.methods@[i]),
            forall|i: int|
                0 <= i < declaration.supertraits@.len() ==> known_dyn_compatible_bound(
                    #[trigger] declaration.supertraits@[i],
                ),
            !has_named(declaration.attributes@, HelperName::DynCompatible),
            !requires_sized_self(declaration.generics.where_predicates@),
            !unprojected_self(declaration.generics.where_clause@),
        decreases declaration.methods.len() - index,
    {
        if !method_is_dyn_dispatchable(&declaration.methods[index]) {
            assert(!method_dispatchable(declaration.methods@[index as int]));
            return false;
        }
        index += 1;
    }
    let mut index: usize = 0;
    while index < declaration.associated_types.len()
        invariant
            index <= declaration.associated_types@.len(),
            forall|i: int|
                0 <= i < index ==> associated_type_dyn_compatible(#[trigger] declaration.associated_types@[i]),
            forall|i: int| 0 <= i < declaration.methods@.len() ==> method_dispatchable(#[trigger] declaration.methods@[i]),
            forall|i: int|
                0 <= i < declaration.supertraits@.len() ==> known_dyn_compatible_bound(
                    #[trigger] declaration.supertraits@[i],
                ),
            !has_named(declaration.attributes@, HelperName::DynCompatible),
            !requires_sized_self(declaration.generics.where_predicates@),
            !unprojected_self(declaration.generics.where_clause@),
        decreases declaration.associated_types.len() - index,
    {
        let associated = &declaration.associated_types[index];
        if !(associated.generics.params.len() == 0 || where_clause_requires_sized_self(
            &associated.generics.where_predicates,
        )) {
            assert(!associated_type_dyn_compatible(declaration.associated_types@[index as int]));
            return false;
        }
        index += 1;
    }
    declaration.associated_consts.len() == 0 && !declaration.has_other_items
}

/// Returns whether `Supertrait::Item` names an item on the direct bound
/// `supertrait`: the inherited path is one segment longer and agrees with it
/// segment by segment.
pub fn inherited_belongs_to_supertrait(inherited: &PathIr, supertrait: &PathIr) -> (belongs: bool)
    ensures
        belongs == is_owner_prefix(*supertrait, *inherited),
{
    if inherited.segments.len() == 0 || inherited.segments.len() - 1 != supertrait.segments.len() {
        return false;
    }
    let mut index: usize = 0;
    while index < supertrait.segments.len()
        invariant
            inherited.segments@.len() == supertrait.segments@.len() + 1,
            index <= supertrait.segments@.len(),
            forall|t: int|
                0 <= t < index ==> supertrait.segments@[t].name@ == inherited.segments@[t].name@,
        decreases supertrait.segments.len() - index,
    {
        if !str_eq(inherited.segments[index].name.as_str(), supertrait.segments[index].name.as_str()) {
            return false;
        }
        index += 1;
    }
    true
}

} // verus!

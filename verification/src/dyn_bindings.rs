//! The generic bindings of the `'static` trait object that a dyn-compatible
//! reflected trait is registered as: which associated types the object
//! binds, and how declared lifetimes and `Self::Item` projections are
//! rewritten for it.

use vstd::prelude::*;
use vstd::string::StringExecFns;

use crate::dyn_compatibility::associated_type_requires_dyn_binding;
use crate::dyn_compatibility::inherited_belongs_to_supertrait;
use crate::dyn_compatibility::requires_dyn_binding;
use crate::ir::AssociatedTypeIr;
use crate::ir::GenericKindIr;
use crate::ir::GenericParamIr;
use crate::ir::HelperAttributeIr;
use crate::ir::HelperValueIr;
use crate::ir::PathIr;
use crate::ir::TokenTreeIr;
use crate::ir::TraitDeclarationIr;
use crate::ir::CALL_SITE_SPAN;
use crate::substitution::lemma_tokens_view_index;
use crate::substitution::copy_token;
use crate::substitution::lemma_tokens_view_push;
use crate::substitution::token_view;
use crate::substitution::tokens_view;
use crate::substitution::TokenView;
use crate::text::join2;
use crate::text::str_eq;
use crate::validate::is_owner_prefix;

verus! {

// ---------------------------------------------------------------------------
// Inherited associated types
// ---------------------------------------------------------------------------

/// The inherited associated type paths one helper proves.
pub open spec fn helper_inherited_paths(attribute: HelperAttributeIr) -> Seq<PathIr> {
    match attribute.value {
        HelperValueIr::DynCompatible(paths) => paths@,
        _ => Seq::empty(),
    }
}

/// The inherited associated type paths that the `dyn_compatible(...)` helpers
/// prove, in order.
pub open spec fn inherited_paths(attributes: Seq<HelperAttributeIr>) -> Seq<PathIr>
    decreases attributes.len(),
{
    if attributes.len() == 0 {
        Seq::empty()
    } else {
        inherited_paths(attributes.drop_last()) + helper_inherited_paths(attributes.last())
    }
}

/// The name of the item a path ends with, if it has a segment.
pub open spec fn final_name(path: PathIr) -> Option<Seq<char>> {
    if path.segments@.len() > 0 {
        Some(path.segments@.last().name@)
    } else {
        None
    }
}

fn final_name_of(path: &PathIr) -> (name: Option<String>)
    ensures
        match name {
            Some(name) => final_name(*path) == Some(name@),
            None => final_name(*path) is None,
        },
{
    let count = path.segments.len();
    if count == 0 {
        None
    } else {
        Some(path.segments[count - 1].name.clone())
    }
}

/// Returns the inherited associated type paths that the declaration's
/// `dyn_compatible(...)` helpers prove, in order.
pub fn dyn_inherited_associated_types(declaration: &TraitDeclarationIr) -> (paths: Vec<&PathIr>)
    ensures
        paths@.len() == inherited_paths(declaration.attributes@).len(),
        forall|i: int| 0 <= i < paths@.len() ==> *(#[trigger] paths@[i]) == inherited_paths(declaration.attributes@)[i],
{
    let attributes = &declaration.attributes;
    let mut paths: Vec<&PathIr> = Vec::new();
    let mut index: usize = 0;
    while index < attributes.len()
        invariant
            index <= attributes@.len(),
            paths@.len() == inherited_paths(attributes@.take(index as int)).len(),
            forall|i: int|
                0 <= i < paths@.len() ==> *(#[trigger] paths@[i]) == inherited_paths(attributes@.take(index as int))[i],
        decreases attributes.len() - index,
    {
        let ghost before = inherited_paths(attributes@.take(index as int));
        assert(attributes@.take(index + 1).drop_last() =~= attributes@.take(index as int));
        assert(attributes@.take(index + 1).last() == attributes@[index as int]);
        if let HelperValueIr::DynCompatible(proved) = &attributes[index].value {
            let mut position: usize = 0;
            while position < proved.len()
                invariant
                    position <= proved@.len(),
                    paths@.len() == before.len() + position,
                    forall|i: int| 0 <= i < before.len() ==> *(#[trigger] paths@[i]) == before[i],
                    forall|i: int| 0 <= i < position ==> *(#[trigger] paths@[before.len() + i]) == proved@[i],
                decreases proved.len() - position,
            {
                paths.push(&proved[position]);
                position += 1;
            }
            proof {
                let after = inherited_paths(attributes@.take(index + 1));
                assert(after == before + proved@);
                assert forall|i: int| 0 <= i < paths@.len() implies *(#[trigger] paths@[i]) == after[i] by {
                    if i >= before.len() {
                        let k = i - before.len();
                        assert(*paths@[before.len() + k] == proved@[k]);
                    }
                }
            }
        } else {
            assert(inherited_paths(attributes@.take(index + 1)) =~= before);
        }
        index += 1;
    }
    assert(attributes@.take(attributes@.len() as int) =~= attributes@);
    paths
}

// ---------------------------------------------------------------------------
// Bound associated types
// ---------------------------------------------------------------------------

/// The associated types declared by the trait itself that a trait object
/// must bind, in declaration order.
pub open spec fn direct_bindings(associated: Seq<AssociatedTypeIr>) -> Seq<Seq<char>>
    decreases associated.len(),
{
    if associated.len() == 0 {
        Seq::empty()
    } else if requires_dyn_binding(associated.last()) {
        direct_bindings(associated.drop_last()).push(associated.last().name@)
    } else {
        direct_bindings(associated.drop_last())
    }
}

/// Whether the trait declares an associated type of that name.
pub open spec fn declares_associated(associated: Seq<AssociatedTypeIr>, name: Seq<char>) -> bool {
    exists|i: int| 0 <= i < associated.len() && (#[trigger] associated[i]).name@ == name
}

/// The inherited associated types a trait object binds, in order: the item
/// of each proven path, unless the trait declares an associated type of the
/// same name.
pub open spec fn inherited_bindings(paths: Seq<PathIr>, associated: Seq<AssociatedTypeIr>) -> Seq<Seq<char>>
    decreases paths.len(),
{
    if paths.len() == 0 {
        Seq::empty()
    } else {
        let earlier = inherited_bindings(paths.drop_last(), associated);
        match final_name(paths.last()) {
            Some(name) => if declares_associated(associated, name) {
                earlier
            } else {
                earlier.push(name)
            },
            None => earlier,
        }
    }
}

/// The associated types the trait object of a reflected trait binds to
/// generated parameters, in order: its own first, then inherited ones.
pub open spec fn dyn_binding_names(declaration: TraitDeclarationIr) -> Seq<Seq<char>> {
    direct_bindings(declaration.associated_types@) + inherited_bindings(
        inherited_paths(declaration.attributes@),
        declaration.associated_types@,
    )
}

fn declares_associated_named(associated: &Vec<AssociatedTypeIr>, name: &str) -> (declared: bool)
    ensures
        declared == declares_associated(associated@, name@),
{
    let mut index: usize = 0;
    while index < associated.len()
        invariant
            index <= associated@.len(),
            forall|i: int| 0 <= i < index ==> (#[trigger] associated@[i]).name@ != name@,
        decreases associated.len() - index,
    {
        if str_eq(associated[index].name.as_str(), name) {
            return true;
        }
        index += 1;
    }
    false
}

/// Returns the associated types the trait object of a reflected trait binds
/// to generated parameters, in order.
pub fn dyn_associated_bindings(declaration: &TraitDeclarationIr) -> (names: Vec<String>)
    ensures
        names@.len() == dyn_binding_names(*declaration).len(),
        forall|i: int| 0 <= i < names@.len() ==> (#[trigger] names@[i])@ == dyn_binding_names(*declaration)[i],
{
    let associated = &declaration.associated_types;
    let mut names: Vec<String> = Vec::new();
    let mut index: usize = 0;
    while index < associated.len()
        invariant
            index <= associated@.len(),
            names@.len() == direct_bindings(associated@.take(index as int)).len(),
            forall|i: int|
                0 <= i < names@.len() ==> (#[trigger] names@[i])@ == direct_bindings(associated@.take(index as int))[i],
        decreases associated.len() - index,
    {
        assert(associated@.take(index + 1).drop_last() =~= associated@.take(index as int));
        assert(associated@.take(index + 1).last() == associated@[index as int]);
        if associated_type_requires_dyn_binding(&associated[index]) {
            names.push(associated[index].name.clone());
        }
        index += 1;
    }
    assert(associated@.take(associated@.len() as int) =~= associated@);
    let ghost direct = names@.len();
    let paths = dyn_inherited_associated_types(declaration);
    let ghost all_paths = inherited_paths(declaration.attributes@);
    let mut position: usize = 0;
    while position < paths.len()
        invariant
            position <= paths@.len(),
            paths@.len() == all_paths.len(),
            forall|i: int| 0 <= i < paths@.len() ==> *(#[trigger] paths@[i]) == all_paths[i],
            direct == direct_bindings(associated@).len(),
            names@.len() == direct + inherited_bindings(all_paths.take(position as int), associated@).len(),
            forall|i: int| 0 <= i < direct ==> (#[trigger] names@[i])@ == direct_bindings(associated@)[i],
            forall|i: int|
                0 <= i < inherited_bindings(all_paths.take(position as int), associated@).len() ==> (
                #[trigger] names@[direct + i])@ == inherited_bindings(all_paths.take(position as int), associated@)[i],
        decreases paths.len() - position,
    {
        assert(all_paths.take(position + 1).drop_last() =~= all_paths.take(position as int));
        assert(all_paths.take(position + 1).last() == all_paths[position as int]);
        let path: &PathIr = paths[position];
        if let Some(name) = final_name_of(path) {
            if !declares_associated_named(associated, name.as_str()) {
                names.push(name);
            }
        }
        position += 1;
    }
    assert(all_paths.take(all_paths.len() as int) =~= all_paths);
    proof {
        let expected = dyn_binding_names(*declaration);
        let inherited = inherited_bindings(all_paths, associated@);
        assert forall|i: int| 0 <= i < names@.len() implies (#[trigger] names@[i])@ == expected[i] by {
            if i >= direct {
                let k = i - direct;
                assert(names@[direct + k]@ == inherited[k]);
            }
        }
    }
    names
}

/// The items of the proven inherited paths that belong to one direct
/// supertrait, in order: the bindings its trait-object path receives.
pub open spec fn supertrait_bindings(paths: Seq<PathIr>, supertrait: PathIr) -> Seq<Seq<char>>
    decreases paths.len(),
{
    if paths.len() == 0 {
        Seq::empty()
    } else {
        let earlier = supertrait_bindings(paths.drop_last(), supertrait);
        if is_owner_prefix(supertrait, paths.last()) {
            earlier.push(paths.last().segments@.last().name@)
        } else {
            earlier
        }
    }
}

/// Returns the inherited associated types that one direct supertrait's path
/// binds in the trait object, in order.
pub fn supertrait_associated_bindings(declaration: &TraitDeclarationIr, supertrait: &PathIr) -> (names: Vec<
    String,
>)
    ensures
        names@.len() == supertrait_bindings(inherited_paths(declaration.attributes@), *supertrait).len(),
        forall|i: int|
            0 <= i < names@.len() ==> (#[trigger] names@[i])@ == supertrait_bindings(
                inherited_paths(declaration.attributes@),
                *supertrait,
            )[i],
{
    let paths = dyn_inherited_associated_types(declaration);
    let ghost all_paths = inherited_paths(declaration.attributes@);
    let mut names: Vec<String> = Vec::new();
    let mut position: usize = 0;
    while position < paths.len()
        invariant
            position <= paths@.len(),
            paths@.len() == all_paths.len(),
            forall|i: int| 0 <= i < paths@.len() ==> *(#[trigger] paths@[i]) == all_paths[i],
            names@.len() == supertrait_bindings(all_paths.take(position as int), *supertrait).len(),
            forall|i: int|
                0 <= i < names@.len() ==> (#[trigger] names@[i])@ == supertrait_bindings(
                    all_paths.take(position as int),
                    *supertrait,
                )[i],
        decreases paths.len() - position,
    {
        assert(all_paths.take(position + 1).drop_last() =~= all_paths.take(position as int));
        assert(all_paths.take(position + 1).last() == all_paths[position as int]);
        let path: &PathIr = paths[position];
        if inherited_belongs_to_supertrait(path, supertrait) {
            let count = path.segments.len();
            names.push(path.segments[count - 1].name.clone());
        }
        position += 1;
    }
    assert(all_paths.take(all_paths.len() as int) =~= all_paths);
    names
}

// ---------------------------------------------------------------------------
// Declared lifetimes become `'static`
// ---------------------------------------------------------------------------

/// The names of the lifetime parameters among `params`.
pub open spec fn lifetime_names(params: Seq<GenericParamIr>) -> Set<Seq<char>> {
    Set::new(
        |name: Seq<char>|
            exists|k: int|
                0 <= k < params.len() && (#[trigger] params[k]).kind == GenericKindIr::Lifetime && params[k].name@
                    == name,
    )
}

/// Whether the tokens start with a lifetime `'name` whose name is declared.
pub open spec fn declared_lifetime_at(tokens: Seq<TokenView>, names: Set<Seq<char>>) -> bool {
    &&& tokens.len() >= 2
    &&& tokens[0] matches TokenView::Punct(ch, _, _) && ch == '\''
    &&& tokens[1] matches TokenView::Ident(name, _) && names.contains(name)
}

/// The tokens with every declared lifetime `'name` rewritten to `'static`,
/// inside groups too: the quote keeps its token, the name becomes `static`
/// at the call site.
pub open spec fn lifetimes_made_static(tokens: Seq<TokenView>, names: Set<Seq<char>>) -> Seq<TokenView>
    decreases tokens,
{
    if tokens.len() == 0 {
        Seq::empty()
    } else if declared_lifetime_at(tokens, names) {
        seq![tokens[0], TokenView::Ident("static"@, CALL_SITE_SPAN)] + lifetimes_made_static(tokens.skip(2), names)
    } else {
        seq![
            match tokens[0] {
                TokenView::Group(delimiter, inner, span) => TokenView::Group(
                    delimiter,
                    lifetimes_made_static(inner, names),
                    span,
                ),
                other => other,
            },
        ] + lifetimes_made_static(tokens.drop_first(), names)
    }
}

fn declares_lifetime(params: &Vec<GenericParamIr>, name: &str) -> (declared: bool)
    ensures
        declared == lifetime_names(params@).contains(name@),
{
    let mut index: usize = 0;
    while index < params.len()
        invariant
            index <= params@.len(),
            forall|k: int|
                0 <= k < index ==> !((#[trigger] params@[k]).kind == GenericKindIr::Lifetime && params@[k].name@
                    == name@),
        decreases params.len() - index,
    {
        if params[index].kind == GenericKindIr::Lifetime && str_eq(params[index].name.as_str(), name) {
            return true;
        }
        index += 1;
    }
    false
}

fn make_lifetimes_static(tokens: &Vec<TokenTreeIr>, params: &Vec<GenericParamIr>) -> (rewritten: Vec<TokenTreeIr>)
    ensures
        tokens_view(rewritten@) == lifetimes_made_static(tokens_view(tokens@), lifetime_names(params@)),
    decreases tokens,
{
    let ghost whole = tokens_view(tokens@);
    let ghost names = lifetime_names(params@);
    let mut rewritten: Vec<TokenTreeIr> = Vec::new();
    let mut index: usize = 0;
    proof {
        lemma_tokens_view_index(tokens@);
        assert(tokens_view(rewritten@) =~= Seq::<TokenView>::empty());
        assert(whole.skip(0) =~= whole);
        assert(Seq::<TokenView>::empty() + lifetimes_made_static(whole, names) =~= lifetimes_made_static(whole, names));
    }
    while index < tokens.len()
        invariant
            index <= tokens@.len(),
            whole == tokens_view(tokens@),
            names == lifetime_names(params@),
            whole.len() == tokens@.len(),
            forall|i: int| 0 <= i < tokens@.len() ==> #[trigger] whole[i] == token_view(tokens@[i]),
            tokens_view(rewritten@) + lifetimes_made_static(whole.skip(index as int), names) == lifetimes_made_static(
                whole,
                names,
            ),
        decreases tokens.len() - index,
    {
        let ghost rest = whole.skip(index as int);
        let ghost prior = rewritten@;
        let is_lifetime = if tokens.len() - index >= 2 {
            match (&tokens[index], &tokens[index + 1]) {
                (TokenTreeIr::Punct { ch, .. }, TokenTreeIr::Ident { name, .. }) => *ch == '\'' && declares_lifetime(
                    params,
                    name.as_str(),
                ),
                _ => false,
            }
        } else {
            false
        };
        assert(rest[0] == whole[index as int]);
        assert(index + 1 < tokens@.len() ==> rest[1] == whole[index + 1]);
        if is_lifetime {
            assert(declared_lifetime_at(rest, names));
            let quote = copy_token(&tokens[index]);
            rewritten.push(quote);
            let name = TokenTreeIr::Ident { name: String::from_str("static"), span: CALL_SITE_SPAN };
            proof {
                reveal_strlit("static");
            }
            rewritten.push(name);
            proof {
                lemma_tokens_view_push(prior, quote);
                lemma_tokens_view_push(prior.push(quote), rewritten@.last());
                assert(tokens_view(rewritten@) =~= tokens_view(prior) + seq![
                    rest[0],
                    TokenView::Ident("static"@, CALL_SITE_SPAN),
                ]);
                assert(rest.skip(2) =~= whole.skip(index + 2));
            }
            index += 2;
        } else {
            assert(!declared_lifetime_at(rest, names));
            let token = match &tokens[index] {
                TokenTreeIr::Group { delimiter, tokens: inner, span } => TokenTreeIr::Group {
                    delimiter: *delimiter,
                    tokens: make_lifetimes_static(inner, params),
                    span: *span,
                },
                other => copy_token(other),
            };
            let ghost expected = match rest[0] {
                TokenView::Group(delimiter, inner, span) => TokenView::Group(
                    delimiter,
                    lifetimes_made_static(inner, names),
                    span,
                ),
                other => other,
            };
            assert(token_view(token) == expected);
            rewritten.push(token);
            proof {
                lemma_tokens_view_push(prior, token);
                assert(rest.drop_first() =~= whole.skip(index + 1));
                assert(tokens_view(rewritten@) + lifetimes_made_static(whole.skip(index + 1), names) =~= tokens_view(
                    prior,
                ) + lifetimes_made_static(rest, names));
            }
            index += 1;
        }
    }
    assert(whole.skip(index as int) =~= Seq::<TokenView>::empty());
    assert(tokens_view(rewritten@) + Seq::<TokenView>::empty() =~= tokens_view(rewritten@));
    rewritten
}

/// Rewrites the trait's declared lifetimes to `'static` in tokens of its
/// trait object's application and predicates.
pub fn replace_declared_lifetimes_with_static(tokens: &Vec<TokenTreeIr>, declaration: &TraitDeclarationIr) -> (rewritten:
    Vec<TokenTreeIr>)
    ensures
        tokens_view(rewritten@) == lifetimes_made_static(
            tokens_view(tokens@),
            lifetime_names(declaration.generics.params@),
        ),
{
    make_lifetimes_static(tokens, &declaration.generics.params)
}

// ---------------------------------------------------------------------------
// `Self::Item` projections become binding parameters
// ---------------------------------------------------------------------------

/// The generated type parameter that binds an associated type.
pub open spec fn binding_parameter_name(name: Seq<char>) -> Seq<char> {
    "__QubitReflectAssociated"@ + name
}

/// Returns the generated type parameter that binds an associated type.
pub fn binding_parameter(name: &str) -> (parameter: String)
    ensures
        parameter@ == binding_parameter_name(name@),
{
    proof {
        reveal_strlit("__QubitReflectAssociated");
    }
    join2("__QubitReflectAssociated", name)
}

/// The associated types whose `Self::Name` projections a trait object's
/// predicates refer to by binding parameter: the trait's own that need a
/// binding and every proven inherited one.
pub open spec fn projected_names(declaration: TraitDeclarationIr) -> Set<Seq<char>> {
    Set::new(
        |name: Seq<char>|
            (exists|i: int|
                0 <= i < declaration.associated_types@.len() && requires_dyn_binding(
                    #[trigger] declaration.associated_types@[i],
                ) && declaration.associated_types@[i].name@ == name) || (exists|j: int|
                0 <= j < inherited_paths(declaration.attributes@).len() && final_name(
                    #[trigger] inherited_paths(declaration.attributes@)[j],
                ) == Some(name)),
    )
}

/// Whether the tokens start with a projection `Self::Name` of a projected
/// associated type.
pub open spec fn self_projection_at(tokens: Seq<TokenView>, names: Set<Seq<char>>) -> bool {
    &&& tokens.len() >= 4
    &&& tokens[0] matches TokenView::Ident(this, _) && this == "Self"@
    &&& tokens[1] matches TokenView::Punct(first, _, _) && first == ':'
    &&& tokens[2] matches TokenView::Punct(second, _, _) && second == ':'
    &&& tokens[3] matches TokenView::Ident(name, _) && names.contains(name)
}

/// The binding parameter token that replaces a projection of the associated
/// type named by `token`, at the name's span.
pub open spec fn binding_token(token: TokenView) -> TokenView {
    match token {
        TokenView::Ident(name, span) => TokenView::Ident(binding_parameter_name(name), span),
        other => other,
    }
}

/// The tokens with every projection `Self::Name` of a projected associated
/// type replaced by its binding parameter, inside groups too.
pub open spec fn projections_bound(tokens: Seq<TokenView>, names: Set<Seq<char>>) -> Seq<TokenView>
    decreases tokens,
{
    if tokens.len() == 0 {
        Seq::empty()
    } else if self_projection_at(tokens, names) {
        seq![binding_token(tokens[3])] + projections_bound(tokens.skip(4), names)
    } else {
        seq![
            match tokens[0] {
                TokenView::Group(delimiter, inner, span) => TokenView::Group(
                    delimiter,
                    projections_bound(inner, names),
                    span,
                ),
                other => other,
            },
        ] + projections_bound(tokens.drop_first(), names)
    }
}

fn is_projected(declaration: &TraitDeclarationIr, name: &str) -> (projected: bool)
    ensures
        projected == projected_names(*declaration).contains(name@),
{
    let associated = &declaration.associated_types;
    let mut index: usize = 0;
    while index < associated.len()
        invariant
            index <= associated@.len(),
            *associated == declaration.associated_types,
            forall|i: int|
                0 <= i < index ==> !(requires_dyn_binding(#[trigger] associated@[i]) && associated@[i].name@ == name@),
        decreases associated.len() - index,
    {
        if associated_type_requires_dyn_binding(&associated[index]) && str_eq(associated[index].name.as_str(), name) {
            assert(requires_dyn_binding(declaration.associated_types@[index as int]));
            assert(projected_names(*declaration).contains(name@));
            return true;
        }
        index += 1;
    }
    let paths = dyn_inherited_associated_types(declaration);
    let ghost all_paths = inherited_paths(declaration.attributes@);
    let mut position: usize = 0;
    while position < paths.len()
        invariant
            position <= paths@.len(),
            all_paths == inherited_paths(declaration.attributes@),
            paths@.len() == all_paths.len(),
            forall|i: int| 0 <= i < paths@.len() ==> *(#[trigger] paths@[i]) == all_paths[i],
            forall|j: int| 0 <= j < position ==> final_name(#[trigger] all_paths[j]) != Some(name@),
        decreases paths.len() - position,
    {
        let path: &PathIr = paths[position];
        if let Some(last) = final_name_of(path) {
            if str_eq(last.as_str(), name) {
                assert(final_name(inherited_paths(declaration.attributes@)[position as int]) == Some(name@));
                assert(projected_names(*declaration).contains(name@));
                return true;
            }
        }
        position += 1;
    }
    false
}

fn bind_projections(tokens: &Vec<TokenTreeIr>, declaration: &TraitDeclarationIr) -> (rewritten: Vec<TokenTreeIr>)
    ensures
        tokens_view(rewritten@) == projections_bound(tokens_view(tokens@), projected_names(*declaration)),
    decreases tokens,
{
    let ghost whole = tokens_view(tokens@);
    let ghost names = projected_names(*declaration);
    let mut rewritten: Vec<TokenTreeIr> = Vec::new();
    let mut index: usize = 0;
    proof {
        lemma_tokens_view_index(tokens@);
        reveal_strlit("Self");
        assert(tokens_view(rewritten@) =~= Seq::<TokenView>::empty());
        assert(whole.skip(0) =~= whole);
        assert(Seq::<TokenView>::empty() + projections_bound(whole, names) =~= projections_bound(whole, names));
    }
    while index < tokens.len()
        invariant
            index <= tokens@.len(),
            whole == tokens_view(tokens@),
            names == projected_names(*declaration),
            whole.len() == tokens@.len(),
            forall|i: int| 0 <= i < tokens@.len() ==> #[trigger] whole[i] == token_view(tokens@[i]),
            tokens_view(rewritten@) + projections_bound(whole.skip(index as int), names) == projections_bound(
                whole,
                names,
            ),
        decreases tokens.len() - index,
    {
        let ghost rest = whole.skip(index as int);
        let ghost prior = rewritten@;
        assert(rest[0] == whole[index as int]);
        let mut projected: Option<String> = None;
        if tokens.len() - index >= 4 {
            assert(rest[1] == whole[index + 1]);
            assert(rest[2] == whole[index + 2]);
            assert(rest[3] == whole[index + 3]);
            if let (
                TokenTreeIr::Ident { name: this, .. },
                TokenTreeIr::Punct { ch: first, .. },
                TokenTreeIr::Punct { ch: second, .. },
                TokenTreeIr::Ident { name, span },
            ) = (&tokens[index], &tokens[index + 1], &tokens[index + 2], &tokens[index + 3]) {
                if str_eq(this.as_str(), "Self") && *first == ':' && *second == ':' && is_projected(
                    declaration,
                    name.as_str(),
                ) {
                    assert(self_projection_at(rest, names));
                    projected = Some(binding_parameter(name.as_str()));
                }
            }
        }
        match projected {
            Some(parameter) => {
                let span = match &tokens[index + 3] {
                    TokenTreeIr::Ident { span, .. } => *span,
                    _ => CALL_SITE_SPAN,
                };
                assert(self_projection_at(rest, names));
                let token = TokenTreeIr::Ident { name: parameter, span };
                assert(token_view(token) == binding_token(rest[3]));
                rewritten.push(token);
                proof {
                    lemma_tokens_view_push(prior, token);
                    assert(rest.skip(4) =~= whole.skip(index + 4));
                    assert(tokens_view(rewritten@) + projections_bound(whole.skip(index + 4), names) =~= tokens_view(
                        prior,
                    ) + projections_bound(rest, names));
                }
                index += 4;
            },
            None => {
                assert(!self_projection_at(rest, names));
                let token = match &tokens[index] {
                    TokenTreeIr::Group { delimiter, tokens: inner, span } => TokenTreeIr::Group {
                        delimiter: *delimiter,
                        tokens: bind_projections(inner, declaration),
                        span: *span,
                    },
                    other => copy_token(other),
                };
                let ghost expected = match rest[0] {
                    TokenView::Group(delimiter, inner, span) => TokenView::Group(
                        delimiter,
                        projections_bound(inner, names),
                        span,
                    ),
                    other => other,
                };
                assert(token_view(token) == expected);
                rewritten.push(token);
                proof {
                    lemma_tokens_view_push(prior, token);
                    assert(rest.drop_first() =~= whole.skip(index + 1));
                    assert(tokens_view(rewritten@) + projections_bound(whole.skip(index + 1), names) =~= tokens_view(
                        prior,
                    ) + projections_bound(rest, names));
                }
                index += 1;
            },
        }
    }
    assert(whole.skip(index as int) =~= Seq::<TokenView>::empty());
    assert(tokens_view(rewritten@) + Seq::<TokenView>::empty() =~= tokens_view(rewritten@));
    rewritten
}

/// Rewrites the `Self::Name` projections of bound associated types in a
/// trait object's predicates to their generated binding parameters.
pub fn replace_self_associated_types(tokens: &Vec<TokenTreeIr>, declaration: &TraitDeclarationIr) -> (rewritten: Vec<
    TokenTreeIr,
>)
    ensures
        tokens_view(rewritten@) == projections_bound(tokens_view(tokens@), projected_names(*declaration)),
{
    bind_projections(tokens, declaration)
}

// ---------------------------------------------------------------------------
// No declared lifetime survives
// ---------------------------------------------------------------------------

/// Whether a declared lifetime `'name` occurs in the tokens, inside groups
/// too.
pub open spec fn has_declared_lifetime(tokens: Seq<TokenView>, names: Set<Seq<char>>) -> bool
    decreases tokens,
{
    if tokens.len() == 0 {
        false
    } else {
        ||| declared_lifetime_at(tokens, names)
        ||| (match tokens[0] {
            TokenView::Group(_, inner, _) => has_declared_lifetime(inner, names),
            _ => false,
        })
        ||| has_declared_lifetime(tokens.drop_first(), names)
    }
}

/// The first token of the rewritten tokens is never an identifier that
/// names a declared lifetime unless the tokens began with it.
proof fn lemma_static_head(tokens: Seq<TokenView>, names: Set<Seq<char>>)
    requires
        tokens.len() > 0,
    ensures
        lifetimes_made_static(tokens, names).len() > 0,
        declared_lifetime_at(tokens, names) ==> lifetimes_made_static(tokens, names)[0] == tokens[0],
        !declared_lifetime_at(tokens, names) ==> (match tokens[0] {
            TokenView::Group(delimiter, inner, span) => lifetimes_made_static(tokens, names)[0] == TokenView::Group(
                delimiter,
                lifetimes_made_static(inner, names),
                span,
            ),
            other => lifetimes_made_static(tokens, names)[0] == other,
        }),
{
}

proof fn lemma_lifetimes_made_static_clean(tokens: Seq<TokenView>, names: Set<Seq<char>>)
    requires
        !names.contains("static"@),
    ensures
        !has_declared_lifetime(lifetimes_made_static(tokens, names), names),
    decreases tokens,
{
    if tokens.len() > 0 {
        let out = lifetimes_made_static(tokens, names);
        if declared_lifetime_at(tokens, names) {
            let rest = lifetimes_made_static(tokens.skip(2), names);
            lemma_lifetimes_made_static_clean(tokens.skip(2), names);
            assert(out == seq![tokens[0], TokenView::Ident("static"@, CALL_SITE_SPAN)] + rest);
            let tail = out.drop_first();
            assert(tail =~= seq![TokenView::Ident("static"@, CALL_SITE_SPAN)] + rest);
            assert(tail.drop_first() =~= rest);
            assert(!declared_lifetime_at(tail, names));
            assert(!has_declared_lifetime(tail, names));
            assert(!declared_lifetime_at(out, names));
        } else {
            let rest = lifetimes_made_static(tokens.drop_first(), names);
            lemma_lifetimes_made_static_clean(tokens.drop_first(), names);
            match tokens[0] {
                TokenView::Group(_, inner, _) => {
                    lemma_lifetimes_made_static_clean(inner, names);
                },
                _ => {},
            }
            assert(out.drop_first() =~= rest);
            if declared_lifetime_at(out, names) {
                assert(tokens[0] matches TokenView::Punct(ch, _, _) && ch == '\'');
                assert(tokens.len() >= 2);
                lemma_static_head(tokens.drop_first(), names);
                assert(tokens.drop_first()[0] == tokens[1]);
                if declared_lifetime_at(tokens.drop_first(), names) {
                    assert(rest[0] == tokens[1]);
                } else {
                    assert(!(tokens[1] matches TokenView::Ident(name, _) && names.contains(name)));
                }
                assert(false);
            }
        }
    }
}

/// Every declared lifetime of a trait is gone from its trait object's tokens
/// once they are rewritten: each `'name` became `'static`.
pub proof fn law_declared_lifetimes_become_static(tokens: Seq<TokenView>, names: Set<Seq<char>>)
    requires
        !names.contains("static"@),
    ensures
        !has_declared_lifetime(lifetimes_made_static(tokens, names), names),
{
    lemma_lifetimes_made_static_clean(tokens, names);
}

// ---------------------------------------------------------------------------
// No bound projection survives
// ---------------------------------------------------------------------------

/// Whether a projection `Self::Name` of a projected associated type occurs
/// in the tokens, inside groups too.
pub open spec fn has_self_projection(tokens: Seq<TokenView>, names: Set<Seq<char>>) -> bool
    decreases tokens,
{
    if tokens.len() == 0 {
        false
    } else {
        ||| self_projection_at(tokens, names)
        ||| (match tokens[0] {
            TokenView::Group(_, inner, _) => has_self_projection(inner, names),
            _ => false,
        })
        ||| has_self_projection(tokens.drop_first(), names)
    }
}

/// The first token of the rewritten tokens.
proof fn lemma_bound_head(tokens: Seq<TokenView>, names: Set<Seq<char>>)
    requires
        tokens.len() > 0,
    ensures
        projections_bound(tokens, names).len() > 0,
        self_projection_at(tokens, names) ==> projections_bound(tokens, names)[0] == binding_token(tokens[3]),
        !self_projection_at(tokens, names) ==> (match tokens[0] {
            TokenView::Group(delimiter, inner, span) => projections_bound(tokens, names)[0] == TokenView::Group(
                delimiter,
                projections_bound(inner, names),
                span,
            ),
            other => projections_bound(tokens, names)[0] == other,
        }),
{
}

/// A binding parameter is never spelled `Self`.
proof fn lemma_binding_is_not_self(name: Seq<char>)
    ensures
        binding_parameter_name(name) != "Self"@,
{
    reveal_strlit("Self");
    reveal_strlit("__QubitReflectAssociated");
    assert(binding_parameter_name(name).len() > "Self"@.len());
}

/// The first token that the rewrite produces from `tokens` is a colon only
/// where `tokens` begins with that colon.
proof fn lemma_bound_colon_head(tokens: Seq<TokenView>, names: Set<Seq<char>>)
    requires
        tokens.len() > 0,
        projections_bound(tokens, names)[0] matches TokenView::Punct(colon, _, _) && colon == ':',
    ensures
        !self_projection_at(tokens, names),
        projections_bound(tokens, names)[0] == tokens[0],
{
    lemma_bound_head(tokens, names);
}

proof fn lemma_projections_bound_clean(tokens: Seq<TokenView>, names: Set<Seq<char>>)
    requires
        forall|name: Seq<char>| names.contains(name) ==> !names.contains(#[trigger] binding_parameter_name(name)),
    ensures
        !has_self_projection(projections_bound(tokens, names), names),
    decreases tokens,
{
    if tokens.len() > 0 {
        let out = projections_bound(tokens, names);
        if self_projection_at(tokens, names) {
            let rest = projections_bound(tokens.skip(4), names);
            lemma_projections_bound_clean(tokens.skip(4), names);
            assert(out == seq![binding_token(tokens[3])] + rest);
            assert(out.drop_first() =~= rest);
            match tokens[3] {
                TokenView::Ident(name, _) => lemma_binding_is_not_self(name),
                _ => {},
            }
            assert(!self_projection_at(out, names));
        } else {
            let rest = projections_bound(tokens.drop_first(), names);
            lemma_projections_bound_clean(tokens.drop_first(), names);
            match tokens[0] {
                TokenView::Group(_, inner, _) => {
                    lemma_projections_bound_clean(inner, names);
                },
                _ => {},
            }
            assert(out.drop_first() =~= rest);
            if self_projection_at(out, names) {
                assert(tokens[0] matches TokenView::Ident(this, _) && this == "Self"@);
                let one = tokens.drop_first();
                lemma_bound_colon_head(one, names);
                assert(one.len() > 0 && rest[0] == one[0]);
                assert(!self_projection_at(one, names));
                let one_rest = projections_bound(one.drop_first(), names);
                assert(rest.drop_first() =~= one_rest);
                assert(one.len() > 1);
                lemma_bound_colon_head(one.drop_first(), names);
                let two = one.drop_first();
                assert(one_rest[0] == two[0]);
                assert(!self_projection_at(two, names));
                let two_rest = projections_bound(two.drop_first(), names);
                assert(one_rest.drop_first() =~= two_rest);
                assert(two.len() > 1);
                let three = two.drop_first();
                lemma_bound_head(three, names);
                assert(out[3] == two_rest[0]);
                assert(tokens[1] == one[0] && tokens[2] == two[0] && tokens[3] == three[0]);
                if self_projection_at(three, names) {
                    match three[3] {
                        TokenView::Ident(inner_name, _) => {
                            assert(names.contains(inner_name));
                            assert(!names.contains(binding_parameter_name(inner_name)));
                        },
                        _ => {},
                    }
                    assert(false);
                } else {
                    assert(self_projection_at(tokens, names));
                    assert(false);
                }
            }
        }
    }
}

/// No projection `Self::Name` of a bound associated type is left in a trait
/// object's predicates once they are rewritten, provided no bound name is
/// itself the binding parameter of another.
pub proof fn law_bound_projections_are_replaced(tokens: Seq<TokenView>, names: Set<Seq<char>>)
    requires
        forall|name: Seq<char>| names.contains(name) ==> !names.contains(#[trigger] binding_parameter_name(name)),
    ensures
        !has_self_projection(projections_bound(tokens, names), names),
{
    lemma_projections_bound_clean(tokens, names);
}

} // verus!

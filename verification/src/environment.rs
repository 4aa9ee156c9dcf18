//! Generic symbols visible at one generated metadata site, and the hidden
//! provider name derived from a generic declaration's name.

use vstd::prelude::*;

use crate::ir::GenericKindIr;
use crate::ir::GenericParamIr;
use crate::ir::GenericsIr;
use crate::ir::TypeDeclarationIr;
use crate::text::str_eq;
use crate::validate::texts;

verus! {

/// The names of the parameters of one kind, as a set.
pub open spec fn names_of_kind(parameters: Seq<GenericParamIr>, kind: GenericKindIr) -> Set<Seq<char>> {
    Set::new(|name: Seq<char>| exists|k: int| 0 <= k < parameters.len() && (#[trigger] parameters[k]).kind == kind
        && parameters[k].name@ == name)
}

/// Generic symbols visible at one generated metadata site.
#[derive(Debug)]
pub struct GenericEnvironment {
    type_parameters: Vec<String>,
    const_parameters: Vec<String>,
    lifetime_parameters: Vec<String>,
}

impl GenericEnvironment {
    /// The visible type parameter names.
    pub closed spec fn types(self) -> Set<Seq<char>> {
        texts(self.type_parameters@).to_set()
    }

    /// The visible const parameter names.
    pub closed spec fn consts(self) -> Set<Seq<char>> {
        texts(self.const_parameters@).to_set()
    }

    /// The visible lifetime parameter names.
    pub closed spec fn lifetimes(self) -> Set<Seq<char>> {
        texts(self.lifetime_parameters@).to_set()
    }

    /// Creates an empty environment for a non-generic declaration.
    pub fn new() -> (environment: GenericEnvironment)
        ensures
            environment.types() == Set::<Seq<char>>::empty(),
            environment.consts() == Set::<Seq<char>>::empty(),
            environment.lifetimes() == Set::<Seq<char>>::empty(),
    {
        let environment = GenericEnvironment {
            type_parameters: Vec::new(),
            const_parameters: Vec::new(),
            lifetime_parameters: Vec::new(),
        };
        assert(texts(environment.type_parameters@).to_set() =~= Set::<Seq<char>>::empty());
        assert(texts(environment.const_parameters@).to_set() =~= Set::<Seq<char>>::empty());
        assert(texts(environment.lifetime_parameters@).to_set() =~= Set::<Seq<char>>::empty());
        environment
    }

    /// Creates an environment from one declaration's generic parameters.
    pub fn from_generics(generics: &GenericsIr) -> (environment: GenericEnvironment)
        ensures
            environment.types() == names_of_kind(generics.params@, GenericKindIr::Type),
            environment.consts() == names_of_kind(generics.params@, GenericKindIr::Const),
            environment.lifetimes() == names_of_kind(generics.params@, GenericKindIr::Lifetime),
    {
        let environment = GenericEnvironment::new().with_generics(generics);
        assert(Set::<Seq<char>>::empty().union(names_of_kind(generics.params@, GenericKindIr::Type))
            =~= names_of_kind(generics.params@, GenericKindIr::Type));
        assert(Set::<Seq<char>>::empty().union(names_of_kind(generics.params@, GenericKindIr::Const))
            =~= names_of_kind(generics.params@, GenericKindIr::Const));
        assert(Set::<Seq<char>>::empty().union(names_of_kind(generics.params@, GenericKindIr::Lifetime))
            =~= names_of_kind(generics.params@, GenericKindIr::Lifetime));
        environment
    }

    /// Extends this environment with a nested generic scope.
    pub fn with_generics(self, generics: &GenericsIr) -> (environment: GenericEnvironment)
        ensures
            environment.types() == self.types().union(names_of_kind(generics.params@, GenericKindIr::Type)),
            environment.consts() == self.consts().union(names_of_kind(generics.params@, GenericKindIr::Const)),
            environment.lifetimes() == self.lifetimes().union(
                names_of_kind(generics.params@, GenericKindIr::Lifetime),
            ),
    {
        let mut environment = self;
        let mut index: usize = 0;
        while index < generics.params.len()
            invariant
                index <= generics.params@.len(),
                environment.types() == self.types().union(
                    names_of_kind(generics.params@.take(index as int), GenericKindIr::Type),
                ),
                environment.consts() == self.consts().union(
                    names_of_kind(generics.params@.take(index as int), GenericKindIr::Const),
                ),
                environment.lifetimes() == self.lifetimes().union(
                    names_of_kind(generics.params@.take(index as int), GenericKindIr::Lifetime),
                ),
            decreases generics.params.len() - index,
        {
            let parameter = &generics.params[index];
            let ghost before = generics.params@.take(index as int);
            let ghost after = generics.params@.take(index + 1);
            assert(after == before.push(*parameter));
            let name = parameter.name.clone();
            let ghost previous = environment;
            match parameter.kind {
                GenericKindIr::Type => environment.type_parameters.push(name),
                GenericKindIr::Const => environment.const_parameters.push(name),
                GenericKindIr::Lifetime => environment.lifetime_parameters.push(name),
            }
            proof {
                lemma_texts_push_set(previous.type_parameters@, environment.type_parameters@);
                lemma_texts_push_set(previous.const_parameters@, environment.const_parameters@);
                lemma_texts_push_set(previous.lifetime_parameters@, environment.lifetime_parameters@);
                lemma_names_of_kind_push(before, *parameter, GenericKindIr::Type);
                lemma_names_of_kind_push(before, *parameter, GenericKindIr::Const);
                lemma_names_of_kind_push(before, *parameter, GenericKindIr::Lifetime);
                assert(environment.types() =~= self.types().union(names_of_kind(after, GenericKindIr::Type)));
                assert(environment.consts() =~= self.consts().union(names_of_kind(after, GenericKindIr::Const)));
                assert(environment.lifetimes() =~= self.lifetimes().union(
                    names_of_kind(after, GenericKindIr::Lifetime),
                ));
            }
            index += 1;
        }
        assert(generics.params@.take(generics.params@.len() as int) == generics.params@);
        environment
    }

    /// Returns whether `name` is a visible type parameter.
    pub fn is_type_parameter(&self, name: &str) -> (visible: bool)
        ensures
            visible == self.types().contains(name@),
    {
        contains_name(&self.type_parameters, name)
    }

    /// Returns whether `name` is a visible const parameter.
    pub fn is_const_parameter(&self, name: &str) -> (visible: bool)
        ensures
            visible == self.consts().contains(name@),
    {
        contains_name(&self.const_parameters, name)
    }

    /// Adds one type parameter.
    pub fn with_type_parameter(self, name: String) -> (environment: GenericEnvironment)
        ensures
            environment.types() == self.types().insert(name@),
            environment.consts() == self.consts(),
            environment.lifetimes() == self.lifetimes(),
    {
        let mut environment = self;
        let ghost previous = environment.type_parameters@;
        environment.type_parameters.push(name);
        proof {
            lemma_texts_push_set(previous, environment.type_parameters@);
        }
        environment
    }

    /// Adds one const parameter.
    pub fn with_const_parameter(self, name: String) -> (environment: GenericEnvironment)
        ensures
            environment.consts() == self.consts().insert(name@),
            environment.types() == self.types(),
            environment.lifetimes() == self.lifetimes(),
    {
        let mut environment = self;
        let ghost previous = environment.const_parameters@;
        environment.const_parameters.push(name);
        proof {
            lemma_texts_push_set(previous, environment.const_parameters@);
        }
        environment
    }
}

/// Pushing a string adds its characters to the set of texts; leaving the
/// list alone leaves the set alone.
proof fn lemma_texts_push_set(before: Seq<String>, after: Seq<String>)
    requires
        after =~= before || (after.len() == before.len() + 1 && after.drop_last() =~= before),
    ensures
        after == before ==> texts(after).to_set() == texts(before).to_set(),
        after != before ==> texts(after).to_set() == texts(before).to_set().insert(after.last()@),
{
    if after != before {
        assert(texts(after) =~= texts(before).push(after.last()@));
        assert(texts(after).to_set() =~= texts(before).to_set().insert(after.last()@)) by {
            assert forall|name: Seq<char>| texts(after).to_set().contains(name) implies texts(
                before,
            ).to_set().insert(after.last()@).contains(name) by {
                let i = choose|i: int| 0 <= i < texts(after).len() && texts(after)[i] == name;
                if i < before.len() {
                    assert(texts(before)[i] == name);
                }
            }
            assert forall|name: Seq<char>| texts(before).to_set().insert(after.last()@).contains(
                name,
            ) implies texts(after).to_set().contains(name) by {
                if name == after.last()@ {
                    assert(texts(after)[before.len() as int] == name);
                } else {
                    let i = choose|i: int| 0 <= i < texts(before).len() && texts(before)[i] == name;
                    assert(texts(after)[i] == name);
                }
            }
        }
    }
}

/// Appending one parameter adds its name to the set of its kind only.
proof fn lemma_names_of_kind_push(parameters: Seq<GenericParamIr>, parameter: GenericParamIr, kind: GenericKindIr)
    ensures
        names_of_kind(parameters.push(parameter), kind) == if parameter.kind == kind {
            names_of_kind(parameters, kind).insert(parameter.name@)
        } else {
            names_of_kind(parameters, kind)
        },
{
    let extended = parameters.push(parameter);
    assert forall|name: Seq<char>| names_of_kind(extended, kind).contains(name) implies (if parameter.kind == kind {
        names_of_kind(parameters, kind).insert(parameter.name@)
    } else {
        names_of_kind(parameters, kind)
    }).contains(name) by {
        let k = choose|k: int| 0 <= k < extended.len() && (#[trigger] extended[k]).kind == kind && extended[k].name@
            == name;
        if k < parameters.len() {
            assert(parameters[k] == extended[k]);
        }
    }
    assert forall|name: Seq<char>| (if parameter.kind == kind {
        names_of_kind(parameters, kind).insert(parameter.name@)
    } else {
        names_of_kind(parameters, kind)
    }).contains(name) implies names_of_kind(extended, kind).contains(name) by {
        if parameter.kind == kind && name == parameter.name@ {
            assert(extended[parameters.len() as int] == parameter);
        } else {
            let k = choose|k: int| 0 <= k < parameters.len() && (#[trigger] parameters[k]).kind == kind
                && parameters[k].name@ == name;
            assert(extended[k] == parameters[k]);
        }
    }
    assert(names_of_kind(extended, kind) =~= if parameter.kind == kind {
        names_of_kind(parameters, kind).insert(parameter.name@)
    } else {
        names_of_kind(parameters, kind)
    });
}

fn contains_name(names: &Vec<String>, name: &str) -> (found: bool)
    ensures
        found == texts(names@).to_set().contains(name@),
{
    let mut index: usize = 0;
    while index < names.len()
        invariant
            index <= names@.len(),
            forall|j: int| 0 <= j < index ==> names@[j]@ != name@,
        decreases names.len() - index,
    {
        if str_eq(names[index].as_str(), name) {
            assert(texts(names@)[index as int] == name@);
            return true;
        }
        index += 1;
    }
    assert(!texts(names@).to_set().contains(name@)) by {
        if texts(names@).to_set().contains(name@) {
            let j = choose|j: int| 0 <= j < texts(names@).len() && texts(names@)[j] == name@;
            assert(names@[j]@ == name@);
        }
    }
    false
}

// ---------------------------------------------------------------------------
// Definition provider name
// ---------------------------------------------------------------------------

/// Whether a character is an ASCII capital letter.
pub open spec fn is_ascii_upper(character: char) -> bool {
    'A' <= character <= 'Z'
}

/// The lowercase counterpart of an ASCII capital letter.
pub open spec fn ascii_lower(character: char) -> char {
    ((character as u32) + 32) as char
}

/// The snake-case rendering of a type name: every ASCII capital becomes its
/// lowercase letter, preceded by `_` unless it is the first character.
pub open spec fn snake_case(source: Seq<char>) -> Seq<char>
    decreases source.len(),
{
    if source.len() == 0 {
        Seq::empty()
    } else {
        let rest = snake_case(source.drop_last());
        let character = source.last();
        if is_ascii_upper(character) {
            if source.len() == 1 {
                rest.push(ascii_lower(character))
            } else {
                rest.push('_').push(ascii_lower(character))
            }
        } else {
            rest.push(character)
        }
    }
}

/// The hidden generic-definition provider name of a declaration.
pub open spec fn provider_name(name: Seq<char>) -> Seq<char> {
    "__qubit_reflect_generic_definition_"@ + snake_case(name)
}

fn lowercase(character: char) -> (lower: char)
    requires
        is_ascii_upper(character),
    ensures
        lower == ascii_lower(character),
{
    let code = (character as u32) + 32;
    let byte = code as u8;
    byte as char
}

/// Returns the stable hidden provider name shared with facade macros that
/// augment one reflected generic declaration.
pub fn definition_provider_name(name: &str) -> (provider: String)
    ensures
        provider@ == provider_name(name@),
{
    let characters = crate::text::chars_of(name);
    let mut snake: Vec<char> = Vec::new();
    let mut index: usize = 0;
    while index < characters.len()
        invariant
            characters@ == name@,
            index <= characters@.len(),
            snake@ == snake_case(characters@.take(index as int)),
        decreases characters.len() - index,
    {
        assert(characters@.take(index + 1).drop_last() == characters@.take(index as int));
        let character = characters[index];
        if 'A' <= character && character <= 'Z' {
            if index != 0 {
                snake.push('_');
            }
            snake.push(lowercase(character));
        } else {
            snake.push(character);
        }
        index += 1;
    }
    assert(characters@.take(characters@.len() as int) == characters@);
    let mut provider = String::from_str("__qubit_reflect_generic_definition_");
    let mut index: usize = 0;
    let ghost prefix = provider@;
    while index < snake.len()
        invariant
            index <= snake@.len(),
            provider@ == prefix + snake@.take(index as int),
        decreases snake.len() - index,
    {
        crate::text::push_char(&mut provider, snake[index]);
        assert(snake@.take(index + 1) == snake@.take(index as int).push(snake@[index as int]));
        index += 1;
    }
    assert(snake@.take(snake@.len() as int) == snake@);
    provider
}

/// Returns the name of the non-generic provider of a declaration's generic
/// definition: only generic declarations have one.
pub fn definition_provider(declaration: &TypeDeclarationIr) -> (provider: Option<String>)
    ensures
        match provider {
            Some(name) => declaration.generics.params@.len() > 0 && name@ == provider_name(declaration.name@),
            None => declaration.generics.params@.len() == 0,
        },
{
    if declaration.generics.params.len() == 0 {
        None
    } else {
        Some(definition_provider_name(declaration.name.as_str()))
    }
}

} // verus!

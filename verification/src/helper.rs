//! Reflection helper keys, the elements that carry them, and the single
//! legality matrix shared by parsing diagnostics and validation.

use vstd::prelude::*;

use crate::text::str_eq;

verus! {

/// Identifies a supported reflection helper key.
#[derive(Clone, Copy, Debug, PartialEq, Eq, Structural, Hash)]
pub enum HelperName {
    Rename,
    Opaque,
    Capabilities,
    Skip,
    ReadOnly,
    NoConstruct,
    Default,
    NoInvoke,
    CatchUnwind,
    ThreadSafe,
    Specialize,
    ExternalTraitId,
    ExternalTrait,
    Supertrait,
    DynCompatible,
    RuntimeCrate,
    DefinitionProviderV2,
}

/// Identifies the declaration element carrying a helper attribute.
#[derive(Clone, Copy, Debug, PartialEq, Eq, Structural)]
pub enum HelperTarget {
    Type,
    Field,
    Variant,
    Method,
    Impl,
    Trait,
    AssociatedItem,
}

/// The source spelling of each helper key.
pub open spec fn helper_spelling(name: HelperName) -> Seq<char> {
    match name {
        HelperName::Rename => "rename"@,
        HelperName::Opaque => "opaque"@,
        HelperName::Capabilities => "capabilities"@,
        HelperName::Skip => "skip"@,
        HelperName::ReadOnly => "read_only"@,
        HelperName::NoConstruct => "no_construct"@,
        HelperName::Default => "default"@,
        HelperName::NoInvoke => "no_invoke"@,
        HelperName::CatchUnwind => "catch_unwind"@,
        HelperName::ThreadSafe => "thread_safe"@,
        HelperName::Specialize => "specialize"@,
        HelperName::ExternalTraitId => "external_trait_id"@,
        HelperName::ExternalTrait => "external_trait"@,
        HelperName::Supertrait => "supertrait"@,
        HelperName::DynCompatible => "dyn_compatible"@,
        HelperName::RuntimeCrate => "crate"@,
        HelperName::DefinitionProviderV2 => "definition_provider_v2"@,
    }
}

/// The helper whose source spelling is `source`, if any.
pub open spec fn helper_named(source: Seq<char>) -> Option<HelperName> {
    if source == "rename"@ {
        Some(HelperName::Rename)
    } else if source == "opaque"@ {
        Some(HelperName::Opaque)
    } else if source == "capabilities"@ {
        Some(HelperName::Capabilities)
    } else if source == "skip"@ {
        Some(HelperName::Skip)
    } else if source == "read_only"@ {
        Some(HelperName::ReadOnly)
    } else if source == "no_construct"@ {
        Some(HelperName::NoConstruct)
    } else if source == "default"@ {
        Some(HelperName::Default)
    } else if source == "no_invoke"@ {
        Some(HelperName::NoInvoke)
    } else if source == "catch_unwind"@ {
        Some(HelperName::CatchUnwind)
    } else if source == "thread_safe"@ {
        Some(HelperName::ThreadSafe)
    } else if source == "specialize"@ {
        Some(HelperName::Specialize)
    } else if source == "external_trait_id"@ {
        Some(HelperName::ExternalTraitId)
    } else if source == "external_trait"@ {
        Some(HelperName::ExternalTrait)
    } else if source == "supertrait"@ {
        Some(HelperName::Supertrait)
    } else if source == "dyn_compatible"@ {
        Some(HelperName::DynCompatible)
    } else if source == "crate"@ {
        Some(HelperName::RuntimeCrate)
    } else if source == "definition_provider_v2"@ {
        Some(HelperName::DefinitionProviderV2)
    } else {
        None
    }
}

/// Reads back every helper spelling: resolving the source spelling of a
/// helper key yields that key, so each key has exactly one spelling and no two
/// keys share one.
pub proof fn lemma_helper_spelling_round_trip(name: HelperName)
    ensures
        helper_named(helper_spelling(name)) == Some(name),
{
    reveal_strlit("rename");
    reveal_strlit("opaque");
    reveal_strlit("capabilities");
    reveal_strlit("skip");
    reveal_strlit("read_only");
    reveal_strlit("no_construct");
    reveal_strlit("default");
    reveal_strlit("no_invoke");
    reveal_strlit("catch_unwind");
    reveal_strlit("thread_safe");
    reveal_strlit("specialize");
    reveal_strlit("external_trait_id");
    reveal_strlit("external_trait");
    reveal_strlit("supertrait");
    reveal_strlit("dyn_compatible");
    reveal_strlit("crate");
    reveal_strlit("definition_provider_v2");
    assert("rename"@.len() == 6 && "rename"@[0] == 'r' && "rename"@[1] == 'e' && "rename"@[2] == 'n');
    assert("opaque"@.len() == 6 && "opaque"@[0] == 'o' && "opaque"@[1] == 'p' && "opaque"@[2] == 'a');
    assert("capabilities"@.len() == 12 && "capabilities"@[0] == 'c' && "capabilities"@[1] == 'a' && "capabilities"@[2] == 'p');
    assert("skip"@.len() == 4 && "skip"@[0] == 's' && "skip"@[1] == 'k' && "skip"@[2] == 'i');
    assert("read_only"@.len() == 9 && "read_only"@[0] == 'r' && "read_only"@[1] == 'e' && "read_only"@[2] == 'a');
    assert("no_construct"@.len() == 12 && "no_construct"@[0] == 'n' && "no_construct"@[1] == 'o' && "no_construct"@[2] == '_');
    assert("default"@.len() == 7 && "default"@[0] == 'd' && "default"@[1] == 'e' && "default"@[2] == 'f');
    assert("no_invoke"@.len() == 9 && "no_invoke"@[0] == 'n' && "no_invoke"@[1] == 'o' && "no_invoke"@[2] == '_');
    assert("catch_unwind"@.len() == 12 && "catch_unwind"@[0] == 'c' && "catch_unwind"@[1] == 'a' && "catch_unwind"@[2] == 't');
    assert("thread_safe"@.len() == 11 && "thread_safe"@[0] == 't' && "thread_safe"@[1] == 'h' && "thread_safe"@[2] == 'r');
    assert("specialize"@.len() == 10 && "specialize"@[0] == 's' && "specialize"@[1] == 'p' && "specialize"@[2] == 'e');
    assert("external_trait_id"@.len() == 17 && "external_trait_id"@[0] == 'e' && "external_trait_id"@[1] == 'x' && "external_trait_id"@[2] == 't');
    assert("external_trait"@.len() == 14 && "external_trait"@[0] == 'e' && "external_trait"@[1] == 'x' && "external_trait"@[2] == 't');
    assert("supertrait"@.len() == 10 && "supertrait"@[0] == 's' && "supertrait"@[1] == 'u' && "supertrait"@[2] == 'p');
    assert("dyn_compatible"@.len() == 14 && "dyn_compatible"@[0] == 'd' && "dyn_compatible"@[1] == 'y' && "dyn_compatible"@[2] == 'n');
    assert("crate"@.len() == 5 && "crate"@[0] == 'c' && "crate"@[1] == 'r' && "crate"@[2] == 'a');
    assert("definition_provider_v2"@.len() == 22 && "definition_provider_v2"@[0] == 'd' && "definition_provider_v2"@[1] == 'e' && "definition_provider_v2"@[2] == 'f');
}

/// Every resolved spelling is the spelling of the key it resolves to.
pub proof fn lemma_helper_named_is_spelling(source: Seq<char>)
    ensures
        helper_named(source) matches Some(name) ==> helper_spelling(name) == source,
{
}

/// The diagnostic label of each helper target.
pub open spec fn target_label(target: HelperTarget) -> Seq<char> {
    match target {
        HelperTarget::Type => "type"@,
        HelperTarget::Field => "field"@,
        HelperTarget::Variant => "variant"@,
        HelperTarget::Method => "method"@,
        HelperTarget::Impl => "impl block"@,
        HelperTarget::Trait => "trait"@,
        HelperTarget::AssociatedItem => "associated item"@,
    }
}

/// The position of a target in the legality matrix.
pub open spec fn target_index(target: HelperTarget) -> u16 {
    match target {
        HelperTarget::Type => 0,
        HelperTarget::Field => 1,
        HelperTarget::Variant => 2,
        HelperTarget::Method => 3,
        HelperTarget::Impl => 4,
        HelperTarget::Trait => 5,
        HelperTarget::AssociatedItem => 6,
    }
}

/// The legality matrix: whether helper `name` may appear on `target`.
pub open spec fn helper_allowed(name: HelperName, target: HelperTarget) -> bool {
    match name {
        HelperName::Rename => target == HelperTarget::Type || target == HelperTarget::Field
            || target == HelperTarget::Variant || target == HelperTarget::Method
            || target == HelperTarget::Trait,
        HelperName::Opaque => target == HelperTarget::Type || target == HelperTarget::Field,
        HelperName::Capabilities => target == HelperTarget::Type,
        HelperName::Skip => target == HelperTarget::Field || target == HelperTarget::Variant
            || target == HelperTarget::Method,
        HelperName::ReadOnly => target == HelperTarget::Field,
        HelperName::NoConstruct => target == HelperTarget::Field || target == HelperTarget::Variant,
        HelperName::Default => target == HelperTarget::Field,
        HelperName::NoInvoke => target == HelperTarget::Method,
        HelperName::CatchUnwind => target == HelperTarget::Method,
        HelperName::ThreadSafe => target == HelperTarget::Type || target == HelperTarget::Method,
        HelperName::Specialize => target == HelperTarget::Method || target == HelperTarget::Impl,
        HelperName::ExternalTraitId => target == HelperTarget::Impl,
        HelperName::ExternalTrait => target == HelperTarget::Trait,
        HelperName::Supertrait => target == HelperTarget::Trait,
        HelperName::DynCompatible => target == HelperTarget::Trait,
        HelperName::RuntimeCrate => target == HelperTarget::Type || target == HelperTarget::Trait
            || target == HelperTarget::Impl,
        HelperName::DefinitionProviderV2 => target == HelperTarget::Type,
    }
}

impl HelperName {
    /// Returns the source spelling of this helper key.
    pub fn as_str(self) -> (spelling: &'static str)
        ensures
            spelling@ == helper_spelling(self),
    {
        match self {
            HelperName::Rename => "rename",
            HelperName::Opaque => "opaque",
            HelperName::Capabilities => "capabilities",
            HelperName::Skip => "skip",
            HelperName::ReadOnly => "read_only",
            HelperName::NoConstruct => "no_construct",
            HelperName::Default => "default",
            HelperName::NoInvoke => "no_invoke",
            HelperName::CatchUnwind => "catch_unwind",
            HelperName::ThreadSafe => "thread_safe",
            HelperName::Specialize => "specialize",
            HelperName::ExternalTraitId => "external_trait_id",
            HelperName::ExternalTrait => "external_trait",
            HelperName::Supertrait => "supertrait",
            HelperName::DynCompatible => "dyn_compatible",
            HelperName::RuntimeCrate => "crate",
            HelperName::DefinitionProviderV2 => "definition_provider_v2",
        }
    }

    /// Resolves a source helper key, returning `None` for unknown keys.
    pub fn from_str(value: &str) -> (name: Option<HelperName>)
        ensures
            name == helper_named(value@),
    {
        if str_eq(value, "rename") {
            Some(HelperName::Rename)
        } else if str_eq(value, "opaque") {
            Some(HelperName::Opaque)
        } else if str_eq(value, "capabilities") {
            Some(HelperName::Capabilities)
        } else if str_eq(value, "skip") {
            Some(HelperName::Skip)
        } else if str_eq(value, "read_only") {
            Some(HelperName::ReadOnly)
        } else if str_eq(value, "no_construct") {
            Some(HelperName::NoConstruct)
        } else if str_eq(value, "default") {
            Some(HelperName::Default)
        } else if str_eq(value, "no_invoke") {
            Some(HelperName::NoInvoke)
        } else if str_eq(value, "catch_unwind") {
            Some(HelperName::CatchUnwind)
        } else if str_eq(value, "thread_safe") {
            Some(HelperName::ThreadSafe)
        } else if str_eq(value, "specialize") {
            Some(HelperName::Specialize)
        } else if str_eq(value, "external_trait_id") {
            Some(HelperName::ExternalTraitId)
        } else if str_eq(value, "external_trait") {
            Some(HelperName::ExternalTrait)
        } else if str_eq(value, "supertrait") {
            Some(HelperName::Supertrait)
        } else if str_eq(value, "dyn_compatible") {
            Some(HelperName::DynCompatible)
        } else if str_eq(value, "crate") {
            Some(HelperName::RuntimeCrate)
        } else if str_eq(value, "definition_provider_v2") {
            Some(HelperName::DefinitionProviderV2)
        } else {
            None
        }
    }

    /// Returns the bit set of targets on which this helper is legal.
    pub fn targets(self) -> (targets: TargetSet)
        ensures
            forall|target: HelperTarget| #[trigger] targets.has(target) == helper_allowed(self, target),
    {
        let bits: u16 = match self {
            HelperName::Rename => 0b101111,
            HelperName::Opaque => 0b11,
            HelperName::Capabilities => 0b1,
            HelperName::Skip => 0b1110,
            HelperName::ReadOnly => 0b10,
            HelperName::NoConstruct => 0b110,
            HelperName::Default => 0b10,
            HelperName::NoInvoke => 0b1000,
            HelperName::CatchUnwind => 0b1000,
            HelperName::ThreadSafe => 0b1001,
            HelperName::Specialize => 0b11000,
            HelperName::ExternalTraitId => 0b10000,
            HelperName::ExternalTrait => 0b100000,
            HelperName::Supertrait => 0b100000,
            HelperName::DynCompatible => 0b100000,
            HelperName::RuntimeCrate => 0b110001,
            HelperName::DefinitionProviderV2 => 0b1,
        };
        let set = TargetSet::new(bits);
        assert forall|target: HelperTarget| #[trigger] set.has(target) == helper_allowed(self, target) by {
            lemma_target_bits(self, target, bits);
        }
        set
    }

    /// Returns whether this helper is legal on `target`.
    pub fn supports(self, target: HelperTarget) -> (legal: bool)
        ensures
            legal == helper_allowed(self, target),
    {
        self.targets().contains(target)
    }
}

/// The bit set that the legality matrix assigns to each helper.
pub open spec fn helper_bits(name: HelperName) -> u16 {
    match name {
        HelperName::Rename => 0b101111,
        HelperName::Opaque => 0b11,
        HelperName::Capabilities => 0b1,
        HelperName::Skip => 0b1110,
        HelperName::ReadOnly => 0b10,
        HelperName::NoConstruct => 0b110,
        HelperName::Default => 0b10,
        HelperName::NoInvoke => 0b1000,
        HelperName::CatchUnwind => 0b1000,
        HelperName::ThreadSafe => 0b1001,
        HelperName::Specialize => 0b11000,
        HelperName::ExternalTraitId => 0b10000,
        HelperName::ExternalTrait => 0b100000,
        HelperName::Supertrait => 0b100000,
        HelperName::DynCompatible => 0b100000,
        HelperName::RuntimeCrate => 0b110001,
        HelperName::DefinitionProviderV2 => 0b1,
    }
}

proof fn lemma_target_bits(name: HelperName, target: HelperTarget, bits: u16)
    requires
        bits == helper_bits(name),
    ensures
        (bits & target_bit(target) != 0) == helper_allowed(name, target),
{
    let b = bits;
    assert(b == 0b101111u16 ==> (b & 1u16 != 0 && b & 2u16 != 0 && b & 4u16 != 0 && b & 8u16 != 0
        && b & 16u16 == 0 && b & 32u16 != 0 && b & 64u16 == 0)) by (bit_vector);
    assert(b == 0b11u16 ==> (b & 1u16 != 0 && b & 2u16 != 0 && b & 4u16 == 0 && b & 8u16 == 0
        && b & 16u16 == 0 && b & 32u16 == 0 && b & 64u16 == 0)) by (bit_vector);
    assert(b == 0b1u16 ==> (b & 1u16 != 0 && b & 2u16 == 0 && b & 4u16 == 0 && b & 8u16 == 0
        && b & 16u16 == 0 && b & 32u16 == 0 && b & 64u16 == 0)) by (bit_vector);
    assert(b == 0b1110u16 ==> (b & 1u16 == 0 && b & 2u16 != 0 && b & 4u16 != 0 && b & 8u16 != 0
        && b & 16u16 == 0 && b & 32u16 == 0 && b & 64u16 == 0)) by (bit_vector);
    assert(b == 0b10u16 ==> (b & 1u16 == 0 && b & 2u16 != 0 && b & 4u16 == 0 && b & 8u16 == 0
        && b & 16u16 == 0 && b & 32u16 == 0 && b & 64u16 == 0)) by (bit_vector);
    assert(b == 0b110u16 ==> (b & 1u16 == 0 && b & 2u16 != 0 && b & 4u16 != 0 && b & 8u16 == 0
        && b & 16u16 == 0 && b & 32u16 == 0 && b & 64u16 == 0)) by (bit_vector);
    assert(b == 0b1000u16 ==> (b & 1u16 == 0 && b & 2u16 == 0 && b & 4u16 == 0 && b & 8u16 != 0
        && b & 16u16 == 0 && b & 32u16 == 0 && b & 64u16 == 0)) by (bit_vector);
    assert(b == 0b1001u16 ==> (b & 1u16 != 0 && b & 2u16 == 0 && b & 4u16 == 0 && b & 8u16 != 0
        && b & 16u16 == 0 && b & 32u16 == 0 && b & 64u16 == 0)) by (bit_vector);
    assert(b == 0b11000u16 ==> (b & 1u16 == 0 && b & 2u16 == 0 && b & 4u16 == 0 && b & 8u16 != 0
        && b & 16u16 != 0 && b & 32u16 == 0 && b & 64u16 == 0)) by (bit_vector);
    assert(b == 0b10000u16 ==> (b & 1u16 == 0 && b & 2u16 == 0 && b & 4u16 == 0 && b & 8u16 == 0
        && b & 16u16 != 0 && b & 32u16 == 0 && b & 64u16 == 0)) by (bit_vector);
    assert(b == 0b100000u16 ==> (b & 1u16 == 0 && b & 2u16 == 0 && b & 4u16 == 0 && b & 8u16 == 0
        && b & 16u16 == 0 && b & 32u16 != 0 && b & 64u16 == 0)) by (bit_vector);
    assert(b == 0b110001u16 ==> (b & 1u16 != 0 && b & 2u16 == 0 && b & 4u16 == 0 && b & 8u16 == 0
        && b & 16u16 != 0 && b & 32u16 != 0 && b & 64u16 == 0)) by (bit_vector);
}

/// The bit of a target: `1 << target_index(target)`.
pub open spec fn target_bit(target: HelperTarget) -> u16 {
    match target {
        HelperTarget::Type => 1,
        HelperTarget::Field => 2,
        HelperTarget::Variant => 4,
        HelperTarget::Method => 8,
        HelperTarget::Impl => 16,
        HelperTarget::Trait => 32,
        HelperTarget::AssociatedItem => 64,
    }
}

impl HelperTarget {
    /// Returns a diagnostic label for this helper target.
    pub fn as_str(self) -> (label: &'static str)
        ensures
            label@ == target_label(self),
    {
        match self {
            HelperTarget::Type => "type",
            HelperTarget::Field => "field",
            HelperTarget::Variant => "variant",
            HelperTarget::Method => "method",
            HelperTarget::Impl => "impl block",
            HelperTarget::Trait => "trait",
            HelperTarget::AssociatedItem => "associated item",
        }
    }

    /// Returns the bit assigned to this target in the legality matrix.
    pub fn bit(self) -> (bit: u16)
        ensures
            bit == target_bit(self),
            bit == 1u16 << target_index(self),
    {
        let bit: u16 = match self {
            HelperTarget::Type => 1,
            HelperTarget::Field => 2,
            HelperTarget::Variant => 4,
            HelperTarget::Method => 8,
            HelperTarget::Impl => 16,
            HelperTarget::Trait => 32,
            HelperTarget::AssociatedItem => 64,
        };
        assert(1u16 << 0u16 == 1 && 1u16 << 1u16 == 2 && 1u16 << 2u16 == 4 && 1u16 << 3u16 == 8
            && 1u16 << 4u16 == 16 && 1u16 << 5u16 == 32 && 1u16 << 6u16 == 64) by (bit_vector);
        bit
    }
}

/// A compact set of helper targets.
#[derive(Clone, Copy, Debug)]
pub struct TargetSet(pub u16);

impl TargetSet {
    /// Whether `target` belongs to this set.
    pub open spec fn has(self, target: HelperTarget) -> bool {
        self.0 & target_bit(target) != 0
    }

    /// Creates a target set from its bit representation.
    pub fn new(bits: u16) -> (set: TargetSet)
        ensures
            set.0 == bits,
    {
        TargetSet(bits)
    }

    /// Returns whether `target` belongs to this set.
    pub fn contains(self, target: HelperTarget) -> (member: bool)
        ensures
            member == self.has(target),
    {
        self.0 & target.bit() != 0
    }
}

} // verus!

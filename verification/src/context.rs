//! Facts shared by one declaration expansion: the runtime facade, content
//! fingerprints and normalized enum representations.

use vstd::prelude::*;
use vstd::string::StringSliceAdditionalSpecFns;

use crate::ir::HelperAttributeIr;
use crate::ir::HelperValueIr;

verus! {

/// The FNV-1a 64-bit offset basis.
pub open spec fn fnv_offset() -> u64 {
    0xcbf29ce484222325
}

/// The FNV-1a 64-bit prime.
pub open spec fn fnv_prime() -> u64 {
    0x100000001b3
}

/// One FNV-1a step: xor the byte in, then multiply modulo 2^64.
pub open spec fn fnv_step(hash: u64, byte: u8) -> u64 {
    (((hash ^ (byte as u64)) as nat * fnv_prime() as nat) % 0x1_0000_0000_0000_0000nat) as u64
}

/// The FNV-1a hash of a byte sequence.
pub open spec fn fnv_hash(bytes: Seq<u8>) -> u64
    decreases bytes.len(),
{
    if bytes.len() == 0 {
        fnv_offset()
    } else {
        fnv_step(fnv_hash(bytes.drop_last()), bytes.last())
    }
}

/// Computes the deterministic FNV-1a content fingerprint of the UTF-8 bytes
/// of `source`.
pub fn fingerprint(source: &str) -> (hash: u64)
    ensures
        hash == fnv_hash(source.spec_bytes()),
{
    let bytes = source.as_bytes();
    let mut hash: u64 = 0xcbf29ce484222325;
    let mut index: usize = 0;
    while index < bytes.len()
        invariant
            index <= bytes@.len(),
            bytes@ == source.spec_bytes(),
            hash == fnv_hash(bytes@.take(index as int)),
        decreases bytes.len() - index,
    {
        assert(bytes@.take(index + 1).drop_last() == bytes@.take(index as int));
        let byte = bytes[index];
        hash = (hash ^ (byte as u64)).wrapping_mul(0x100000001b3);
        index += 1;
    }
    assert(bytes@.take(bytes@.len() as int) == bytes@);
    hash
}

/// How the build system names the runtime facade crate for the caller.
#[derive(Debug, PartialEq, Eq)]
pub enum FoundCrateIr {
    /// The caller is the facade crate itself.
    Itself,
    /// The caller depends on the facade under this (possibly renamed) name.
    Name(String),
}

/// The caller-visible runtime facade path.
#[derive(Debug, PartialEq, Eq)]
pub enum FacadeIr {
    /// The path given by the helper attribute at this index.
    Explicit(usize),
    /// `crate`.
    CrateItself,
    /// `::name`.
    Absolute(String),
}

/// The message reported when the facade cannot be located.
pub open spec fn msg_unresolved_facade() -> Seq<char> {
    "cannot resolve `qubit-reflect`; use `#[reflect(crate = path)]`"@
}

/// The index of the first helper that names the runtime facade explicitly.
pub open spec fn explicit_facade_index(attributes: Seq<HelperAttributeIr>) -> Option<int>
    decreases attributes.len(),
{
    if attributes.len() == 0 {
        None
    } else {
        match explicit_facade_index(attributes.drop_last()) {
            Some(index) => Some(index),
            None => if attributes.last().value is RuntimeCrate {
                Some(attributes.len() - 1)
            } else {
                None
            },
        }
    }
}

/// Immutable context shared by one declaration expansion.
#[derive(Debug)]
pub struct ExpansionContext {
    pub facade: FacadeIr,
}

/// Returns the index of the first `crate = path` helper, if any.
pub fn explicit_facade(attributes: &Vec<HelperAttributeIr>) -> (index: Option<usize>)
    ensures
        match index {
            Some(index) => explicit_facade_index(attributes@) == Some(index as int),
            None => explicit_facade_index(attributes@) is None,
        },
{
    let mut index: usize = 0;
    while index < attributes.len()
        invariant
            index <= attributes@.len(),
            explicit_facade_index(attributes@.take(index as int)) is None,
        decreases attributes.len() - index,
    {
        assert(attributes@.take(index + 1).drop_last() == attributes@.take(index as int));
        if let HelperValueIr::RuntimeCrate(_) = &attributes[index].value {
            proof {
                lemma_explicit_facade_prefix(attributes@, index as int + 1);
            }
            return Some(index);
        }
        index += 1;
    }
    assert(attributes@.take(attributes@.len() as int) == attributes@);
    None
}

/// Once a prefix names the facade, every longer list names the same helper.
proof fn lemma_explicit_facade_prefix(attributes: Seq<HelperAttributeIr>, length: int)
    requires
        0 <= length <= attributes.len(),
        explicit_facade_index(attributes.take(length)) is Some,
    ensures
        explicit_facade_index(attributes) == explicit_facade_index(attributes.take(length)),
    decreases attributes.len() - length,
{
    if length < attributes.len() {
        assert(attributes.take(length + 1).drop_last() == attributes.take(length));
        lemma_explicit_facade_prefix(attributes, length + 1);
    } else {
        assert(attributes.take(length) == attributes);
    }
}

/// The facade that the build system's answer selects.
pub open spec fn found_facade(found: Option<FoundCrateIr>) -> Result<FacadeIr, Seq<char>> {
    match found {
        Some(FoundCrateIr::Itself) => Ok(FacadeIr::CrateItself),
        Some(FoundCrateIr::Name(name)) => Ok(FacadeIr::Absolute(name)),
        None => Err(msg_unresolved_facade()),
    }
}

impl ExpansionContext {
    /// Returns the caller-visible runtime facade path.
    pub fn facade(&self) -> (facade: &FacadeIr)
        ensures
            *facade == self.facade,
    {
        &self.facade
    }

    /// Resolves the facade from the build system's answer when no helper
    /// names it explicitly.
    pub fn from_found_crate(found: Option<FoundCrateIr>) -> (context: Result<ExpansionContext, String>)
        ensures
            match (context, found_facade(found)) {
                (Ok(context), Ok(facade)) => context.facade == facade,
                (Err(message), Err(expected)) => message@ == expected,
                _ => false,
            },
    {
        match found {
            Some(FoundCrateIr::Itself) => Ok(ExpansionContext { facade: FacadeIr::CrateItself }),
            Some(FoundCrateIr::Name(name)) => Ok(ExpansionContext { facade: FacadeIr::Absolute(name) }),
            None => Err(String::from_str("cannot resolve `qubit-reflect`; use `#[reflect(crate = path)]`")),
        }
    }

    /// Resolves an explicit runtime facade, which has priority, or else the
    /// build system's answer.
    pub fn from_attributes(attributes: &Vec<HelperAttributeIr>, found: Option<FoundCrateIr>) -> (context:
        Result<ExpansionContext, String>)
        ensures
            match explicit_facade_index(attributes@) {
                Some(index) => context matches Ok(context) && context.facade == FacadeIr::Explicit(
                    index as usize,
                ),
                None => match (context, found_facade(found)) {
                    (Ok(context), Ok(facade)) => context.facade == facade,
                    (Err(message), Err(expected)) => message@ == expected,
                    _ => false,
                },
            },
    {
        match explicit_facade(attributes) {
            Some(index) => Ok(ExpansionContext { facade: FacadeIr::Explicit(index) }),
            None => Self::from_found_crate(found),
        }
    }

    /// Computes the stable content fingerprint used by fragment identities.
    pub fn fingerprint(&self, source: &str) -> (hash: u64)
        ensures
            hash == fnv_hash(source.spec_bytes()),
    {
        fingerprint(source)
    }
}

/// A normalized enum representation component.
#[derive(Clone, Copy, Debug, PartialEq, Eq, Structural)]
pub enum EnumReprIr {
    Rust,
    C,
    Transparent,
    I8,
    I16,
    I32,
    I64,
    I128,
    Isize,
    U8,
    U16,
    U32,
    U64,
    U128,
    Usize,
    Align(usize),
}

/// The primitive integer spelling of a representation, if it is one.
pub open spec fn repr_integer_name(repr: EnumReprIr) -> Option<Seq<char>> {
    match repr {
        EnumReprIr::I8 => Some("i8"@),
        EnumReprIr::I16 => Some("i16"@),
        EnumReprIr::I32 => Some("i32"@),
        EnumReprIr::I64 => Some("i64"@),
        EnumReprIr::I128 => Some("i128"@),
        EnumReprIr::Isize => Some("isize"@),
        EnumReprIr::U8 => Some("u8"@),
        EnumReprIr::U16 => Some("u16"@),
        EnumReprIr::U32 => Some("u32"@),
        EnumReprIr::U64 => Some("u64"@),
        EnumReprIr::U128 => Some("u128"@),
        EnumReprIr::Usize => Some("usize"@),
        _ => None,
    }
}

impl EnumReprIr {
    /// Returns the primitive integer spelling used for compiler-checked casts.
    pub fn integer_name(&self) -> (name: Option<&'static str>)
        ensures
            match (name, repr_integer_name(*self)) {
                (Some(name), Some(expected)) => name@ == expected,
                (None, None) => true,
                _ => false,
            },
    {
        match self {
            EnumReprIr::I8 => Some("i8"),
            EnumReprIr::I16 => Some("i16"),
            EnumReprIr::I32 => Some("i32"),
            EnumReprIr::I64 => Some("i64"),
            EnumReprIr::I128 => Some("i128"),
            EnumReprIr::Isize => Some("isize"),
            EnumReprIr::U8 => Some("u8"),
            EnumReprIr::U16 => Some("u16"),
            EnumReprIr::U32 => Some("u32"),
            EnumReprIr::U64 => Some("u64"),
            EnumReprIr::U128 => Some("u128"),
            EnumReprIr::Usize => Some("usize"),
            EnumReprIr::Rust | EnumReprIr::C | EnumReprIr::Transparent | EnumReprIr::Align(_) => None,
        }
    }
}

} // verus!

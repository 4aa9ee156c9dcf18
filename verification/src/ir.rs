//! Parser-independent intermediate representation of reflected declarations.
//!
//! Every value is plain data: names are `String`s, source positions are
//! opaque `usize` span handles chosen by the front end, and raw token
//! sequences are kept as [`TokenTreeIr`] trees.

use vstd::prelude::*;

use crate::helper::HelperName;
use crate::helper::HelperTarget;

verus! {

/// The span handle that denotes the macro call site; tokens synthesized by
/// the library carry it.
pub const CALL_SITE_SPAN: usize = 0;

/// The delimiter of a token group.
#[derive(Clone, Copy, Debug, PartialEq, Eq, Structural)]
pub enum DelimiterIr {
    Parenthesis,
    Brace,
    Bracket,
    Invisible,
}

/// One token tree of a raw source token sequence.
#[derive(Debug)]
pub enum TokenTreeIr {
    Ident { name: String, span: usize },
    Punct { ch: char, joint: bool, span: usize },
    Literal { text: String, span: usize },
    Group { delimiter: DelimiterIr, tokens: Vec<TokenTreeIr>, span: usize },
}

/// A Rust path with structured segments and its source tokens.
#[derive(Debug)]
pub struct PathIr {
    /// A normalized diagnostic rendering of the path.
    pub source: String,
    /// Segments in source order.
    pub segments: Vec<PathSegmentIr>,
    /// Whether the path starts with `::`.
    pub leading_colon: bool,
    /// The `<T as Trait>` prefix of a qualified path.
    pub qualified_self: Option<Box<QualifiedSelfIr>>,
    /// The path tokens as written.
    pub tokens: Vec<TokenTreeIr>,
    /// The source span of the path.
    pub span: usize,
}

/// The qualified-self prefix of a path.
#[derive(Debug)]
pub struct QualifiedSelfIr {
    pub ty: TypeIr,
    pub position: usize,
    pub has_as: bool,
}

/// One path segment.
#[derive(Debug)]
pub struct PathSegmentIr {
    pub name: String,
    pub arguments: PathArgumentsIr,
}

/// The generic arguments attached to one path segment.
#[derive(Debug)]
pub enum PathArgumentsIr {
    Empty,
    AngleBracketed(Vec<PathArgumentIr>),
    Parenthesized { inputs: Vec<TypeIr>, output: Option<Box<TypeIr>> },
}

/// One angle-bracketed generic argument.
#[derive(Debug)]
pub enum PathArgumentIr {
    Lifetime(String),
    Type(TypeIr),
    Const(Vec<TokenTreeIr>),
    AssociatedType { name: String, ty: TypeIr },
    AssociatedConst { name: String, value: Vec<TokenTreeIr> },
    Constraint { name: String, bounds: Vec<GenericBoundIr> },
    Other(Vec<TokenTreeIr>),
}

/// A Rust type.
#[derive(Debug)]
pub struct TypeIr {
    /// A normalized diagnostic rendering of the type.
    pub source: String,
    /// The type tokens as written.
    pub tokens: Vec<TokenTreeIr>,
    /// The structural type category.
    pub kind: TypeKindIr,
    /// The source span of the type.
    pub span: usize,
}

/// The structural category of a Rust type.
#[derive(Debug)]
pub enum TypeKindIr {
    Path(PathIr),
    Reference { lifetime: Option<String>, mutable: bool, element: Box<TypeIr> },
    Tuple(Vec<TypeIr>),
    Slice(Box<TypeIr>),
    Array { element: Box<TypeIr>, length: Vec<TokenTreeIr> },
    Pointer { mutable: bool, element: Box<TypeIr> },
    BareFunction {
        lifetimes: Vec<String>,
        inputs: Vec<TypeIr>,
        output: Option<Box<TypeIr>>,
        is_unsafe: bool,
        abi: Option<String>,
        is_variadic: bool,
    },
    TraitObject { bounds: Vec<GenericBoundIr>, has_dyn: bool },
    ImplTrait { bounds: Vec<GenericBoundIr> },
    Never,
    Infer,
    Macro,
    Other,
}

/// A lifetime or trait bound.
#[derive(Debug)]
pub enum GenericBoundIr {
    Lifetime(String),
    Trait { path: PathIr, modifier: TraitBoundModifierIr, lifetimes: Vec<String> },
    Other(Vec<TokenTreeIr>),
}

/// The optionality modifier of a trait bound.
#[derive(Clone, Copy, Debug, PartialEq, Eq, Structural)]
pub enum TraitBoundModifierIr {
    Plain,
    Maybe,
}

/// One parsed helper occurrence, retained separately until duplicate
/// validation.
#[derive(Debug)]
pub struct HelperAttributeIr {
    /// The normalized helper key.
    pub name: HelperName,
    /// The parsed value carried by this occurrence.
    pub value: HelperValueIr,
    /// The declaration element on which the helper appeared.
    pub target: HelperTarget,
    /// The source span used for helper diagnostics.
    pub span: usize,
    /// The helper value span, or the key span for a flag.
    pub value_span: usize,
}

/// The syntax-specific value of a helper occurrence.
#[derive(Debug)]
pub enum HelperValueIr {
    Flag,
    Rename(String),
    Paths(Vec<PathIr>),
    DefaultPath(Option<PathIr>),
    Specialization(SpecializationIr),
    ExternalTraitId(String),
    ExternalTrait(ExternalTraitIr),
    DynCompatible(Vec<PathIr>),
    RuntimeCrate(PathIr),
    /// The identifier that names a requested generic-definition provider.
    DefinitionProvider(String),
}

/// A named concrete specialization before type/const kind resolution.
#[derive(Debug)]
pub struct SpecializationIr {
    /// Named concrete arguments in source order.
    pub bindings: Vec<SpecializationBindingIr>,
    /// The span of the complete specialization list.
    pub span: usize,
}

/// One named specialization argument.
#[derive(Debug)]
pub struct SpecializationBindingIr {
    /// The generic parameter name supplied by the user.
    pub name: String,
    /// The concrete type or const expression.
    pub value: SpecializationValueIr,
    /// The parameter-name span.
    pub span: usize,
    /// The concrete value span.
    pub value_span: usize,
}

/// A specialization right-hand side.
#[derive(Debug)]
pub enum SpecializationValueIr {
    Type(TypeIr),
    Const(Vec<TokenTreeIr>),
    AmbiguousPath(Vec<TokenTreeIr>),
}

/// An external trait path mapped to a stable identity literal.
#[derive(Debug)]
pub struct ExternalTraitIr {
    /// The Rust path of the external trait.
    pub path: PathIr,
    /// The stable external identity literal.
    pub id: String,
    /// The identity literal span.
    pub id_span: usize,
    /// The complete mapping span.
    pub span: usize,
}

/// Selects one of the three reflection macro entry points.
#[derive(Clone, Copy, Debug, PartialEq, Eq, Structural)]
pub enum MacroKind {
    Derive,
    Trait,
    Impl,
}

/// One of the declarations supported by the reflection macros.
#[derive(Debug)]
pub enum DeclarationIr {
    Type(TypeDeclarationIr),
    Trait(TraitDeclarationIr),
    Impl(ImplDeclarationIr),
}

/// A declaration after parsing but before semantic validation.
#[derive(Debug)]
pub struct ParsedDeclaration {
    pub declaration: DeclarationIr,
}

/// A declaration whose locally provable macro invariants have been checked.
#[derive(Debug)]
pub struct ValidatedDeclaration {
    pub declaration: DeclarationIr,
}

/// A struct, enum, or rejected union derive input.
#[derive(Debug)]
pub struct TypeDeclarationIr {
    pub name: String,
    pub kind: TypeDeclarationKindIr,
    pub visibility: VisibilityIr,
    pub generics: GenericsIr,
    pub attributes: Vec<HelperAttributeIr>,
    /// Direct fields of a struct or union.
    pub fields: Vec<FieldIr>,
    /// Variants of an enum.
    pub variants: Vec<VariantIr>,
    pub retained_tokens: Vec<TokenTreeIr>,
    pub span: usize,
}

/// The three data declaration forms.
#[derive(Clone, Copy, Debug, PartialEq, Eq, Structural)]
pub enum TypeDeclarationKindIr {
    Struct,
    Enum,
    Union,
}

/// A field of a struct or enum variant.
#[derive(Debug)]
pub struct FieldIr {
    /// The source field name, or `None` for a tuple field.
    pub name: Option<String>,
    /// The zero-based position in the direct field scope.
    pub index: usize,
    pub visibility: VisibilityIr,
    pub ty: TypeIr,
    pub attributes: Vec<HelperAttributeIr>,
    pub span: usize,
}

/// An enum variant and its direct fields.
#[derive(Debug)]
pub struct VariantIr {
    pub name: String,
    pub index: usize,
    pub kind: VariantKindIr,
    pub fields: Vec<FieldIr>,
    pub attributes: Vec<HelperAttributeIr>,
    pub discriminant: Option<Vec<TokenTreeIr>>,
    pub span: usize,
}

/// The source shape of an enum variant.
#[derive(Clone, Copy, Debug, PartialEq, Eq, Structural)]
pub enum VariantKindIr {
    Unit,
    Tuple,
    Struct,
}

/// A reflected trait declaration.
#[derive(Debug)]
pub struct TraitDeclarationIr {
    pub name: String,
    pub visibility: VisibilityIr,
    pub generics: GenericsIr,
    /// Direct supertrait bounds in source order.
    pub supertraits: Vec<GenericBoundIr>,
    /// Helpers supplied to the outer trait macro.
    pub attributes: Vec<HelperAttributeIr>,
    /// Explicit mappings for external supertraits.
    pub external_traits: Vec<ExternalTraitIr>,
    /// Explicitly declared reflected direct supertraits.
    pub reflected_supertraits: Vec<PathIr>,
    pub methods: Vec<MethodIr>,
    pub associated_types: Vec<AssociatedTypeIr>,
    pub associated_consts: Vec<AssociatedConstIr>,
    /// Whether the trait holds items other than methods, types and consts.
    pub has_other_items: bool,
    pub retained_tokens: Vec<TokenTreeIr>,
    pub span: usize,
}

/// A reflected inherent or trait impl declaration.
#[derive(Debug)]
pub struct ImplDeclarationIr {
    pub generics: GenericsIr,
    pub target_type: TypeIr,
    /// The implemented trait, or `None` for an inherent impl.
    pub trait_path: Option<PathIr>,
    pub attributes: Vec<HelperAttributeIr>,
    /// Concrete impl specializations in source order.
    pub specializations: Vec<SpecializationIr>,
    pub methods: Vec<MethodIr>,
    pub associated_types: Vec<AssociatedTypeIr>,
    pub associated_consts: Vec<AssociatedConstIr>,
    pub retained_tokens: Vec<TokenTreeIr>,
    pub span: usize,
}

/// A method signature and its reflection policies.
#[derive(Debug)]
pub struct MethodIr {
    pub name: String,
    pub visibility: VisibilityIr,
    pub generics: GenericsIr,
    pub receiver: Option<ReceiverIr>,
    pub parameters: Vec<ParameterIr>,
    pub return_type: ReturnTypeIr,
    pub qualifiers: MethodQualifiersIr,
    /// Whether a trait method supplies a default body.
    pub has_default: bool,
    pub attributes: Vec<HelperAttributeIr>,
    /// Concrete method specializations in source order.
    pub specializations: Vec<SpecializationIr>,
    pub span: usize,
}

/// A method receiver.
#[derive(Debug)]
pub struct ReceiverIr {
    pub kind: ReceiverKindIr,
    /// The receiver type (`Self`, `&Self`, or the explicit type).
    pub ty: TypeIr,
    pub declaration: Vec<TokenTreeIr>,
    pub span: usize,
}

/// The receiver forms relevant to adapter selection: `Typed` is a receiver
/// written with an explicit `self: Type`.
#[derive(Clone, Copy, Debug, PartialEq, Eq, Structural)]
pub enum ReceiverKindIr {
    Value,
    SharedReference,
    MutableReference,
    Typed,
}

/// One non-receiver method parameter.
#[derive(Debug)]
pub struct ParameterIr {
    pub name: Option<String>,
    pub pattern: ParameterPatternIr,
    pub ty: TypeIr,
    pub index: usize,
    /// The complete parameter tokens, `pattern: Type`.
    pub declaration: Vec<TokenTreeIr>,
    pub span: usize,
}

/// A method parameter pattern.
#[derive(Debug)]
pub struct ParameterPatternIr {
    pub kind: ParameterPatternKindIr,
    pub source: String,
    pub tokens: Vec<TokenTreeIr>,
}

/// Parameter pattern categories that affect named invocation.
#[derive(Clone, Copy, Debug, PartialEq, Eq, Structural)]
pub enum ParameterPatternKindIr {
    Identifier,
    Wildcard,
    Destructure,
}

/// Method qualifiers.
#[derive(Debug)]
pub struct MethodQualifiersIr {
    pub is_const: bool,
    pub is_async: bool,
    pub is_unsafe: bool,
    pub abi: Option<String>,
    pub is_variadic: bool,
}

/// The return of a method.
#[derive(Debug)]
pub enum ReturnTypeIr {
    Unit,
    Type(TypeIr),
}

/// A trait or impl associated type declaration or binding.
#[derive(Debug)]
pub struct AssociatedTypeIr {
    pub name: String,
    pub generics: GenericsIr,
    pub bounds: Vec<GenericBoundIr>,
    pub value: Option<TypeIr>,
    pub declaration: Vec<TokenTreeIr>,
    pub attributes: Vec<HelperAttributeIr>,
    pub span: usize,
}

/// A trait or impl associated const declaration or binding.
#[derive(Debug)]
pub struct AssociatedConstIr {
    pub name: String,
    pub ty: TypeIr,
    pub value: Option<Vec<TokenTreeIr>>,
    pub declaration: Vec<TokenTreeIr>,
    pub attributes: Vec<HelperAttributeIr>,
    pub span: usize,
}

/// A generic parameter list and its where predicates.
#[derive(Debug)]
pub struct GenericsIr {
    pub params: Vec<GenericParamIr>,
    pub where_predicates: Vec<WherePredicateIr>,
    pub declaration: Vec<TokenTreeIr>,
    pub impl_declaration: Vec<TokenTreeIr>,
    pub arguments: Vec<TokenTreeIr>,
    pub where_clause: Vec<TokenTreeIr>,
}

/// A structured where predicate.
#[derive(Debug)]
pub enum WherePredicateIr {
    Lifetime { lifetime: String, bounds: Vec<String>, declaration: Vec<TokenTreeIr> },
    Type {
        bounded_type: TypeIr,
        lifetimes: Vec<String>,
        bounds: Vec<GenericBoundIr>,
        declaration: Vec<TokenTreeIr>,
    },
    Other(Vec<TokenTreeIr>),
}

/// One lifetime, type, or const generic parameter.
#[derive(Debug)]
pub struct GenericParamIr {
    /// The parameter name without lifetime punctuation.
    pub name: String,
    pub kind: GenericKindIr,
    pub bounds: Vec<GenericBoundIr>,
    pub default: Option<GenericDefaultIr>,
    pub const_type: Option<TypeIr>,
    pub declaration: Vec<TokenTreeIr>,
    pub span: usize,
}

/// A type or const generic default.
#[derive(Debug)]
pub enum GenericDefaultIr {
    Type(TypeIr),
    Const(Vec<TokenTreeIr>),
}

/// The kind of a generic parameter.
#[derive(Clone, Copy, Debug, PartialEq, Eq, Structural)]
pub enum GenericKindIr {
    Lifetime,
    Type,
    Const,
}

/// A normalized source visibility.
#[derive(Debug)]
pub enum VisibilityIr {
    Public,
    Crate,
    Super,
    SelfValue,
    Restricted(PathIr),
    Inherited,
}

} // verus!

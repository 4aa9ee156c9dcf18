//! Verified core of the reflection procedural macros: the helper grammar,
//! the declaration IR, semantic validation, the analyses that decide what
//! reflection code may be generated for a declaration, and the structural
//! runtime models (type expressions, generic definitions, method metadata,
//! const values) that the generated descriptors carry.

pub mod ir;
pub mod text;
pub mod lifetime;
pub mod helper;
pub mod diagnostics;
pub mod validate;
pub mod context;
pub mod record;
pub mod shape;
pub mod generics;
pub mod reflected;
pub mod environment;
pub mod invocation;
pub mod dyn_compatibility;
pub mod associated;
pub mod attributes;
pub mod pipeline;
pub mod substitution;
pub mod member_plan;
pub mod constant;
pub mod representation;
pub mod default_method;
pub mod dyn_bindings;
pub mod specialization;
pub mod assertions;
pub mod token_rewrite;
pub mod trait_payload;
pub mod type_expression;
pub mod generic_definition;
pub mod method_metadata;
pub mod codegen;
pub mod const_codegen;
pub mod construction;
pub mod invocation_adapter;
pub mod variant_access;
pub mod external_trait;
pub mod laws;

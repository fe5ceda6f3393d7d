//! A compiler library for a schema definition language: parsing schema
//! sources, merging them into a package forest, resolving type references,
//! and emitting target-language source text.

pub mod ast;
pub mod codegen;
pub mod kind;
pub mod laws;
pub mod merge;
pub mod parser;
pub mod resolver;
pub mod standard_library;
pub mod text;

pub use ast::ASTBuilder;
pub use resolver::resolve_types;
pub use kind::ResolvedTypeKind;

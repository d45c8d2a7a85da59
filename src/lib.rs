//! Extraction of declarations and best-effort call resolution from single
//! source files, for code-navigation features.
//!
//! A file is parsed with tree-sitter into the library's own `SyntaxNode`
//! tree. The declaration pass builds a tree of `DeclarationNode`s and
//! flattens it into records; the invocation pass walks the syntax tree
//! keeping a `SymbolTable` and resolves each call site into navigation
//! links.
pub mod dto;
pub mod model;
pub mod parser;
pub mod syntax;
pub mod visitor;

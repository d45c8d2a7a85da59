//! The two passes over a syntax tree: declarations, and call resolution.
pub mod declarations;
pub mod flatten;
pub mod symbols;
pub mod java_declaration_visitor;
pub mod java_invocation_visitor;
pub mod python_declaration_visitor;
pub mod python_invocation_visitor;
pub mod js_declaration_visitor;
pub mod js_invocation_visitor;
pub mod cpp_declaration_visitor;
pub mod cpp_invocation_visitor;

//! Records produced by the two passes over a file.
pub mod invocation_structure;
pub mod object_description;
pub mod repository_method_dto;

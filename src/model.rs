//! The declaration tree and each language's declaration-kind codes.
pub mod cpp_object;
pub mod declaration;
pub mod java_object;
pub mod js_object;
pub mod python_object;

//! Safe, owned reflection data for SPIR-V shader modules.
//!
//! A reflection engine decodes a shader binary into a header of interlinked
//! records; this library owns that header, answers queries over it, and
//! rebuilds its descriptor sets, bindings and blocks as owned values.
pub mod convert;
pub mod foreign;
pub mod module;
pub mod result;
pub mod types;

pub use convert::ffi_to_string;
pub use module::{create_shader_module, ShaderModule};

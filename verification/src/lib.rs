//! Reflection of a GLSL shader's external interface.
//!
//! The crate models the parts of a parsed shader that matter for interface
//! reflection (`syntax`), defines the descriptor types a caller consumes
//! (`info`), and proves that one traversal of the model produces exactly the
//! descriptors the classification rules call for (`reflect`). The one
//! unverified boundary is `parse`, where the outside parser is called and
//! its tree is converted into the model.

pub mod info;
pub mod laws;
pub mod parse;
pub mod reflect;
pub mod scan;
pub mod syntax;
pub mod text;

pub use crate::info::BlockInfo;
pub use crate::info::Declaration;
pub use crate::info::FieldInfo;
pub use crate::info::ShaderInfo;
pub use crate::info::VarInfo;
pub use crate::reflect::ParseFailure;
pub use crate::reflect::get_info;
pub use crate::text::pluralise;

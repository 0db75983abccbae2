//! Output buffer layout planning for decoded mesh geometry, and the rules
//! that turn what a decode backend reports into a finished buffer or a
//! failure.

pub mod attribute;
pub mod backend;
pub mod layout;
pub mod module_cache;

pub use attribute::{AttributeDataType, MeshAttribute};
pub use layout::MeshDecodeConfig;

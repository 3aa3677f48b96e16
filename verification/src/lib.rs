//! Rewrites function-shaped UI components of a module tree into classes that
//! extend a runtime base class, and keeps the module's imports in step.
//!
//! The tree is this crate's own plain-data model of a parsed module: it keeps
//! the shapes that the rules read and carries everything else as opaque
//! nodes.

mod text;
pub mod ast;
pub mod marker;
pub mod classify;
pub mod rewrite;
pub mod imports;
pub mod walk;
pub mod transform;
pub mod laws;
pub mod stability;
pub mod settled;

pub use crate::rewrite::{Config, RaskComponentTransform};
pub use crate::transform::process_transform;

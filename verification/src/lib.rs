//! The safe core of a binding to a handle-based native geometry engine.
//!
//! A prepared geometry is a geometry that the engine has indexed once, so that
//! spatial relations against it are tested fast. This crate owns the
//! bookkeeping of such an object: the non-null handle, the shared execution
//! context that every native call needs, the description of each native call,
//! and the reading of what the engine answers. The foreign calls themselves are
//! made by the caller, who hands the engine's answers back as plain values.

pub mod context_handle;
pub mod error;
pub mod functions;
pub mod geometry;
pub mod prepared_geometry;

pub use context_handle::ContextHandle;
pub use error::{Error, GResult, PredicateType};
pub use geometry::Geometry;
pub use prepared_geometry::{DestroyCall, PredicateCall, PrepareCall, PreparedGeometry};

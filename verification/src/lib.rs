//! Typed conversions across the boundary between a natively compiled module
//! and a dynamically typed scripting host.
//!
//! A native value that crosses into the host is seen there as an opaque
//! object. That object answers a well-known accessor with the name of its
//! native type and carries a numeric handle by which the native instance is
//! found again. This crate states, and proves with Verus, the protocol that
//! brings such values back: the checks of a single downcast, the marshalling
//! of whole sequences in both directions, and the decisions taken when the
//! conversions are generated for a type.

pub mod boundary;
pub mod derive;
pub mod downcast;
pub mod error;
pub mod exported;
pub mod number;
pub mod search;
pub mod text;
pub mod tokens;

pub use derive::{derive_try_from_jsvalue, derive_try_js_array_to_vec, derive_try_vec_to_js_array};

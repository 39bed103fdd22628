//! Ffi-safe type erasure: an erased-object container that pairs a pointer with
//! a dispatch table and a type-identity token, and the additive layout
//! mechanism that lets such tables grow trailing fields across versions.

pub mod boxed;
pub mod dyn_trait;
pub mod erased;
pub mod type_layout;
pub mod prefix_type;
pub mod stream;
pub mod vtable;

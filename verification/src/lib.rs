//! Shared ownership of foreign objects that keep their reference counts inside
//! themselves.
//!
//! Such objects come from a native library or runtime with its own functions to
//! count an owner in and out. [`RefCounted`] is what that foreign scheme has to
//! offer, and [`Intrusive`] is the owning handle built on it: it only decides
//! when to count, and leaves the counting and the objects to the foreign code.
//!
//! - `counting`: the capability, its model and its contracts.
//! - `shared`: the handle and its operations.
//! - `laws`: how the operations combine.
//! - `account`: the invariant that keeps every handle live.

pub mod account;
pub mod counting;
pub mod laws;
pub mod shared;

pub use counting::RefCounted;
pub use shared::Intrusive;

//! A local mirror of a package registry's archive store.
//!
//! Given a vendored-dependency tree, the library derives the set of
//! (name, version) package references it holds, computes for each the
//! remote download URL and the local sharded path that registry-aware
//! tooling expects, and aggregates the outcome of mirroring each one.

pub mod address;
pub mod manifest;
pub mod mirror;

pub use address::get_crate_path;
pub use manifest::Crate;

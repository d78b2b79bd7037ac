//! Core of a toolchain manager for JavaScript runtime tooling: the error
//! taxonomy with its exit codes, the on-disk path layout, and the toolchain
//! store that tracks which runtime and package-manager versions are active.

pub mod error;
pub mod path;
pub mod text;
pub mod toolchain;

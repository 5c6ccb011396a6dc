//! Release-automation helpers for font-source projects: canonical project
//! name, font version and locale strings, and a tagged release commit
//! written onto an existing repository's `HEAD`.
pub mod error;
pub mod normalize;
pub mod vcs;
pub mod version;

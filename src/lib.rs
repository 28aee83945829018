//! Resolves how the vendored Lua sources are built for a target: the platform
//! family and preprocessor defines, the compiler flags and source files, the
//! steps that stage the outputs, and the metadata a build pipeline links by.

pub mod artifacts;
pub mod builder;
pub mod config;
pub mod platform;
pub mod text;

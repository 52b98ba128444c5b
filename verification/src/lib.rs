//! Build orchestration core of a multi-distribution package builder.
//!
//! The library holds the recipe model, the image state store, the script
//! runner and the package assembler as pure, verified logic. Everything that
//! talks to a container runtime or to the file system is left to the caller,
//! which feeds the outcome of each action back into the state machines
//! defined here.

pub mod assemble;
pub mod builder;
pub mod codec;
pub mod deb;
pub mod deps;
pub mod error;
pub mod fmt;
pub mod git;
pub mod image;
pub mod metadata;
pub mod recipe;
pub mod rpm;
pub mod rpmspec;
pub mod scripts;
pub mod session;
pub mod state;
pub mod target;
pub mod text;
pub mod value;

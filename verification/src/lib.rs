//! Inspecting a Java archive and launching a Java virtual machine on it.
//!
//! The crate holds the decisions of a launcher and proves them: whether an
//! archive holds a class, which argument vector a launch uses, and what a
//! process's exit status means. Reading files and spawning processes is left
//! to the caller.

pub mod archive;
pub mod failure;
pub mod launcher;
pub mod path;
pub mod text;

//! Configuration document builder: assembles project descriptors, linker
//! directive manifests and package-source configuration as text, from a
//! component name, a world name and a small set of options, and plans their
//! all-or-nothing emission into an output directory.

pub mod errors;
pub mod ident;
pub mod options;
pub mod target;
pub mod artifact;
pub mod assemble;
pub mod emit;
pub mod project;

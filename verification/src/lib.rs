//! The core of a tool that scaffolds and maintains problem packages for
//! competitive programming: a directory of sources, solutions, testcases and
//! texts, indexed by one manifest file.
//!
//! The library decides and the caller acts. It holds the manifest model, the
//! layout of a package, the rules by which artifacts are registered and
//! unregistered, and the steps of the transaction that keeps the manifest and
//! the files in line. It opens no file: whoever drives it reads the manifest,
//! carries out the file operations it asks for, and writes the manifest back.

pub mod cli;
pub mod error;
pub mod layout;
pub mod manifest;
pub mod names;
pub mod package;
pub mod paths;
pub mod sequences;
pub mod solution;
pub mod source;
pub mod text;
pub mod transaction;

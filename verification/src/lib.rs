//! License-file generation for a package: locating the manifest, reading the
//! package metadata out of it, rendering the license text, and rewriting the
//! manifest so that it points at the generated file.

pub mod document;
pub mod error;
pub mod files;
pub mod metadata;
pub mod render;
pub mod run;
pub mod text;
pub mod update;

//! Targeted, order-preserving edits of a package manifest.
//!
//! Two edits matter to a packager who builds for one platform: folding the
//! platform-conditional dependencies into the manifest's own lists where
//! the condition holds of that platform, and setting the version of a named
//! dependency. Both are functions of the manifest alone, and both are
//! verified here against a mathematical model of the manifest.
//!
//! - [`eval`] decides whether a target specifier holds of the reference
//!   platform, a generic Linux. This is the core: a total evaluator for
//!   `cfg(..)` expressions over two fixed tables.
//! - [`laws`] states what holds of every evaluation.
//! - [`manifest`] holds the manifest and its parts, [`normalize`],
//!   [`version`] and [`features`] the edits.
//! - [`document`] handles the text around the manifest in a file.
//! - [`ordered`] is the boundary to `indexmap`, [`text`] and [`seqs`] hold
//!   what the other modules share.
//!
//! Reading and writing files, and the `serde` forms of the types, are left
//! to the program that uses this library.

pub mod document;
pub mod eval;
pub mod features;
pub mod laws;
pub mod manifest;
pub mod normalize;
pub mod ordered;
pub mod seqs;
pub mod text;
pub mod version;

//! Generator for Dart model boilerplate.
//!
//! The library scans the text of a Dart source unit for annotated abstract
//! class declarations, resolves each declared getter's type text into a
//! closed type model, and renders a concrete companion class for every
//! recognized declaration: constructor, JSON decode/encode, `copyWith`,
//! `toString`, structural equality and a combined hash.
//!
//! All stages are pure functions of the input text; their behaviour is
//! stated against specification-level models of the parsed classes.

pub mod decl;
pub mod emit;
pub mod file;
pub mod laws;
pub mod model;
pub mod options;
pub mod text;
pub mod types;

//! Serialises an in-memory bibliography into BibLaTeX entry blocks.
//!
//! Every formatting step is stated as a spec function over character
//! sequences, and each executable function is proved to produce exactly
//! that text.
mod text;

pub mod date;
pub mod escape;
pub mod export;
pub mod fields;
pub mod kind;
pub mod model;
pub mod person;

pub use escape::escape_latex;
pub use export::export_to_biblatex;
pub use model::{Entry, EntryType, Library, PartialDate, Person, Publisher};

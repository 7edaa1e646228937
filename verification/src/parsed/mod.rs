//! Tags parsed without splitting their arguments.
pub mod element;

pub use element::{ArgumentsStr, ParsedDefinition, ParsedElement, ParsedTagClose, ParsedTagOpen};

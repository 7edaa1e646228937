//! Lexing and parsing of MXP tag bodies.
pub mod error;
pub mod error_kind;

pub use error::{Error, FromStrError, UnrecognizedVariant};
pub use error_kind::ErrorKind;
pub mod validation;

pub use validation::{count_bytes, is_valid, validate, validate_utf8};
pub mod decoder;

pub use decoder::Decoder;
pub mod words;

pub use words::{WordArguments, Words};
pub mod argument_parser;

pub use argument_parser::ArgumentParser;
pub mod arguments;

pub use arguments::Arguments;
pub mod matcher;

pub use matcher::ArgumentMatcher;
pub mod scan;

pub use scan::{OwnedScan, Scan};
pub mod cleanup;
pub mod into_owned_string;

pub use cleanup::{cleanup_source, parse_element};
pub use into_owned_string::IntoOwnedString;

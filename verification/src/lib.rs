//! Parsing and state management for the MUD eXtension Protocol (MXP).
pub mod color;
pub mod element;
pub mod entity;
pub mod escape;
pub mod line;
pub mod node;
pub mod parse;
pub mod parsed;
pub mod state;
pub mod text;

pub use color::RgbColor;
pub use entity::Entity;
pub use line::{LineTagProperties, Mode, ModeRangeError, ModeState, ParseAs};
pub use parse::{is_valid, validate, validate_utf8, Decoder, Error, ErrorKind};
pub use state::{Component, State};

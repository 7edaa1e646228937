//! MXP entities: server-defined variables and global XML entities.
pub mod keyword;
pub mod visibility;

pub use keyword::{EntityKeyword, EntityKeywords};
pub use visibility::EntityVisibility;
pub mod entity;

pub use entity::Entity;
pub mod decoded;

pub use decoded::DecodedEntity;
pub mod map;

pub use map::{EntityEntry, EntityInfo, EntityMap};
pub mod scanning;

pub use scanning::{
    AfkArgs, ArgumentScanner, ColorArgs, FgColor, FontArgs, FontEffect, FontStyle, HyperlinkArgs,
    ImageArgs, SendArgs, SendTo, VarArgs, XchMode,
};
pub mod error;
pub mod mode;

pub use error::ParseError;
pub mod screen;

pub use screen::{Align, Dimension, DimensionUnit};
pub mod sound;

pub use sound::{AudioContinuation, AudioRepetition, Music, Sound};
pub mod image;

pub use image::Image;
pub mod action;

pub use action::Action;

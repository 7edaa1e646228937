//! Typed representations of parsed MXP strings.
pub mod builder;
pub mod definition;
pub mod element_definition;
pub mod tag;

pub use builder::{BuiltTag, TagBuilder};
pub use definition::{AttributeListDefinition, EntityDefinition, LineTagDefinition};
pub use element_definition::ElementDefinition;
pub use tag::{Definition, DefinitionKind, Tag, TagClose, TagOpen, TryFromNodeError};

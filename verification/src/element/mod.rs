//! Atomic MXP tags and user-defined elements.
pub mod action;
pub mod atom;
pub mod item;

pub use action::{ActionType, Heading};
pub use atom::{Atom, TagFlag, TagFlags};
pub use item::ElementItem;
pub mod element;

pub use element::Element;
pub mod collected;

pub use collected::CollectedElement;

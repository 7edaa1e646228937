//! Line modes and line tags.
pub mod mode;
pub mod state;
pub mod tag;
pub mod tags;

pub use mode::{Mode, ModeRangeError, ParseAs};
pub use state::ModeState;
pub use tag::{LineTag, LineTagProperties};
pub use tags::LineTags;

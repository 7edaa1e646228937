use vstd::prelude::*;

use super::keyword::{EntityKeyword, EntityKeywords};

verus! {

/// Visibility of an entity to the client.
#[derive(Copy, Clone, Debug, Default, PartialEq, Eq, Structural)]
pub enum EntityVisibility {
    /// By default, MXP entities can be queried, but are not listed.
    #[default]
    Default,
    /// Private entities cannot be queried by the MUD client. They are completely hidden.
    Private,
    /// Published entities can be used by the client to produce a list of MUD Server variables
    /// to be accessed by the player.
    Publish,
}

/// The visibility that a set of definition keywords asks for: PRIVATE wins over PUBLISH.
pub open spec fn visibility_of(k: EntityKeywords) -> EntityVisibility {
    if k.has(EntityKeyword::Private) {
        EntityVisibility::Private
    } else if k.has(EntityKeyword::Publish) {
        EntityVisibility::Publish
    } else {
        EntityVisibility::Default
    }
}

impl EntityVisibility {
    /// The visibility that a set of definition keywords asks for.
    pub fn from_keywords(value: EntityKeywords) -> (r: Self)
        ensures
            r == visibility_of(value),
    {
        if value.contains(EntityKeyword::Private) {
            EntityVisibility::Private
        } else if value.contains(EntityKeyword::Publish) {
            EntityVisibility::Publish
        } else {
            EntityVisibility::Default
        }
    }
}

} // verus!

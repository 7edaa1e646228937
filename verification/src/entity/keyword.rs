use vstd::prelude::*;

use crate::text::{eq_ignore_case, str_eq_ignore_case};

verus! {

/// Keywords for `<!ENTITY>` definitions.
#[derive(Copy, Clone, Debug, PartialEq, Eq, Structural)]
pub enum EntityKeyword {
    /// PRIVATE entities cannot be queried by the MUD client. They are completely hidden.
    Private,
    /// PUBLISH entities can be used by the client to produce a list of MUD Server variables to be
    /// accessed by the player.
    Publish,
    /// To delete an entity, use the DELETE argument. Setting an entity to an empty value does not
    /// delete it.
    Delete,
    /// The ADD argument causes the value to be added as a new item in a string list, separated by
    /// `'|'`.
    Add,
    /// The REMOVE argument causes the value to be removed from the existing string list.
    Remove,
}

/// The keyword that a word names, compared without regard to ASCII case.
pub open spec fn entity_keyword_of(s: Seq<char>) -> Option<EntityKeyword> {
    if eq_ignore_case(s, "private"@) {
        Some(EntityKeyword::Private)
    } else if eq_ignore_case(s, "publish"@) {
        Some(EntityKeyword::Publish)
    } else if eq_ignore_case(s, "delete"@) {
        Some(EntityKeyword::Delete)
    } else if eq_ignore_case(s, "add"@) {
        Some(EntityKeyword::Add)
    } else if eq_ignore_case(s, "remove"@) {
        Some(EntityKeyword::Remove)
    } else {
        None
    }
}

/// The upper-case name of a keyword, as it is written in a definition.
pub open spec fn entity_keyword_name(k: EntityKeyword) -> Seq<char> {
    match k {
        EntityKeyword::Private => "PRIVATE"@,
        EntityKeyword::Publish => "PUBLISH"@,
        EntityKeyword::Delete => "DELETE"@,
        EntityKeyword::Add => "ADD"@,
        EntityKeyword::Remove => "REMOVE"@,
    }
}

impl EntityKeyword {
    /// Parses a keyword, ignoring ASCII case.
    pub fn parse(s: &str) -> (r: Option<EntityKeyword>)
        ensures
            r == entity_keyword_of(s@),
    {
        if str_eq_ignore_case(s, "private") {
            Some(EntityKeyword::Private)
        } else if str_eq_ignore_case(s, "publish") {
            Some(EntityKeyword::Publish)
        } else if str_eq_ignore_case(s, "delete") {
            Some(EntityKeyword::Delete)
        } else if str_eq_ignore_case(s, "add") {
            Some(EntityKeyword::Add)
        } else if str_eq_ignore_case(s, "remove") {
            Some(EntityKeyword::Remove)
        } else {
            None
        }
    }

    /// The upper-case name of the keyword.
    pub fn name(self) -> (r: &'static str)
        ensures
            r@ == entity_keyword_name(self),
    {
        match self {
            EntityKeyword::Private => "PRIVATE",
            EntityKeyword::Publish => "PUBLISH",
            EntityKeyword::Delete => "DELETE",
            EntityKeyword::Add => "ADD",
            EntityKeyword::Remove => "REMOVE",
        }
    }
}

/// A set of [`EntityKeyword`]s.
#[derive(Copy, Clone, Debug, Default, PartialEq, Eq, Structural)]
pub struct EntityKeywords {
    /// Holds [`EntityKeyword::Private`].
    pub private: bool,
    /// Holds [`EntityKeyword::Publish`].
    pub publish: bool,
    /// Holds [`EntityKeyword::Delete`].
    pub delete: bool,
    /// Holds [`EntityKeyword::Add`].
    pub add: bool,
    /// Holds [`EntityKeyword::Remove`].
    pub remove: bool,
}

impl EntityKeywords {
    /// Whether the set holds a keyword.
    pub open spec fn has(self, k: EntityKeyword) -> bool {
        match k {
            EntityKeyword::Private => self.private,
            EntityKeyword::Publish => self.publish,
            EntityKeyword::Delete => self.delete,
            EntityKeyword::Add => self.add,
            EntityKeyword::Remove => self.remove,
        }
    }

    /// The empty set.
    pub fn empty() -> (r: Self)
        ensures
            forall|k: EntityKeyword| !r.has(k),
    {
        EntityKeywords { private: false, publish: false, delete: false, add: false, remove: false }
    }

    /// The set holding exactly one keyword.
    pub fn only(k: EntityKeyword) -> (r: Self)
        ensures
            forall|j: EntityKeyword| r.has(j) <==> j == k,
    {
        let mut r = Self::empty();
        r.insert(k);
        r
    }

    /// Returns `true` if the set holds the keyword.
    pub fn contains(&self, k: EntityKeyword) -> (r: bool)
        ensures
            r == self.has(k),
    {
        match k {
            EntityKeyword::Private => self.private,
            EntityKeyword::Publish => self.publish,
            EntityKeyword::Delete => self.delete,
            EntityKeyword::Add => self.add,
            EntityKeyword::Remove => self.remove,
        }
    }

    /// Adds a keyword to the set.
    pub fn insert(&mut self, k: EntityKeyword)
        ensures
            forall|j: EntityKeyword| final(self).has(j) <==> (old(self).has(j) || j == k),
    {
        match k {
            EntityKeyword::Private => self.private = true,
            EntityKeyword::Publish => self.publish = true,
            EntityKeyword::Delete => self.delete = true,
            EntityKeyword::Add => self.add = true,
            EntityKeyword::Remove => self.remove = true,
        }
    }

    /// The union of two sets.
    pub fn union(self, other: Self) -> (r: Self)
        ensures
            forall|j: EntityKeyword| r.has(j) <==> (self.has(j) || other.has(j)),
    {
        EntityKeywords {
            private: self.private || other.private,
            publish: self.publish || other.publish,
            delete: self.delete || other.delete,
            add: self.add || other.add,
            remove: self.remove || other.remove,
        }
    }

    /// Returns `true` if the set holds no keyword.
    pub fn is_empty(&self) -> (r: bool)
        ensures
            r == (forall|j: EntityKeyword| !self.has(j)),
    {
        let r = !(self.private || self.publish || self.delete || self.add || self.remove);
        proof {
            if !r {
                if self.private { assert(self.has(EntityKeyword::Private)); }
                if self.publish { assert(self.has(EntityKeyword::Publish)); }
                if self.delete { assert(self.has(EntityKeyword::Delete)); }
                if self.add { assert(self.has(EntityKeyword::Add)); }
                if self.remove { assert(self.has(EntityKeyword::Remove)); }
            }
        }
        r
    }
}

} // verus!

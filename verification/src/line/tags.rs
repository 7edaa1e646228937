use vstd::prelude::*;

use super::mode::mode_is_user_defined;
use super::tag::{apply_definition, default_properties, LineTagProperties, PropertiesView};
use crate::node::definition::{LineTagDefinition, LineTagView};
use crate::parse::error::Error;
use crate::parse::error_kind::ErrorKind;
use crate::text::{decimal_string, decimal_text};

verus! {

/// The element and properties of one user-defined line tag.
pub struct Line {
    /// Name of the element associated with the tag.
    pub element: String,
    /// Properties of the tag.
    pub properties: LineTagProperties,
}

/// The view of one line tag: its element name and properties.
pub open spec fn line_view(l: Line) -> (Seq<char>, PropertiesView) {
    (l.element@, l.properties@)
}

/// A line tag that nothing has set.
pub open spec fn default_line() -> (Seq<char>, PropertiesView) {
    (Seq::empty(), default_properties())
}

/// The tags padded with unset tags up to length `n`.
pub open spec fn pad_lines(s: Seq<(Seq<char>, PropertiesView)>, n: int) -> Seq<(Seq<char>, PropertiesView)> {
    if s.len() >= n {
        s
    } else {
        s + Seq::new((n - s.len()) as nat, |i: int| default_line())
    }
}

/// The tags after `set(mode, element)`: for a user-defined mode, its tag gets the element and
/// is enabled; any other mode changes nothing.
pub open spec fn set_lines(s: Seq<(Seq<char>, PropertiesView)>, mode: int, element: Seq<char>) -> Seq<
    (Seq<char>, PropertiesView),
> {
    if 20 <= mode <= 99 {
        let i = mode - 20;
        let p = pad_lines(s, i + 1);
        p.update(i, (element, PropertiesView { enable: true, ..p[i].1 }))
    } else {
        s
    }
}

/// The tags after a line tag definition is applied to the tag it names.
pub open spec fn update_lines(s: Seq<(Seq<char>, PropertiesView)>, d: crate::node::definition::LineTagView) -> Seq<
    (Seq<char>, PropertiesView),
> {
    let i = d.index - 20;
    let p = pad_lines(s, i + 1);
    p.update(i, (p[i].0, apply_definition(p[i].1, d)))
}

/// The user-defined line tags, by mode.
pub struct LineTags {
    base: Vec<Line>,
}

impl View for LineTags {
    type V = Seq<(Seq<char>, PropertiesView)>;

    closed spec fn view(&self) -> Seq<(Seq<char>, PropertiesView)> {
        self.base@.map_values(|l: Line| line_view(l))
    }
}

impl LineTags {
    /// No line tags.
    pub fn new() -> (r: Self)
        ensures
            r@ == Seq::<(Seq<char>, PropertiesView)>::empty(),
    {
        let r = LineTags { base: Vec::new() };
        assert(r@ =~= Seq::<(Seq<char>, PropertiesView)>::empty());
        r
    }

    /// Removes all line tags.
    pub fn clear(&mut self)
        ensures
            final(self)@ == Seq::<(Seq<char>, PropertiesView)>::empty(),
    {
        self.base = Vec::new();
        assert(self@ =~= Seq::<(Seq<char>, PropertiesView)>::empty());
    }

    /// The element name and properties of the tag for a mode, if it has been set.
    pub fn get(&self, mode: usize) -> (r: Option<(&str, &LineTagProperties)>)
        ensures
            (20 <= mode && mode - 20 < self@.len()) ==> (r matches Some((e, p)) && e@ == self@[mode
                - 20].0 && p@ == self@[mode - 20].1),
            !(20 <= mode && mode - 20 < self@.len()) ==> r is None,
    {
        if mode < 20 || mode - 20 >= self.base.len() {
            return None;
        }
        let line = &self.base[mode - 20];
        Some((line.element.as_str(), &line.properties))
    }

    fn pad(&mut self, n: usize)
        ensures
            final(self)@ == pad_lines(old(self)@, n as int),
            final(self).base@.len() >= n,
    {
        let ghost s0 = self@;
        while self.base.len() < n
            invariant
                s0.len() <= self@.len(),
                self@.len() <= n || self@.len() == s0.len(),
                self@ == (if s0.len() >= self@.len() {
                    s0
                } else {
                    s0 + Seq::new((self@.len() - s0.len()) as nat, |i: int| default_line())
                }),
            decreases n - self.base@.len(),
        {
            let ghost before = self@;
            self.base.push(Line { element: String::new(), properties: LineTagProperties::default() });
            assert(self@ =~= before.push(default_line()));
            assert(self@ =~= s0 + Seq::new((self@.len() - s0.len()) as nat, |i: int| default_line()));
        }
        proof {
            if s0.len() >= n {
                assert(self@ == s0);
            } else {
                assert(self@.len() == n);
            }
        }
    }

    /// Associates an element with a user-defined line tag and enables the tag. Modes that are
    /// not user-defined are ignored.
    pub fn set(&mut self, mode: usize, element: String)
        ensures
            final(self)@ == set_lines(old(self)@, mode as int, element@),
    {
        if mode > 99 || mode < 20 {
            return;
        }
        let i = mode - 20;
        self.pad(i + 1);
        let ghost padded = self@;
        let mut line = self.base.remove(i);
        line.element = element;
        line.properties.enable = true;
        self.base.insert(i, line);
        assert(self@ =~= padded.update(
            i as int,
            (element@, PropertiesView { enable: true, ..padded[i as int].1 }),
        ));
    }

    /// Applies a line tag definition to the tag it names. Fails, changing nothing, if the tag is
    /// not user-defined.
    pub fn update(&mut self, update: LineTagDefinition) -> (r: Result<(), Error>)
        ensures
            mode_is_user_defined(update.index.0) ==> r is Ok && final(self)@ == update_lines(
                old(self)@,
                update@,
            ),
            !mode_is_user_defined(update.index.0) ==> (r matches Err(e) && e@ == (
                ErrorKind::IllegalLineTag,
                decimal_text(update.index.0 as nat),
            ) && final(self)@ == old(self)@),
    {
        if update.index.0 > 99 || update.index.0 < 20 {
            return Err(Error::from_string(decimal_string(update.index.0 as u32), ErrorKind::IllegalLineTag));
        }
        let i = (update.index.0 - 20) as usize;
        self.pad(i + 1);
        let ghost padded = self@;
        let mut line = self.base.remove(i);
        line.properties.apply(update);
        self.base.insert(i, line);
        assert(self@ =~= padded.update(
            i as int,
            (padded[i as int].0, apply_definition(padded[i as int].1, update@)),
        ));
        Ok(())
    }
}

/// After a line tag definition is applied, its tag keeps its element and has the properties
/// that applying the definition to the tag's old properties (the defaults, for a tag that
/// was never set) gives; every other tag is as it was.
pub proof fn law_update_then_get(s: Seq<(Seq<char>, PropertiesView)>, d: LineTagView, other: int)
    requires
        20 <= d.index <= 99,
    ensures
        update_lines(s, d).len() > d.index - 20,
        update_lines(s, d)[d.index - 20] == (if d.index - 20 < s.len() {
            (s[d.index - 20].0, apply_definition(s[d.index - 20].1, d))
        } else {
            (Seq::<char>::empty(), apply_definition(default_properties(), d))
        }),
        0 <= other < s.len() && other != d.index - 20 ==> update_lines(s, d)[other] == s[other],
{
}

/// Setting a tag's element leaves every other tag as it was.
pub proof fn law_set_is_local(s: Seq<(Seq<char>, PropertiesView)>, mode: int, element: Seq<char>, other: int)
    requires
        0 <= other < s.len(),
        other != mode - 20,
    ensures
        set_lines(s, mode, element)[other] == s[other],
{
}

/// After a tag's element is set, that tag holds the element and is enabled.
pub proof fn law_set_then_get(s: Seq<(Seq<char>, PropertiesView)>, mode: int, element: Seq<char>)
    requires
        20 <= mode <= 99,
    ensures
        set_lines(s, mode, element).len() > mode - 20,
        set_lines(s, mode, element)[mode - 20].0 == element,
        set_lines(s, mode, element)[mode - 20].1.enable,
{
}

} // verus!

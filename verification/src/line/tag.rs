use vstd::prelude::*;

use crate::color::{color_text, RgbColor};
use crate::element::element::{element_view, Element, ElementView};
use crate::node::definition::{LineTagDefinition, LineTagView};
use crate::text::push_str;

verus! {

/// The view of line tag properties.
pub struct PropertiesView {
    /// Window that output is redirected to.
    pub window: Option<Seq<char>>,
    /// Foreground color override.
    pub fore: Option<RgbColor>,
    /// Background color override.
    pub back: Option<RgbColor>,
    /// Whether output is suppressed in the main window.
    pub gag: bool,
    /// Whether the tag is in use.
    pub enable: bool,
}

/// The properties of a line tag that nothing has changed.
pub open spec fn default_properties() -> PropertiesView {
    PropertiesView { window: None, fore: None, back: None, gag: false, enable: false }
}

/// The properties after a line tag definition is applied: each property that the definition
/// gives replaces the old one.
pub open spec fn apply_definition(p: PropertiesView, d: LineTagView) -> PropertiesView {
    PropertiesView {
        window: match d.window {
            Some(w) => Some(w),
            None => p.window,
        },
        fore: match d.fore {
            Some(c) => Some(c),
            None => p.fore,
        },
        back: match d.back {
            Some(c) => Some(c),
            None => p.back,
        },
        gag: match d.gag {
            Some(g) => g,
            None => p.gag,
        },
        enable: match d.enable {
            Some(e) => e,
            None => p.enable,
        },
    }
}

/// Applying a line tag definition sets each property that the definition gives to the given
/// value, and keeps each property that it does not give.
pub proof fn law_apply_sets_given(p: PropertiesView, d: LineTagView)
    ensures
        d.window matches Some(w) ==> apply_definition(p, d).window == Some(w),
        d.window is None ==> apply_definition(p, d).window == p.window,
        d.fore matches Some(c) ==> apply_definition(p, d).fore == Some(c),
        d.fore is None ==> apply_definition(p, d).fore == p.fore,
        d.back matches Some(c) ==> apply_definition(p, d).back == Some(c),
        d.back is None ==> apply_definition(p, d).back == p.back,
        d.gag matches Some(g) ==> apply_definition(p, d).gag == g,
        d.gag is None ==> apply_definition(p, d).gag == p.gag,
        d.enable matches Some(e) ==> apply_definition(p, d).enable == e,
        d.enable is None ==> apply_definition(p, d).enable == p.enable,
{
}

/// How line tag properties are written: the properties that differ from the default, each
/// after a space but the first.
pub open spec fn properties_text(p: PropertiesView) -> Seq<char> {
    let parts: Seq<Seq<char>> = match p.window {
        Some(w) => seq!["WINDOWNAME=\""@ + w + "\""@],
        None => Seq::empty(),
    } + match p.fore {
        Some(c) => seq!["FORE="@ + color_text(c)],
        None => Seq::empty(),
    } + match p.back {
        Some(c) => seq!["BACK="@ + color_text(c)],
        None => Seq::empty(),
    } + if p.gag {
        seq!["GAG"@]
    } else {
        Seq::empty()
    } + if !p.enable {
        seq!["DISABLE"@]
    } else {
        Seq::empty()
    };
    join_spaced(parts)
}

/// The parts joined with a space between each two.
pub open spec fn join_spaced(parts: Seq<Seq<char>>) -> Seq<char>
    decreases parts.len(),
{
    if parts.len() == 0 {
        Seq::empty()
    } else if parts.len() == 1 {
        parts[0]
    } else {
        join_spaced(parts.drop_last()) + seq![' '] + parts.last()
    }
}

/// [`LineTagProperties`] for a line mode, as well as an [`Element`] if one is associated with
/// the current user-defined line mode.
#[derive(Clone, Copy, Debug, PartialEq, Eq)]
pub struct LineTag<'a> {
    /// The element associated with the line tag, if it is defined.
    pub element: Option<&'a Element>,
    /// Properties of the line tag.
    pub properties: &'a LineTagProperties,
}

/// The view of a line tag: its element, if any, and its properties.
pub open spec fn line_tag_view(t: LineTag) -> (Option<ElementView>, PropertiesView) {
    (
        match t.element {
            Some(e) => Some(element_view(*e)),
            None => None,
        },
        t.properties@,
    )
}

/// Properties defined for a line tag.
///
/// See MXP specification: Line Tags.
#[derive(Clone, Debug, PartialEq, Eq)]
pub struct LineTagProperties {
    /// Redirect output to another window.
    pub window: Option<String>,
    /// Override foreground color.
    pub fore: Option<RgbColor>,
    /// Override background color.
    pub back: Option<RgbColor>,
    /// Suppress output in main window.
    pub gag: bool,
    /// Use this tag.
    pub enable: bool,
}

impl View for LineTagProperties {
    type V = PropertiesView;

    open spec fn view(&self) -> PropertiesView {
        PropertiesView {
            window: match self.window {
                Some(w) => Some(w@),
                None => None,
            },
            fore: self.fore,
            back: self.back,
            gag: self.gag,
            enable: self.enable,
        }
    }
}

impl Default for LineTagProperties {
    fn default() -> (r: Self)
        ensures
            r@ == default_properties(),
    {
        LineTagProperties { window: None, fore: None, back: None, gag: false, enable: false }
    }
}

impl LineTagProperties {
    /// Applies a line tag definition: each property that it gives replaces the old one.
    pub fn apply(&mut self, definition: LineTagDefinition)
        ensures
            final(self)@ == apply_definition(old(self)@, definition@),
    {
        match definition.enable {
            Some(enable) => self.enable = enable,
            None => {},
        }
        match definition.fore {
            Some(fore) => self.fore = Some(fore),
            None => {},
        }
        match definition.back {
            Some(back) => self.back = Some(back),
            None => {},
        }
        match definition.gag {
            Some(gag) => self.gag = gag,
            None => {},
        }
        match definition.window {
            Some(window) => self.window = Some(window.to_owned()),
            None => {},
        }
    }

    /// The properties as MXP writes them.
    pub fn to_string(&self) -> (r: String)
        ensures
            r@ == properties_text(self@),
    {
        let mut parts: Vec<String> = Vec::new();
        match &self.window {
            Some(w) => {
                let mut t = String::new();
                push_str(&mut t, "WINDOWNAME=\"");
                push_str(&mut t, w.as_str());
                push_str(&mut t, "\"");
                parts.push(t);
            },
            None => {},
        }
        match self.fore {
            Some(c) => {
                let mut t = String::new();
                push_str(&mut t, "FORE=");
                push_str(&mut t, c.to_string().as_str());
                parts.push(t);
            },
            None => {},
        }
        match self.back {
            Some(c) => {
                let mut t = String::new();
                push_str(&mut t, "BACK=");
                push_str(&mut t, c.to_string().as_str());
                parts.push(t);
            },
            None => {},
        }
        if self.gag {
            let mut t = String::new();
            push_str(&mut t, "GAG");
            parts.push(t);
        }
        if !self.enable {
            let mut t = String::new();
            push_str(&mut t, "DISABLE");
            parts.push(t);
        }
        proof {
            reveal_strlit("WINDOWNAME=\"");
            reveal_strlit("\"");
            reveal_strlit("FORE=");
            reveal_strlit("BACK=");
            reveal_strlit("GAG");
            reveal_strlit("DISABLE");
            let p = self@;
            let expected: Seq<Seq<char>> = match p.window {
                Some(w) => seq!["WINDOWNAME=\""@ + w + "\""@],
                None => Seq::empty(),
            } + match p.fore {
                Some(c) => seq!["FORE="@ + color_text(c)],
                None => Seq::empty(),
            } + match p.back {
                Some(c) => seq!["BACK="@ + color_text(c)],
                None => Seq::empty(),
            } + if p.gag {
                seq!["GAG"@]
            } else {
                Seq::empty()
            } + if !p.enable {
                seq!["DISABLE"@]
            } else {
                Seq::empty()
            };
            assert(parts@.map_values(|t: String| t@) =~= expected);
        }
        join_with_spaces(&parts)
    }
}

fn join_with_spaces(parts: &Vec<String>) -> (r: String)
    ensures
        r@ == join_spaced(parts@.map_values(|t: String| t@)),
{
    let mut s = String::new();
    let mut i: usize = 0;
    while i < parts.len()
        invariant
            i <= parts@.len(),
            s@ == join_spaced(parts@.map_values(|t: String| t@).take(i as int)),
        decreases parts@.len() - i,
    {
        let ghost before = parts@.map_values(|t: String| t@).take(i as int);
        let ghost after = parts@.map_values(|t: String| t@).take(i + 1);
        assert(after.drop_last() =~= before);
        if i > 0 {
            push_str(&mut s, " ");
            proof {
                reveal_strlit(" ");
            }
        }
        push_str(&mut s, parts[i].as_str());
        proof {
            if i == 0 {
                assert(s@ =~= join_spaced(after));
            } else {
                assert(s@ =~= join_spaced(after));
            }
        }
        i += 1;
    }
    assert(parts@.map_values(|t: String| t@).take(parts@.len() as int) =~= parts@.map_values(
        |t: String| t@,
    ));
    s
}

} // verus!

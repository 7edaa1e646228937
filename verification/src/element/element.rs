use vstd::prelude::*;

use super::atom::{AtomView, TagFlags};
use super::item::{item_view, ElementItem};
use crate::line::mode::{Mode, ParseAs};
use crate::text::{decimal_string, decimal_text, push_char, push_str};

verus! {

/// The view of a user-defined element.
pub struct ElementView {
    /// Tag name.
    pub name: Seq<char>,
    /// Whether the element is open (`OPEN`).
    pub open: bool,
    /// Whether the element has no closing tag (`EMPTY`).
    pub command: bool,
    /// The atomic tags it stands for, with the text of their arguments.
    pub items: Seq<(AtomView, Seq<char>)>,
    /// Text of the attribute list (`ATT=`).
    pub attributes: Seq<char>,
    /// Line tag number (`TAG=`).
    pub line_tag: Option<u8>,
    /// How an automapper parses the element's text (`FLAG=`).
    pub parse_as: Option<ParseAs>,
    /// Which variable the element's text sets (`FLAG="SET x"`).
    pub variable: Option<Seq<char>>,
}

/// An item as a definition writes it: `<name arguments>`, or `<name>` without arguments.
pub open spec fn item_text(item: (AtomView, Seq<char>)) -> Seq<char> {
    if item.1.len() == 0 {
        seq!['<'] + item.0.name + seq!['>']
    } else {
        seq!['<'] + item.0.name + seq![' '] + item.1 + seq!['>']
    }
}

/// The items as a definition writes them, one after another.
pub open spec fn items_text(items: Seq<(AtomView, Seq<char>)>) -> Seq<char>
    decreases items.len(),
{
    if items.len() == 0 {
        Seq::empty()
    } else {
        items_text(items.drop_last()) + item_text(items.last())
    }
}

/// The name that a `FLAG=` argument gives for how an automapper parses text.
pub open spec fn parse_as_text(p: ParseAs) -> Seq<char> {
    match p {
        ParseAs::RoomName => "RoomName"@,
        ParseAs::RoomDesc => "RoomDesc"@,
        ParseAs::RoomExit => "RoomExit"@,
    }
}

/// The attribute list of an element's definition: ` ATT='..'`, if it has one.
pub open spec fn attributes_text(e: ElementView) -> Seq<char> {
    if e.attributes.len() > 0 {
        " ATT='"@ + e.attributes + "'"@
    } else {
        Seq::empty()
    }
}

/// The line tag of an element's definition: ` TAG=n`, if it has one.
pub open spec fn line_tag_text(e: ElementView) -> Seq<char> {
    match e.line_tag {
        Some(t) => " TAG="@ + decimal_text(t as nat),
        None => Seq::empty(),
    }
}

/// The flags of an element's definition: ` FLAG="RoomName"` and the like, and
/// ` FLAG="SET name"`, where it has them.
pub open spec fn flag_text(e: ElementView) -> Seq<char> {
    (match e.parse_as {
        Some(p) => " FLAG=\""@ + parse_as_text(p) + "\""@,
        None => Seq::empty(),
    }) + (match e.variable {
        Some(v) => " FLAG=\"SET "@ + v + "\""@,
        None => Seq::empty(),
    })
}

/// The keywords of an element's definition: ` OPEN` and ` EMPTY`, where they apply.
pub open spec fn keywords_text(e: ElementView) -> Seq<char> {
    (if e.open {
        " OPEN"@
    } else {
        Seq::empty()
    }) + (if e.command {
        " EMPTY"@
    } else {
        Seq::empty()
    })
}

/// The definition of an element as the server writes it:
/// `<!EL name '<items>' ATT='..' TAG=n FLAG=".." OPEN EMPTY>`, each part after the items only
/// where the element has it.
pub open spec fn element_text(e: ElementView) -> Seq<char> {
    "<!EL "@ + e.name + " '"@ + items_text(e.items) + "'"@ + attributes_text(e) + line_tag_text(e)
        + flag_text(e) + keywords_text(e) + ">"@
}

/// User-defined MXP tags that we recognise, e.g. `<boldcolor>`. For example:
/// `<!ELEMENT boldtext '<COLOR &col;><B>' ATT='col=red'>`.
#[derive(Clone, Debug, PartialEq, Eq)]
pub struct Element {
    /// Tag name.
    pub name: String,
    /// Whether the element is open (`OPEN`).
    pub open: bool,
    /// Whether the element has no closing tag (`EMPTY`).
    pub command: bool,
    /// The atomic tags it stands for.
    pub items: Vec<ElementItem>,
    /// Text of the attribute list (`ATT=`).
    pub attributes: String,
    /// Line tag number (`TAG=`).
    pub line_tag: Option<Mode>,
    /// How an automapper parses the element's text (`FLAG=`).
    pub parse_as: Option<ParseAs>,
    /// Which variable the element's text sets (`FLAG="SET x"`).
    pub variable: Option<String>,
}

/// The view of an element.
pub open spec fn element_view(e: Element) -> ElementView {
    ElementView {
        name: e.name@,
        open: e.open,
        command: e.command,
        items: e.items@.map_values(|x: ElementItem| item_view(x)),
        attributes: e.attributes@,
        line_tag: match e.line_tag {
            Some(m) => Some(m.0),
            None => None,
        },
        parse_as: e.parse_as,
        variable: match e.variable {
            Some(v) => Some(v@),
            None => None,
        },
    }
}

impl Element {
    /// The tag flags of the element: `Open` when it is open, `Command` when it has no closing
    /// tag.
    pub fn flags(&self) -> (r: TagFlags)
        ensures
            r == (TagFlags {
                open: self.open,
                command: self.command,
                pueblo: false,
                no_reset: false,
                not_imp: false,
            }),
    {
        TagFlags { open: self.open, command: self.command, pueblo: false, no_reset: false, not_imp: false }
    }
    fn push_items(&self, s: &mut String)
        ensures
            final(s)@ == old(s)@ + items_text(element_view(*self).items),
    {
        let ghost v = element_view(*self);
        let ghost head = s@;
        let mut i: usize = 0;
        while i < self.items.len()
            invariant
                i <= self.items@.len(),
                v == element_view(*self),
                s@ == head + items_text(v.items.take(i as int)),
            decreases self.items@.len() - i,
        {
            let item = &self.items[i];
            let ghost before = s@;
            push_char(s, '<');
            push_str(s, item.atom.name);
            if item.arguments.as_str().unicode_len() != 0 {
                push_char(s, ' ');
                push_str(s, item.arguments.as_str());
            }
            push_char(s, '>');
            proof {
                assert(v.items[i as int] == item_view(*item));
                assert(v.items.take(i + 1).drop_last() =~= v.items.take(i as int));
                assert(s@ =~= before + item_text(v.items[i as int]));
            }
            i += 1;
        }
        assert(v.items.take(self.items@.len() as int) =~= v.items);
    }

    fn push_flag(&self, s: &mut String)
        ensures
            final(s)@ == old(s)@ + flag_text(element_view(*self)),
    {
        let ghost s0 = s@;
        match self.parse_as {
            Some(p) => {
                push_str(s, " FLAG=\"");
                match p {
                    ParseAs::RoomName => push_str(s, "RoomName"),
                    ParseAs::RoomDesc => push_str(s, "RoomDesc"),
                    ParseAs::RoomExit => push_str(s, "RoomExit"),
                }
                push_str(s, "\"");
            },
            None => {},
        }
        let ghost s1 = s@;
        proof {
            assert(s1 =~= s0 + match element_view(*self).parse_as {
                Some(p) => " FLAG=\""@ + parse_as_text(p) + "\""@,
                None => Seq::empty(),
            });
        }
        match &self.variable {
            Some(var) => {
                push_str(s, " FLAG=\"SET ");
                push_str(s, var.as_str());
                push_str(s, "\"");
            },
            None => {},
        }
        proof {
            assert(s@ =~= s1 + match element_view(*self).variable {
                Some(v) => " FLAG=\"SET "@ + v + "\""@,
                None => Seq::empty(),
            });
            assert(s@ =~= s0 + flag_text(element_view(*self)));
        }
    }

    fn push_attributes_and_tag(&self, s: &mut String)
        ensures
            final(s)@ == old(s)@ + attributes_text(element_view(*self)) + line_tag_text(
                element_view(*self),
            ),
    {
        let ghost v = element_view(*self);
        let ghost s0 = s@;
        if self.attributes.as_str().unicode_len() != 0 {
            push_str(s, " ATT='");
            push_str(s, self.attributes.as_str());
            push_str(s, "'");
        }
        let ghost s1 = s@;
        assert(s1 =~= s0 + attributes_text(v));
        match self.line_tag {
            Some(t) => {
                push_str(s, " TAG=");
                let n = decimal_string(t.0 as u32);
                push_str(s, n.as_str());
            },
            None => {},
        }
        assert(s@ =~= s1 + line_tag_text(v));
    }

    fn push_keywords(&self, s: &mut String)
        ensures
            final(s)@ == old(s)@ + keywords_text(element_view(*self)),
    {
        let ghost v = element_view(*self);
        let ghost s0 = s@;
        if self.open {
            push_str(s, " OPEN");
        }
        let ghost s1 = s@;
        if self.command {
            push_str(s, " EMPTY");
        }
        assert(s@ =~= s0 + keywords_text(v));
    }

    /// The definition of the element as the server writes it.
    pub fn to_string(&self) -> (r: String)
        ensures
            r@ == element_text(element_view(*self)),
    {
        let mut s = String::new();
        push_str(&mut s, "<!EL ");
        push_str(&mut s, self.name.as_str());
        push_str(&mut s, " '");
        self.push_items(&mut s);
        push_str(&mut s, "'");
        self.push_attributes_and_tag(&mut s);
        self.push_flag(&mut s);
        self.push_keywords(&mut s);
        push_str(&mut s, ">");
        proof {
            assert(s@ =~= element_text(element_view(*self)));
        }
        s
    }
}

} // verus!

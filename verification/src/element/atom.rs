use vstd::prelude::*;
use vstd::utf8::encode_utf8;

use super::action::ActionType;
use crate::text::{eq_ignore_case, first_match_ci, match_ci, push_char, push_str, str_eq_ignore_case};
use crate::parse::words::{find_from, find_from_exec, lemma_find_from};

verus! {

/// Flags of an atomic tag.
#[derive(Copy, Clone, Debug, PartialEq, Eq, Hash, Structural)]
pub enum TagFlag {
    /// Tag is an open one (otherwise secure)
    Open,
    /// Tag is a command (doesn't have closing tag)
    Command,
    /// Tag is Pueblo-only
    Pueblo,
    /// Not closed by reset (eg. body)
    NoReset,
    /// Not really implemented (for <supports> tag)
    NotImp,
}

/// A set of [`TagFlag`]s.
#[derive(Copy, Clone, Debug, Default, PartialEq, Eq, Hash, Structural)]
pub struct TagFlags {
    /// Holds [`TagFlag::Open`].
    pub open: bool,
    /// Holds [`TagFlag::Command`].
    pub command: bool,
    /// Holds [`TagFlag::Pueblo`].
    pub pueblo: bool,
    /// Holds [`TagFlag::NoReset`].
    pub no_reset: bool,
    /// Holds [`TagFlag::NotImp`].
    pub not_imp: bool,
}

impl TagFlags {
    /// Whether the set holds a flag.
    pub open spec fn has(self, f: TagFlag) -> bool {
        match f {
            TagFlag::Open => self.open,
            TagFlag::Command => self.command,
            TagFlag::Pueblo => self.pueblo,
            TagFlag::NoReset => self.no_reset,
            TagFlag::NotImp => self.not_imp,
        }
    }

    /// Returns `true` if the set holds the flag.
    pub fn contains(&self, f: TagFlag) -> (r: bool)
        ensures
            r == self.has(f),
    {
        match f {
            TagFlag::Open => self.open,
            TagFlag::Command => self.command,
            TagFlag::Pueblo => self.pueblo,
            TagFlag::NoReset => self.no_reset,
            TagFlag::NotImp => self.not_imp,
        }
    }
}

/// The view of an atomic tag.
#[verifier::ext_equal]
pub struct AtomView {
    /// Tag name.
    pub name: Seq<char>,
    /// Secure, Command, etc.
    pub flags: TagFlags,
    /// Its action.
    pub action: ActionType,
    /// Supported arguments.
    pub args: Seq<Seq<char>>,
}

/// Atomic MXP tags that we recognise, e.g. `<b>`.
#[derive(Clone, Debug, PartialEq, Eq)]
pub struct Atom {
    /// Tag name, e.g. bold
    pub name: &'static str,
    /// Secure, Command, etc.
    pub flags: TagFlags,
    /// Its action.
    pub action: ActionType,
    /// Supported arguments, e.g. href, hint
    pub args: Vec<&'static str>,
}

/// The view of an atom.
pub open spec fn atom_view(a: Atom) -> AtomView {
    AtomView { name: a.name@, flags: a.flags, action: a.action, args: a.args@.map_values(|s: &str| s@) }
}

/// All atomic tags, in the order in which a support response lists them.
pub open spec fn atom_table() -> Seq<AtomView> {
    atom_rows_0() + atom_rows_1() + atom_rows_2() + atom_rows_3() + atom_rows_4() + atom_rows_5() + atom_rows_6() + atom_rows_7() + atom_rows_8() + atom_rows_9() + atom_rows_10()
}

/// Atomic tags 0 to 5 of the table.
pub open spec fn atom_rows_0() -> Seq<AtomView> {
    seq![
        AtomView { name: "a"@, flags: TagFlags { open: false, command: false, pueblo: false, no_reset: false, not_imp: false }, action: ActionType::Hyperlink, args: seq!["href"@, "xch_cmd"@, "xch_hint"@] },
        AtomView { name: "afk"@, flags: TagFlags { open: false, command: true, pueblo: false, no_reset: false, not_imp: false }, action: ActionType::Afk, args: Seq::empty() },
        AtomView { name: "b"@, flags: TagFlags { open: true, command: false, pueblo: false, no_reset: false, not_imp: false }, action: ActionType::Bold, args: Seq::empty() },
        AtomView { name: "body"@, flags: TagFlags { open: false, command: false, pueblo: true, no_reset: true, not_imp: false }, action: ActionType::Body, args: Seq::empty() },
        AtomView { name: "bold"@, flags: TagFlags { open: true, command: false, pueblo: false, no_reset: false, not_imp: false }, action: ActionType::Bold, args: Seq::empty() },
        AtomView { name: "br"@, flags: TagFlags { open: false, command: true, pueblo: false, no_reset: false, not_imp: false }, action: ActionType::Br, args: Seq::empty() },
    ]
}

/// Atomic tags 6 to 11 of the table.
pub open spec fn atom_rows_1() -> Seq<AtomView> {
    seq![
        AtomView { name: "c"@, flags: TagFlags { open: true, command: false, pueblo: false, no_reset: false, not_imp: false }, action: ActionType::Color, args: seq!["fore"@, "back"@] },
        AtomView { name: "center"@, flags: TagFlags { open: false, command: false, pueblo: false, no_reset: false, not_imp: true }, action: ActionType::Center, args: Seq::empty() },
        AtomView { name: "color"@, flags: TagFlags { open: true, command: false, pueblo: false, no_reset: false, not_imp: false }, action: ActionType::Color, args: seq!["fore"@, "back"@] },
        AtomView { name: "dest"@, flags: TagFlags { open: false, command: false, pueblo: false, no_reset: false, not_imp: true }, action: ActionType::Dest, args: Seq::empty() },
        AtomView { name: "em"@, flags: TagFlags { open: true, command: false, pueblo: false, no_reset: false, not_imp: false }, action: ActionType::Italic, args: Seq::empty() },
        AtomView { name: "expire"@, flags: TagFlags { open: false, command: false, pueblo: false, no_reset: false, not_imp: true }, action: ActionType::Expire, args: Seq::empty() },
    ]
}

/// Atomic tags 12 to 17 of the table.
pub open spec fn atom_rows_2() -> Seq<AtomView> {
    seq![
        AtomView { name: "filter"@, flags: TagFlags { open: false, command: false, pueblo: false, no_reset: false, not_imp: true }, action: ActionType::Filter, args: Seq::empty() },
        AtomView { name: "frame"@, flags: TagFlags { open: false, command: false, pueblo: false, no_reset: false, not_imp: true }, action: ActionType::Frame, args: Seq::empty() },
        AtomView { name: "gauge"@, flags: TagFlags { open: false, command: false, pueblo: false, no_reset: false, not_imp: true }, action: ActionType::Gauge, args: Seq::empty() },
        AtomView { name: "h"@, flags: TagFlags { open: true, command: false, pueblo: false, no_reset: false, not_imp: false }, action: ActionType::High, args: Seq::empty() },
        AtomView { name: "h1"@, flags: TagFlags { open: false, command: false, pueblo: false, no_reset: false, not_imp: true }, action: ActionType::H1, args: Seq::empty() },
        AtomView { name: "h2"@, flags: TagFlags { open: false, command: false, pueblo: false, no_reset: false, not_imp: true }, action: ActionType::H2, args: Seq::empty() },
    ]
}

/// Atomic tags 18 to 23 of the table.
pub open spec fn atom_rows_3() -> Seq<AtomView> {
    seq![
        AtomView { name: "h3"@, flags: TagFlags { open: false, command: false, pueblo: false, no_reset: false, not_imp: true }, action: ActionType::H3, args: Seq::empty() },
        AtomView { name: "h4"@, flags: TagFlags { open: false, command: false, pueblo: false, no_reset: false, not_imp: true }, action: ActionType::H4, args: Seq::empty() },
        AtomView { name: "h5"@, flags: TagFlags { open: false, command: false, pueblo: false, no_reset: false, not_imp: true }, action: ActionType::H5, args: Seq::empty() },
        AtomView { name: "h6"@, flags: TagFlags { open: false, command: false, pueblo: false, no_reset: false, not_imp: true }, action: ActionType::H6, args: Seq::empty() },
        AtomView { name: "head"@, flags: TagFlags { open: false, command: false, pueblo: true, no_reset: true, not_imp: false }, action: ActionType::Head, args: Seq::empty() },
        AtomView { name: "high"@, flags: TagFlags { open: true, command: false, pueblo: false, no_reset: false, not_imp: false }, action: ActionType::High, args: Seq::empty() },
    ]
}

/// Atomic tags 24 to 29 of the table.
pub open spec fn atom_rows_4() -> Seq<AtomView> {
    seq![
        AtomView { name: "hr"@, flags: TagFlags { open: false, command: true, pueblo: false, no_reset: false, not_imp: false }, action: ActionType::Hr, args: Seq::empty() },
        AtomView { name: "html"@, flags: TagFlags { open: false, command: false, pueblo: true, no_reset: true, not_imp: false }, action: ActionType::Html, args: Seq::empty() },
        AtomView { name: "i"@, flags: TagFlags { open: true, command: false, pueblo: false, no_reset: false, not_imp: false }, action: ActionType::Italic, args: Seq::empty() },
        AtomView { name: "image"@, flags: TagFlags { open: false, command: true, pueblo: false, no_reset: false, not_imp: true }, action: ActionType::Image, args: seq!["url"@, "fname"@] },
        AtomView { name: "img"@, flags: TagFlags { open: false, command: true, pueblo: true, no_reset: false, not_imp: false }, action: ActionType::Img, args: seq!["src"@, "xch_mode"@] },
        AtomView { name: "italic"@, flags: TagFlags { open: true, command: false, pueblo: false, no_reset: false, not_imp: false }, action: ActionType::Italic, args: Seq::empty() },
    ]
}

/// Atomic tags 30 to 35 of the table.
pub open spec fn atom_rows_5() -> Seq<AtomView> {
    seq![
        AtomView { name: "li"@, flags: TagFlags { open: false, command: true, pueblo: false, no_reset: false, not_imp: false }, action: ActionType::Li, args: Seq::empty() },
        AtomView { name: "music"@, flags: TagFlags { open: false, command: true, pueblo: false, no_reset: false, not_imp: true }, action: ActionType::Sound, args: Seq::empty() },
        AtomView { name: "mxp"@, flags: TagFlags { open: false, command: true, pueblo: false, no_reset: false, not_imp: false }, action: ActionType::Mxp, args: seq!["off"@] },
        AtomView { name: "nobr"@, flags: TagFlags { open: false, command: false, pueblo: false, no_reset: false, not_imp: true }, action: ActionType::NoBr, args: Seq::empty() },
        AtomView { name: "ol"@, flags: TagFlags { open: false, command: false, pueblo: false, no_reset: false, not_imp: false }, action: ActionType::Ol, args: Seq::empty() },
        AtomView { name: "option"@, flags: TagFlags { open: false, command: true, pueblo: false, no_reset: false, not_imp: false }, action: ActionType::SetOption, args: Seq::empty() },
    ]
}

/// Atomic tags 36 to 41 of the table.
pub open spec fn atom_rows_6() -> Seq<AtomView> {
    seq![
        AtomView { name: "p"@, flags: TagFlags { open: false, command: false, pueblo: false, no_reset: false, not_imp: false }, action: ActionType::P, args: Seq::empty() },
        AtomView { name: "pass"@, flags: TagFlags { open: false, command: true, pueblo: false, no_reset: false, not_imp: false }, action: ActionType::Password, args: Seq::empty() },
        AtomView { name: "password"@, flags: TagFlags { open: false, command: true, pueblo: false, no_reset: false, not_imp: false }, action: ActionType::Password, args: Seq::empty() },
        AtomView { name: "pre"@, flags: TagFlags { open: false, command: false, pueblo: true, no_reset: false, not_imp: false }, action: ActionType::Pre, args: Seq::empty() },
        AtomView { name: "recommend_option"@, flags: TagFlags { open: false, command: true, pueblo: false, no_reset: false, not_imp: false }, action: ActionType::RecommendOption, args: Seq::empty() },
        AtomView { name: "relocate"@, flags: TagFlags { open: false, command: true, pueblo: false, no_reset: false, not_imp: true }, action: ActionType::Relocate, args: Seq::empty() },
    ]
}

/// Atomic tags 42 to 47 of the table.
pub open spec fn atom_rows_7() -> Seq<AtomView> {
    seq![
        AtomView { name: "reset"@, flags: TagFlags { open: false, command: true, pueblo: false, no_reset: false, not_imp: false }, action: ActionType::Reset, args: Seq::empty() },
        AtomView { name: "s"@, flags: TagFlags { open: true, command: false, pueblo: false, no_reset: false, not_imp: true }, action: ActionType::Strikeout, args: Seq::empty() },
        AtomView { name: "samp"@, flags: TagFlags { open: false, command: false, pueblo: false, no_reset: false, not_imp: false }, action: ActionType::Samp, args: Seq::empty() },
        AtomView { name: "script"@, flags: TagFlags { open: false, command: false, pueblo: false, no_reset: false, not_imp: true }, action: ActionType::Script, args: Seq::empty() },
        AtomView { name: "small"@, flags: TagFlags { open: true, command: false, pueblo: false, no_reset: false, not_imp: true }, action: ActionType::Small, args: Seq::empty() },
        AtomView { name: "sound"@, flags: TagFlags { open: false, command: true, pueblo: false, no_reset: false, not_imp: true }, action: ActionType::Sound, args: Seq::empty() },
    ]
}

/// Atomic tags 48 to 53 of the table.
pub open spec fn atom_rows_8() -> Seq<AtomView> {
    seq![
        AtomView { name: "stat"@, flags: TagFlags { open: false, command: false, pueblo: false, no_reset: false, not_imp: true }, action: ActionType::Stat, args: Seq::empty() },
        AtomView { name: "strike"@, flags: TagFlags { open: true, command: false, pueblo: false, no_reset: false, not_imp: true }, action: ActionType::Strikeout, args: Seq::empty() },
        AtomView { name: "strong"@, flags: TagFlags { open: true, command: false, pueblo: false, no_reset: false, not_imp: false }, action: ActionType::Bold, args: Seq::empty() },
        AtomView { name: "support"@, flags: TagFlags { open: false, command: true, pueblo: false, no_reset: false, not_imp: false }, action: ActionType::Support, args: Seq::empty() },
        AtomView { name: "title"@, flags: TagFlags { open: false, command: false, pueblo: true, no_reset: false, not_imp: false }, action: ActionType::Title, args: Seq::empty() },
        AtomView { name: "tt"@, flags: TagFlags { open: true, command: false, pueblo: false, no_reset: false, not_imp: true }, action: ActionType::Tt, args: Seq::empty() },
    ]
}

/// Atomic tags 54 to 59 of the table.
pub open spec fn atom_rows_9() -> Seq<AtomView> {
    seq![
        AtomView { name: "u"@, flags: TagFlags { open: true, command: false, pueblo: false, no_reset: false, not_imp: false }, action: ActionType::Underline, args: Seq::empty() },
        AtomView { name: "ul"@, flags: TagFlags { open: false, command: false, pueblo: false, no_reset: false, not_imp: false }, action: ActionType::Ul, args: Seq::empty() },
        AtomView { name: "underline"@, flags: TagFlags { open: true, command: false, pueblo: false, no_reset: false, not_imp: false }, action: ActionType::Underline, args: Seq::empty() },
        AtomView { name: "user"@, flags: TagFlags { open: false, command: true, pueblo: false, no_reset: false, not_imp: false }, action: ActionType::User, args: Seq::empty() },
        AtomView { name: "username"@, flags: TagFlags { open: false, command: true, pueblo: false, no_reset: false, not_imp: false }, action: ActionType::User, args: Seq::empty() },
        AtomView { name: "v"@, flags: TagFlags { open: false, command: false, pueblo: false, no_reset: false, not_imp: false }, action: ActionType::Var, args: Seq::empty() },
    ]
}

/// Atomic tags 60 to 65 of the table.
pub open spec fn atom_rows_10() -> Seq<AtomView> {
    seq![
        AtomView { name: "var"@, flags: TagFlags { open: false, command: false, pueblo: false, no_reset: false, not_imp: false }, action: ActionType::Var, args: Seq::empty() },
        AtomView { name: "version"@, flags: TagFlags { open: false, command: true, pueblo: false, no_reset: false, not_imp: false }, action: ActionType::Version, args: Seq::empty() },
        AtomView { name: "xch_page"@, flags: TagFlags { open: false, command: true, pueblo: true, no_reset: false, not_imp: false }, action: ActionType::XchPage, args: Seq::empty() },
        AtomView { name: "xch_pane"@, flags: TagFlags { open: false, command: true, pueblo: true, no_reset: false, not_imp: true }, action: ActionType::XchPane, args: Seq::empty() },
        AtomView { name: "font"@, flags: TagFlags { open: true, command: false, pueblo: false, no_reset: false, not_imp: false }, action: ActionType::Font, args: seq!["color"@, "back"@, "fgcolor"@, "bgcolor"@] },
        AtomView { name: "send"@, flags: TagFlags { open: false, command: false, pueblo: false, no_reset: false, not_imp: false }, action: ActionType::Send, args: seq!["href"@, "hint"@, "xch_cmd"@, "xch_hint"@, "prompt"@] },
    ]
}

fn push_atom_rows_0(v: &mut Vec<Atom>)
    ensures
        final(v)@.map_values(|a: Atom| atom_view(a)) == old(v)@.map_values(|a: Atom| atom_view(a)) + atom_rows_0(),
{
    let ghost start = v@;
    v.push(Atom { name: "a", flags: TagFlags { open: false, command: false, pueblo: false, no_reset: false, not_imp: false }, action: ActionType::Hyperlink, args: vec!["href", "xch_cmd", "xch_hint"] });
    v.push(Atom { name: "afk", flags: TagFlags { open: false, command: true, pueblo: false, no_reset: false, not_imp: false }, action: ActionType::Afk, args: vec![] });
    v.push(Atom { name: "b", flags: TagFlags { open: true, command: false, pueblo: false, no_reset: false, not_imp: false }, action: ActionType::Bold, args: vec![] });
    v.push(Atom { name: "body", flags: TagFlags { open: false, command: false, pueblo: true, no_reset: true, not_imp: false }, action: ActionType::Body, args: vec![] });
    v.push(Atom { name: "bold", flags: TagFlags { open: true, command: false, pueblo: false, no_reset: false, not_imp: false }, action: ActionType::Bold, args: vec![] });
    v.push(Atom { name: "br", flags: TagFlags { open: false, command: true, pueblo: false, no_reset: false, not_imp: false }, action: ActionType::Br, args: vec![] });
    assert(v@.map_values(|a: Atom| atom_view(a)) =~~= start.map_values(|a: Atom| atom_view(a)) + atom_rows_0());
}

fn push_atom_rows_1(v: &mut Vec<Atom>)
    ensures
        final(v)@.map_values(|a: Atom| atom_view(a)) == old(v)@.map_values(|a: Atom| atom_view(a)) + atom_rows_1(),
{
    let ghost start = v@;
    v.push(Atom { name: "c", flags: TagFlags { open: true, command: false, pueblo: false, no_reset: false, not_imp: false }, action: ActionType::Color, args: vec!["fore", "back"] });
    v.push(Atom { name: "center", flags: TagFlags { open: false, command: false, pueblo: false, no_reset: false, not_imp: true }, action: ActionType::Center, args: vec![] });
    v.push(Atom { name: "color", flags: TagFlags { open: true, command: false, pueblo: false, no_reset: false, not_imp: false }, action: ActionType::Color, args: vec!["fore", "back"] });
    v.push(Atom { name: "dest", flags: TagFlags { open: false, command: false, pueblo: false, no_reset: false, not_imp: true }, action: ActionType::Dest, args: vec![] });
    v.push(Atom { name: "em", flags: TagFlags { open: true, command: false, pueblo: false, no_reset: false, not_imp: false }, action: ActionType::Italic, args: vec![] });
    v.push(Atom { name: "expire", flags: TagFlags { open: false, command: false, pueblo: false, no_reset: false, not_imp: true }, action: ActionType::Expire, args: vec![] });
    assert(v@.map_values(|a: Atom| atom_view(a)) =~~= start.map_values(|a: Atom| atom_view(a)) + atom_rows_1());
}

fn push_atom_rows_2(v: &mut Vec<Atom>)
    ensures
        final(v)@.map_values(|a: Atom| atom_view(a)) == old(v)@.map_values(|a: Atom| atom_view(a)) + atom_rows_2(),
{
    let ghost start = v@;
    v.push(Atom { name: "filter", flags: TagFlags { open: false, command: false, pueblo: false, no_reset: false, not_imp: true }, action: ActionType::Filter, args: vec![] });
    v.push(Atom { name: "frame", flags: TagFlags { open: false, command: false, pueblo: false, no_reset: false, not_imp: true }, action: ActionType::Frame, args: vec![] });
    v.push(Atom { name: "gauge", flags: TagFlags { open: false, command: false, pueblo: false, no_reset: false, not_imp: true }, action: ActionType::Gauge, args: vec![] });
    v.push(Atom { name: "h", flags: TagFlags { open: true, command: false, pueblo: false, no_reset: false, not_imp: false }, action: ActionType::High, args: vec![] });
    v.push(Atom { name: "h1", flags: TagFlags { open: false, command: false, pueblo: false, no_reset: false, not_imp: true }, action: ActionType::H1, args: vec![] });
    v.push(Atom { name: "h2", flags: TagFlags { open: false, command: false, pueblo: false, no_reset: false, not_imp: true }, action: ActionType::H2, args: vec![] });
    assert(v@.map_values(|a: Atom| atom_view(a)) =~~= start.map_values(|a: Atom| atom_view(a)) + atom_rows_2());
}

fn push_atom_rows_3(v: &mut Vec<Atom>)
    ensures
        final(v)@.map_values(|a: Atom| atom_view(a)) == old(v)@.map_values(|a: Atom| atom_view(a)) + atom_rows_3(),
{
    let ghost start = v@;
    v.push(Atom { name: "h3", flags: TagFlags { open: false, command: false, pueblo: false, no_reset: false, not_imp: true }, action: ActionType::H3, args: vec![] });
    v.push(Atom { name: "h4", flags: TagFlags { open: false, command: false, pueblo: false, no_reset: false, not_imp: true }, action: ActionType::H4, args: vec![] });
    v.push(Atom { name: "h5", flags: TagFlags { open: false, command: false, pueblo: false, no_reset: false, not_imp: true }, action: ActionType::H5, args: vec![] });
    v.push(Atom { name: "h6", flags: TagFlags { open: false, command: false, pueblo: false, no_reset: false, not_imp: true }, action: ActionType::H6, args: vec![] });
    v.push(Atom { name: "head", flags: TagFlags { open: false, command: false, pueblo: true, no_reset: true, not_imp: false }, action: ActionType::Head, args: vec![] });
    v.push(Atom { name: "high", flags: TagFlags { open: true, command: false, pueblo: false, no_reset: false, not_imp: false }, action: ActionType::High, args: vec![] });
    assert(v@.map_values(|a: Atom| atom_view(a)) =~~= start.map_values(|a: Atom| atom_view(a)) + atom_rows_3());
}

fn push_atom_rows_4(v: &mut Vec<Atom>)
    ensures
        final(v)@.map_values(|a: Atom| atom_view(a)) == old(v)@.map_values(|a: Atom| atom_view(a)) + atom_rows_4(),
{
    let ghost start = v@;
    v.push(Atom { name: "hr", flags: TagFlags { open: false, command: true, pueblo: false, no_reset: false, not_imp: false }, action: ActionType::Hr, args: vec![] });
    v.push(Atom { name: "html", flags: TagFlags { open: false, command: false, pueblo: true, no_reset: true, not_imp: false }, action: ActionType::Html, args: vec![] });
    v.push(Atom { name: "i", flags: TagFlags { open: true, command: false, pueblo: false, no_reset: false, not_imp: false }, action: ActionType::Italic, args: vec![] });
    v.push(Atom { name: "image", flags: TagFlags { open: false, command: true, pueblo: false, no_reset: false, not_imp: true }, action: ActionType::Image, args: vec!["url", "fname"] });
    v.push(Atom { name: "img", flags: TagFlags { open: false, command: true, pueblo: true, no_reset: false, not_imp: false }, action: ActionType::Img, args: vec!["src", "xch_mode"] });
    v.push(Atom { name: "italic", flags: TagFlags { open: true, command: false, pueblo: false, no_reset: false, not_imp: false }, action: ActionType::Italic, args: vec![] });
    assert(v@.map_values(|a: Atom| atom_view(a)) =~~= start.map_values(|a: Atom| atom_view(a)) + atom_rows_4());
}

fn push_atom_rows_5(v: &mut Vec<Atom>)
    ensures
        final(v)@.map_values(|a: Atom| atom_view(a)) == old(v)@.map_values(|a: Atom| atom_view(a)) + atom_rows_5(),
{
    let ghost start = v@;
    v.push(Atom { name: "li", flags: TagFlags { open: false, command: true, pueblo: false, no_reset: false, not_imp: false }, action: ActionType::Li, args: vec![] });
    v.push(Atom { name: "music", flags: TagFlags { open: false, command: true, pueblo: false, no_reset: false, not_imp: true }, action: ActionType::Sound, args: vec![] });
    v.push(Atom { name: "mxp", flags: TagFlags { open: false, command: true, pueblo: false, no_reset: false, not_imp: false }, action: ActionType::Mxp, args: vec!["off"] });
    v.push(Atom { name: "nobr", flags: TagFlags { open: false, command: false, pueblo: false, no_reset: false, not_imp: true }, action: ActionType::NoBr, args: vec![] });
    v.push(Atom { name: "ol", flags: TagFlags { open: false, command: false, pueblo: false, no_reset: false, not_imp: false }, action: ActionType::Ol, args: vec![] });
    v.push(Atom { name: "option", flags: TagFlags { open: false, command: true, pueblo: false, no_reset: false, not_imp: false }, action: ActionType::SetOption, args: vec![] });
    assert(v@.map_values(|a: Atom| atom_view(a)) =~~= start.map_values(|a: Atom| atom_view(a)) + atom_rows_5());
}

fn push_atom_rows_6(v: &mut Vec<Atom>)
    ensures
        final(v)@.map_values(|a: Atom| atom_view(a)) == old(v)@.map_values(|a: Atom| atom_view(a)) + atom_rows_6(),
{
    let ghost start = v@;
    v.push(Atom { name: "p", flags: TagFlags { open: false, command: false, pueblo: false, no_reset: false, not_imp: false }, action: ActionType::P, args: vec![] });
    v.push(Atom { name: "pass", flags: TagFlags { open: false, command: true, pueblo: false, no_reset: false, not_imp: false }, action: ActionType::Password, args: vec![] });
    v.push(Atom { name: "password", flags: TagFlags { open: false, command: true, pueblo: false, no_reset: false, not_imp: false }, action: ActionType::Password, args: vec![] });
    v.push(Atom { name: "pre", flags: TagFlags { open: false, command: false, pueblo: true, no_reset: false, not_imp: false }, action: ActionType::Pre, args: vec![] });
    v.push(Atom { name: "recommend_option", flags: TagFlags { open: false, command: true, pueblo: false, no_reset: false, not_imp: false }, action: ActionType::RecommendOption, args: vec![] });
    v.push(Atom { name: "relocate", flags: TagFlags { open: false, command: true, pueblo: false, no_reset: false, not_imp: true }, action: ActionType::Relocate, args: vec![] });
    assert(v@.map_values(|a: Atom| atom_view(a)) =~~= start.map_values(|a: Atom| atom_view(a)) + atom_rows_6());
}

fn push_atom_rows_7(v: &mut Vec<Atom>)
    ensures
        final(v)@.map_values(|a: Atom| atom_view(a)) == old(v)@.map_values(|a: Atom| atom_view(a)) + atom_rows_7(),
{
    let ghost start = v@;
    v.push(Atom { name: "reset", flags: TagFlags { open: false, command: true, pueblo: false, no_reset: false, not_imp: false }, action: ActionType::Reset, args: vec![] });
    v.push(Atom { name: "s", flags: TagFlags { open: true, command: false, pueblo: false, no_reset: false, not_imp: true }, action: ActionType::Strikeout, args: vec![] });
    v.push(Atom { name: "samp", flags: TagFlags { open: false, command: false, pueblo: false, no_reset: false, not_imp: false }, action: ActionType::Samp, args: vec![] });
    v.push(Atom { name: "script", flags: TagFlags { open: false, command: false, pueblo: false, no_reset: false, not_imp: true }, action: ActionType::Script, args: vec![] });
    v.push(Atom { name: "small", flags: TagFlags { open: true, command: false, pueblo: false, no_reset: false, not_imp: true }, action: ActionType::Small, args: vec![] });
    v.push(Atom { name: "sound", flags: TagFlags { open: false, command: true, pueblo: false, no_reset: false, not_imp: true }, action: ActionType::Sound, args: vec![] });
    assert(v@.map_values(|a: Atom| atom_view(a)) =~~= start.map_values(|a: Atom| atom_view(a)) + atom_rows_7());
}

fn push_atom_rows_8(v: &mut Vec<Atom>)
    ensures
        final(v)@.map_values(|a: Atom| atom_view(a)) == old(v)@.map_values(|a: Atom| atom_view(a)) + atom_rows_8(),
{
    let ghost start = v@;
    v.push(Atom { name: "stat", flags: TagFlags { open: false, command: false, pueblo: false, no_reset: false, not_imp: true }, action: ActionType::Stat, args: vec![] });
    v.push(Atom { name: "strike", flags: TagFlags { open: true, command: false, pueblo: false, no_reset: false, not_imp: true }, action: ActionType::Strikeout, args: vec![] });
    v.push(Atom { name: "strong", flags: TagFlags { open: true, command: false, pueblo: false, no_reset: false, not_imp: false }, action: ActionType::Bold, args: vec![] });
    v.push(Atom { name: "support", flags: TagFlags { open: false, command: true, pueblo: false, no_reset: false, not_imp: false }, action: ActionType::Support, args: vec![] });
    v.push(Atom { name: "title", flags: TagFlags { open: false, command: false, pueblo: true, no_reset: false, not_imp: false }, action: ActionType::Title, args: vec![] });
    v.push(Atom { name: "tt", flags: TagFlags { open: true, command: false, pueblo: false, no_reset: false, not_imp: true }, action: ActionType::Tt, args: vec![] });
    assert(v@.map_values(|a: Atom| atom_view(a)) =~~= start.map_values(|a: Atom| atom_view(a)) + atom_rows_8());
}

fn push_atom_rows_9(v: &mut Vec<Atom>)
    ensures
        final(v)@.map_values(|a: Atom| atom_view(a)) == old(v)@.map_values(|a: Atom| atom_view(a)) + atom_rows_9(),
{
    let ghost start = v@;
    v.push(Atom { name: "u", flags: TagFlags { open: true, command: false, pueblo: false, no_reset: false, not_imp: false }, action: ActionType::Underline, args: vec![] });
    v.push(Atom { name: "ul", flags: TagFlags { open: false, command: false, pueblo: false, no_reset: false, not_imp: false }, action: ActionType::Ul, args: vec![] });
    v.push(Atom { name: "underline", flags: TagFlags { open: true, command: false, pueblo: false, no_reset: false, not_imp: false }, action: ActionType::Underline, args: vec![] });
    v.push(Atom { name: "user", flags: TagFlags { open: false, command: true, pueblo: false, no_reset: false, not_imp: false }, action: ActionType::User, args: vec![] });
    v.push(Atom { name: "username", flags: TagFlags { open: false, command: true, pueblo: false, no_reset: false, not_imp: false }, action: ActionType::User, args: vec![] });
    v.push(Atom { name: "v", flags: TagFlags { open: false, command: false, pueblo: false, no_reset: false, not_imp: false }, action: ActionType::Var, args: vec![] });
    assert(v@.map_values(|a: Atom| atom_view(a)) =~~= start.map_values(|a: Atom| atom_view(a)) + atom_rows_9());
}

fn push_atom_rows_10(v: &mut Vec<Atom>)
    ensures
        final(v)@.map_values(|a: Atom| atom_view(a)) == old(v)@.map_values(|a: Atom| atom_view(a)) + atom_rows_10(),
{
    let ghost start = v@;
    v.push(Atom { name: "var", flags: TagFlags { open: false, command: false, pueblo: false, no_reset: false, not_imp: false }, action: ActionType::Var, args: vec![] });
    v.push(Atom { name: "version", flags: TagFlags { open: false, command: true, pueblo: false, no_reset: false, not_imp: false }, action: ActionType::Version, args: vec![] });
    v.push(Atom { name: "xch_page", flags: TagFlags { open: false, command: true, pueblo: true, no_reset: false, not_imp: false }, action: ActionType::XchPage, args: vec![] });
    v.push(Atom { name: "xch_pane", flags: TagFlags { open: false, command: true, pueblo: true, no_reset: false, not_imp: true }, action: ActionType::XchPane, args: vec![] });
    v.push(Atom { name: "font", flags: TagFlags { open: true, command: false, pueblo: false, no_reset: false, not_imp: false }, action: ActionType::Font, args: vec!["color", "back", "fgcolor", "bgcolor"] });
    v.push(Atom { name: "send", flags: TagFlags { open: false, command: false, pueblo: false, no_reset: false, not_imp: false }, action: ActionType::Send, args: vec!["href", "hint", "xch_cmd", "xch_hint", "prompt"] });
    assert(v@.map_values(|a: Atom| atom_view(a)) =~~= start.map_values(|a: Atom| atom_view(a)) + atom_rows_10());
}

/// All atomic tags.
pub fn all_atoms() -> (r: Vec<Atom>)
    ensures
        r@.map_values(|a: Atom| atom_view(a)) == atom_table(),
{
    let mut v: Vec<Atom> = Vec::new();
    assert(v@.map_values(|a: Atom| atom_view(a)) =~= Seq::<AtomView>::empty());
    push_atom_rows_0(&mut v);
    push_atom_rows_1(&mut v);
    push_atom_rows_2(&mut v);
    push_atom_rows_3(&mut v);
    push_atom_rows_4(&mut v);
    push_atom_rows_5(&mut v);
    push_atom_rows_6(&mut v);
    push_atom_rows_7(&mut v);
    push_atom_rows_8(&mut v);
    push_atom_rows_9(&mut v);
    push_atom_rows_10(&mut v);
    assert(Seq::<AtomView>::empty() + atom_rows_0() + atom_rows_1() + atom_rows_2() + atom_rows_3() + atom_rows_4() + atom_rows_5() + atom_rows_6() + atom_rows_7() + atom_rows_8() + atom_rows_9() + atom_rows_10() =~= atom_table());
    v
}

/// The index of the first atom, from `i` on, whose name equals `name` up to ASCII case.
pub open spec fn find_atom(t: Seq<AtomView>, name: Seq<char>, i: int) -> Option<int>
    decreases t.len() - i,
{
    if i >= t.len() || i < 0 {
        None
    } else if eq_ignore_case(t[i].name, name) {
        Some(i)
    } else {
        find_atom(t, name, i + 1)
    }
}

/// The atomic tag of a name, compared without regard to ASCII case.
pub open spec fn atom_named(name: Seq<char>) -> Option<AtomView> {
    match find_atom(atom_table(), name, 0) {
        Some(i) => Some(atom_table()[i]),
        None => None,
    }
}

proof fn lemma_find_atom(t: Seq<AtomView>, name: Seq<char>, i: int)
    requires
        0 <= i,
    ensures
        find_atom(t, name, i) matches Some(k) ==> i <= k < t.len(),
    decreases t.len() - i,
{
    if i < t.len() && !eq_ignore_case(t[i].name, name) {
        lemma_find_atom(t, name, i + 1);
    }
}

impl Atom {
    /// Looks up an atomic tag by name, without regard to ASCII case.
    pub fn get(name: &str) -> (r: Option<Atom>)
        ensures
            match atom_named(name@) {
                Some(a) => r matches Some(x) && atom_view(x) == a,
                None => r is None,
            },
    {
        let mut atoms = all_atoms();
        let ghost t = atom_table();
        let mut i: usize = 0;
        while i < atoms.len()
            invariant
                i <= atoms@.len(),
                atoms@.map_values(|a: Atom| atom_view(a)) == t,
                t == atom_table(),
                find_atom(t, name@, 0) == find_atom(t, name@, i as int),
            decreases atoms@.len() - i,
        {
            assert(atom_view(atoms@[i as int]) == t[i as int]);
            if str_eq_ignore_case(atoms[i].name, name) {
                let a = atoms.remove(i);
                return Some(a);
            }
            i += 1;
        }
        None
    }

    /// Writes the support response for the requested tags, in the form
    /// `ESC[1z<SUPPORTS +tag -tag ...>` followed by a newline. A request is a tag name, `tag.*` for
    /// the tag and its arguments, or `tag.argument`; with no request, every tag and argument is
    /// listed.
    pub fn fmt_supported(buf: &mut Vec<u8>, args: &[&str])
        ensures
            final(buf)@ == old(buf)@ + encode_utf8(
                support_response(args@.map_values(|a: &str| a@)),
            ),
    {
        let mut s = String::new();
        push_str(&mut s, "\x1B[1z<SUPPORTS ");
        let ghost reqs = args@.map_values(|a: &str| a@);
        if args.len() == 0 {
            let atoms = all_atoms();
            let mut i: usize = 0;
            while i < atoms.len()
                invariant
                    i <= atoms@.len(),
                    atoms@.map_values(|a: Atom| atom_view(a)) == atom_table(),
                    s@ == "\x1B[1z<SUPPORTS "@ + all_supported(atom_table().take(i as int)),
                decreases atoms@.len() - i,
            {
                let ghost before = s@;
                write_can(&mut s, atoms[i].name);
                write_can_args(&mut s, &atoms[i]);
                assert(atom_table().take(i + 1).drop_last() =~= atom_table().take(i as int));
                assert(atom_view(atoms@[i as int]) == atom_table()[i as int]);
                i += 1;
            }
            assert(atom_table().take(atoms@.len() as int) =~= atom_table());
        } else {
            let mut i: usize = 0;
            while i < args.len()
                invariant
                    i <= args@.len(),
                    reqs == args@.map_values(|a: &str| a@),
                    s@ == "\x1B[1z<SUPPORTS "@ + support_list(reqs.take(i as int)),
                decreases args@.len() - i,
            {
                write_support_item(&mut s, args[i]);
                assert(reqs.take(i + 1).drop_last() =~= reqs.take(i as int));
                i += 1;
            }
            assert(reqs.take(args@.len() as int) =~= reqs);
        }
        push_str(&mut s, ">\n");
        proof {
            reveal_strlit("\x1B[1z<SUPPORTS ");
            reveal_strlit(">\n");
        }
        assert(s@ =~= support_response(reqs));
        let bytes = s.as_str().as_bytes();
        let ghost old_buf = buf@;
        buf.extend_from_slice(bytes);
        assert(buf@ =~= old_buf + bytes@);
    }
}

/// `+tag ` in a support response.
pub open spec fn can_text(tag: Seq<char>) -> Seq<char> {
    seq!['+'] + tag + seq![' ']
}

/// `-tag ` in a support response.
pub open spec fn cant_text(tag: Seq<char>) -> Seq<char> {
    seq!['-'] + tag + seq![' ']
}

/// `+tag.argument ` for each of the first `n` arguments of an atomic tag.
pub open spec fn can_args_text(a: AtomView, n: int) -> Seq<char>
    decreases n,
{
    if n <= 0 || n > a.args.len() {
        Seq::empty()
    } else {
        can_args_text(a, n - 1) + seq!['+'] + a.name + seq!['.'] + a.args[n - 1] + seq![' ']
    }
}

/// Every tag of a table, each followed by its arguments, as a support response lists them.
pub open spec fn all_supported(t: Seq<AtomView>) -> Seq<char>
    decreases t.len(),
{
    if t.len() == 0 {
        Seq::empty()
    } else {
        all_supported(t.drop_last()) + can_text(t.last().name) + can_args_text(
            t.last(),
            t.last().args.len() as int,
        )
    }
}

/// The answer to one support request.
pub open spec fn support_item(arg: Seq<char>) -> Seq<char> {
    let i = find_from(arg, 0, '.');
    let tag = arg.subrange(0, i);
    match atom_named(tag) {
        None => cant_text(tag),
        Some(a) => if a.flags.not_imp {
            cant_text(tag)
        } else if i >= arg.len() {
            can_text(tag)
        } else {
            let j = find_from(arg, i + 1, '.');
            let sub = arg.subrange(i + 1, j);
            if sub == seq!['*'] {
                can_args_text(a, a.args.len() as int)
            } else if first_match_ci(sub, a.args, 0) is Some {
                can_text(sub)
            } else {
                cant_text(sub)
            }
        },
    }
}

/// The answers to support requests, in order.
pub open spec fn support_list(args: Seq<Seq<char>>) -> Seq<char>
    decreases args.len(),
{
    if args.len() == 0 {
        Seq::empty()
    } else {
        support_list(args.drop_last()) + support_item(args.last())
    }
}

/// The support response to a list of requests.
pub open spec fn support_response(args: Seq<Seq<char>>) -> Seq<char> {
    "\x1B[1z<SUPPORTS "@ + if args.len() == 0 {
        all_supported(atom_table())
    } else {
        support_list(args)
    } + ">\n"@
}

fn write_can(s: &mut String, tag: &str)
    ensures
        final(s)@ == old(s)@ + can_text(tag@),
{
    push_char(s, '+');
    push_str(s, tag);
    push_char(s, ' ');
    assert(s@ =~= old(s)@ + can_text(tag@));
}

fn write_cant(s: &mut String, tag: &str)
    ensures
        final(s)@ == old(s)@ + cant_text(tag@),
{
    push_char(s, '-');
    push_str(s, tag);
    push_char(s, ' ');
    assert(s@ =~= old(s)@ + cant_text(tag@));
}

fn write_can_args(s: &mut String, atom: &Atom)
    ensures
        final(s)@ == old(s)@ + can_args_text(atom_view(*atom), atom.args@.len() as int),
{
    let ghost a = atom_view(*atom);
    let mut i: usize = 0;
    while i < atom.args.len()
        invariant
            i <= atom.args@.len(),
            a == atom_view(*atom),
            s@ == old(s)@ + can_args_text(a, i as int),
        decreases atom.args@.len() - i,
    {
        push_char(s, '+');
        push_str(s, atom.name);
        push_char(s, '.');
        push_str(s, atom.args[i]);
        push_char(s, ' ');
        assert(a.args[i as int] == atom.args@[i as int]@);
        assert(s@ =~= old(s)@ + can_args_text(a, i + 1));
        i += 1;
    }
}

fn write_support_item(s: &mut String, arg: &str)
    ensures
        final(s)@ == old(s)@ + support_item(arg@),
{
    let cs = crate::text::chars_of(arg);
    let i = find_from_exec(&cs, 0, '.');
    proof {
        lemma_find_from(cs@, 0, '.');
    }
    let tag = crate::text::substring(arg, 0, i);
    match Atom::get(tag) {
        None => write_cant(s, tag),
        Some(atom) => {
            if atom.flags.not_imp {
                write_cant(s, tag);
            } else if i >= cs.len() {
                write_can(s, tag);
            } else {
                let j = find_from_exec(&cs, i + 1, '.');
                proof {
                    lemma_find_from(cs@, i + 1, '.');
                }
                let sub = crate::text::substring(arg, i + 1, j);
                if sub.unicode_len() == 1 && sub.get_char(0) == '*' {
                    assert(sub@ =~= seq!['*']);
                    write_can_args(s, &atom);
                } else {
                    assert(sub@ != seq!['*']) by {
                        if sub@ == seq!['*'] {
                            assert(sub@.len() == 1 && sub@[0] == '*');
                        }
                    }
                    let found = match_ci(sub, atom.args.as_slice());
                    if found.is_some() {
                        write_can(s, sub);
                    } else {
                        write_cant(s, sub);
                    }
                }
            }
        },
    }
}

} // verus!

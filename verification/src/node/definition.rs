use vstd::prelude::*;

use crate::color::{color_text, named_color, RgbColor};
use crate::entity::keyword::{entity_keyword_name, entity_keyword_of, EntityKeyword, EntityKeywords};
use crate::line::mode::{mode_is_user_defined, Mode};
use crate::parse::arguments::{extend_spec, split_keywords, Arguments};
use crate::parse::decoder::{parse_u32, parse_u32_radix};
use crate::parse::error::Error;
use crate::parse::error_kind::ErrorKind;
use crate::parse::validation::{valid_name, validate};
use crate::parse::words::{
    class_end, class_end_exec, lemma_class_end, next_word, trim_ascii, CharClass, Words,
};
use crate::text::{
    ascii_lower_seq, chars_of, decimal_string, decimal_text, lemma_differ_at, lemma_differ_len,
    push_char, push_str, substring,
};

verus! {

/// The value of a named argument, looked up by its lower-cased name.
pub open spec fn named_arg(named: Map<Seq<char>, Seq<char>>, key: Seq<char>) -> Option<Seq<char>> {
    if named.contains_key(key) {
        Some(named[key])
    } else {
        None
    }
}

/// An optional `&str` taken by its view.
pub open spec fn opt_view(o: Option<&str>) -> Option<Seq<char>> {
    match o {
        Some(s) => Some(s@),
        None => None,
    }
}

/// A name and the rest of a definition: the text up to the first whitespace, and what follows
/// the whitespace after it.
pub open spec fn split_name_spec(s: Seq<char>) -> (Seq<char>, Seq<char>) {
    let k = class_end(s, 0, CharClass::NonSpace);
    (s.subrange(0, k), s.subrange(class_end(s, k, CharClass::Whitespace), s.len() as int))
}

/// Splits a definition into its first word, up to the first ASCII whitespace, and the rest
/// after the whitespace that follows it.
pub fn split_name<'a>(s: &'a str) -> (r: (&'a str, &'a str))
    ensures
        r.0@ == split_name_spec(s@).0,
        r.1@ == split_name_spec(s@).1,
{
    let cs = chars_of(s);
    let k = class_end_exec(&cs, 0, CharClass::NonSpace);
    proof {
        lemma_class_end(cs@, 0, CharClass::NonSpace);
    }
    let j = class_end_exec(&cs, k, CharClass::Whitespace);
    proof {
        lemma_class_end(cs@, k as int, CharClass::Whitespace);
    }
    (substring(s, 0, k), substring(s, j, cs.len()))
}

/// The keyword names of an entity definition, in the order of [`EntityKeyword`].
pub open spec fn entity_keyword_names() -> Seq<Seq<char>> {
    seq!["private"@, "publish"@, "delete"@, "add"@, "remove"@]
}

/// The keyword set whose members are the indices of [`entity_keyword_names`] in `s`.
pub open spec fn entity_keywords_of(s: Set<int>) -> EntityKeywords {
    EntityKeywords {
        private: s.contains(0),
        publish: s.contains(1),
        delete: s.contains(2),
        add: s.contains(3),
        remove: s.contains(4),
    }
}

/// Each keyword word of an entity definition sets exactly the flag of the keyword it names:
/// where word `i` of the keyword list names `kw` (as [`EntityKeyword::parse`] reads it), `kw`
/// is among the keywords exactly when word `i` was given, and every keyword is named by one of
/// the words.
pub proof fn law_entity_keyword_words(given: Set<int>, kw: EntityKeyword)
    ensures
        exists|i: int| 0 <= i < entity_keyword_names().len() && entity_keyword_of(
            #[trigger] entity_keyword_names()[i],
        ) == Some(kw),
        forall|i: int|
            0 <= i < entity_keyword_names().len() && entity_keyword_of(
                #[trigger] entity_keyword_names()[i],
            ) == Some(kw) ==> (entity_keywords_of(given).has(kw) <==> given.contains(i)),
{
    reveal_strlit("private");
    reveal_strlit("publish");
    reveal_strlit("delete");
    reveal_strlit("add");
    reveal_strlit("remove");
    let n = entity_keyword_names();
    lemma_differ_at("publish"@, "private"@, 1);
    lemma_differ_len("delete"@, "private"@);
    lemma_differ_len("delete"@, "publish"@);
    lemma_differ_len("add"@, "private"@);
    lemma_differ_len("add"@, "publish"@);
    lemma_differ_len("add"@, "delete"@);
    lemma_differ_len("remove"@, "private"@);
    lemma_differ_len("remove"@, "publish"@);
    lemma_differ_at("remove"@, "delete"@, 0);
    lemma_differ_len("remove"@, "add"@);
    assert(entity_keyword_of(n[0]) == Some(EntityKeyword::Private));
    assert(entity_keyword_of(n[1]) == Some(EntityKeyword::Publish));
    assert(entity_keyword_of(n[2]) == Some(EntityKeyword::Delete));
    assert(entity_keyword_of(n[3]) == Some(EntityKeyword::Add));
    assert(entity_keyword_of(n[4]) == Some(EntityKeyword::Remove));
}

/// What parsing the body of an entity definition gives: its name, value, description and
/// keywords.
pub open spec fn entity_definition_spec(source: Seq<char>) -> Result<
    (Seq<char>, Seq<char>, Option<Seq<char>>, EntityKeywords),
    (ErrorKind, Seq<char>),
> {
    let t = trim_ascii(source);
    match next_word(t, 0) {
        None => Err((ErrorKind::IncompleteElement, t)),
        Some((name, p1)) => if !valid_name(name) {
            Err((ErrorKind::InvalidElementName, name))
        } else {
            let e = extend_spec(t, p1, Seq::empty(), Map::empty());
            match e.2 {
                Some(err) => Err(err),
                None => {
                    let (v, kw, lo) = split_keywords(e.0, entity_keyword_names());
                    match v {
                        None => Err((ErrorKind::EmptyElementInDefinition, t)),
                        Some(value) => match lo {
                            Some(l) => Err((ErrorKind::UnexpectedArgument, l)),
                            None => Ok(
                                (name, value, named_arg(e.1, "desc"@), entity_keywords_of(kw)),
                            ),
                        },
                    }
                },
            }
        },
    }
}

/// How an entity definition is written.
pub open spec fn entity_definition_text(
    name: Seq<char>,
    value: Seq<char>,
    desc: Option<Seq<char>>,
    kw: EntityKeywords,
) -> Seq<char> {
    "<!EN "@ + name + " \""@ + value + "\""@ + match desc {
        Some(d) => " DESC=\""@ + d + "\""@,
        None => Seq::empty(),
    } + keywords_text(kw, 5) + ">"@
}

/// A space and the keyword's name, when it is present.
pub open spec fn keyword_text(present: bool, k: EntityKeyword) -> Seq<char> {
    if present {
        seq![' '] + entity_keyword_name(k)
    } else {
        Seq::empty()
    }
}

/// Syntax tree of an entity definition from the server, in the form of
/// `<!ENTITY {name} {value} ...>`.
#[derive(Copy, Clone, Debug, PartialEq, Eq)]
pub struct EntityDefinition<'a> {
    /// Name of the entity.
    pub name: &'a str,
    /// Value of the entity.
    pub value: &'a str,
    /// Optional description of the entity.
    pub desc: Option<&'a str>,
    /// Set of keywords included in the definition.
    pub keywords: EntityKeywords,
}

impl<'a> EntityDefinition<'a> {
    /// Parses the body of an entity definition: a name, a value, an optional `DESC=`
    /// description, and keywords.
    pub fn parse(source: &'a str) -> (r: Result<Self, Error>)
        ensures
            match entity_definition_spec(source@) {
                Ok((name, value, desc, kw)) => r matches Ok(d) && d.name@ == name && d.value@
                    == value && opt_view(d.desc) == desc && d.keywords == kw,
                Err(e) => r matches Err(x) && x@ == e,
            },
    {
        let mut words = Words::new(source);
        let src = words.source();
        let name = match words.next_or(ErrorKind::IncompleteElement) {
            Ok(n) => n,
            Err(e) => return Err(e),
        };
        match validate(name, ErrorKind::InvalidElementName) {
            Ok(()) => {},
            Err(e) => return Err(e),
        }
        let args = match words.parse_args() {
            Ok(a) => a,
            Err(e) => return Err(e),
        };
        let names: [&str; 5] = ["private", "publish", "delete", "add", "remove"];
        let (value, flags, leftover) = args.split_keywords(names.as_slice());
        proof {
            reveal_strlit("private");
            reveal_strlit("publish");
            reveal_strlit("delete");
            reveal_strlit("add");
            reveal_strlit("remove");
            assert(names@.map_values(|n: &str| n@) =~= entity_keyword_names());
        }
        let value = match value {
            Some(v) => v,
            None => return Err(Error::new(src, ErrorKind::EmptyElementInDefinition)),
        };
        let desc = args.get_named("desc");
        proof {
            reveal_strlit("desc");
            assert(ascii_lower_seq("desc"@) =~= "desc"@);
        }
        match leftover {
            Some(l) => return Err(Error::new(l, ErrorKind::UnexpectedArgument)),
            None => {},
        }
        let keywords = EntityKeywords {
            private: flags[0],
            publish: flags[1],
            delete: flags[2],
            add: flags[3],
            remove: flags[4],
        };
        Ok(EntityDefinition { name, value, desc, keywords })
    }

    /// The definition as the server writes it.
    pub fn to_string(&self) -> (r: String)
        ensures
            r@ == entity_definition_text(self.name@, self.value@, opt_view(self.desc), self.keywords),
    {
        let mut s = String::new();
        push_str(&mut s, "<!EN ");
        push_str(&mut s, self.name);
        push_str(&mut s, " \"");
        push_str(&mut s, self.value);
        push_char(&mut s, '"');
        match self.desc {
            Some(d) => {
                push_str(&mut s, " DESC=\"");
                push_str(&mut s, d);
                push_char(&mut s, '"');
            },
            None => {},
        }
        let ghost head = s@;
        proof {
            reveal_strlit("<!EN ");
            reveal_strlit(" \"");
            reveal_strlit(" DESC=\"");
            reveal_strlit("\"");
            assert(head =~= "<!EN "@ + self.name@ + " \""@ + self.value@ + "\""@ + match opt_view(self.desc) {
                Some(d) => " DESC=\""@ + d + "\""@,
                None => Seq::empty(),
            });
        }
        let kws: [EntityKeyword; 5] = [
            EntityKeyword::Private,
            EntityKeyword::Publish,
            EntityKeyword::Delete,
            EntityKeyword::Add,
            EntityKeyword::Remove,
        ];
        let mut i: usize = 0;
        while i < 5
            invariant
                i <= 5,
                kws@ == seq![
                    EntityKeyword::Private,
                    EntityKeyword::Publish,
                    EntityKeyword::Delete,
                    EntityKeyword::Add,
                    EntityKeyword::Remove,
                ],
                s@ == head + keywords_text(self.keywords, i as int),
            decreases 5 - i,
        {
            let k = kws[i];
            if self.keywords.contains(k) {
                push_char(&mut s, ' ');
                push_str(&mut s, k.name());
            }
            assert(s@ =~= head + keywords_text(self.keywords, i + 1));
            i += 1;
        }
        push_char(&mut s, '>');
        proof {
            reveal_strlit("<!EN ");
            reveal_strlit(" \"");
            reveal_strlit(" DESC=\"");
            reveal_strlit("\"");
            reveal_strlit(">");
            assert(s@ =~= entity_definition_text(
                self.name@,
                self.value@,
                opt_view(self.desc),
                self.keywords,
            ));
        }
        s
    }
}

/// The keywords of the first `n` in [`EntityKeyword`] order, as written in a definition.
pub open spec fn keywords_text(kw: EntityKeywords, n: int) -> Seq<char>
    decreases n,
{
    if n <= 0 {
        Seq::empty()
    } else {
        let k = if n == 1 {
            EntityKeyword::Private
        } else if n == 2 {
            EntityKeyword::Publish
        } else if n == 3 {
            EntityKeyword::Delete
        } else if n == 4 {
            EntityKeyword::Add
        } else {
            EntityKeyword::Remove
        };
        if n > 5 {
            keywords_text(kw, 5)
        } else {
            keywords_text(kw, n - 1) + keyword_text(kw.has(k), k)
        }
    }
}

/// Attribute text without the quotes that surround it: a leading and a trailing `'` are each
/// dropped.
pub open spec fn unquote_spec(s: Seq<char>) -> Seq<char> {
    if s.len() >= 2 && s[0] == '\'' && s.last() == '\'' {
        s.subrange(1, s.len() - 1)
    } else if s.len() >= 1 && s[0] == '\'' {
        s.subrange(1, s.len() as int)
    } else if s.len() >= 1 && s.last() == '\'' {
        s.subrange(0, s.len() - 1)
    } else {
        s
    }
}

/// What parsing the body of an attribute list definition gives: its name and attributes.
pub open spec fn attribute_list_spec(source: Seq<char>) -> Result<
    (Seq<char>, Seq<char>),
    (ErrorKind, Seq<char>),
> {
    let (name, rest) = split_name_spec(source);
    if name.len() == 0 {
        Err((ErrorKind::IncompleteElement, "empty attribute list"@))
    } else if !valid_name(name) {
        Err((ErrorKind::InvalidElementName, name))
    } else {
        Ok((name, unquote_spec(rest)))
    }
}

/// Syntax tree of an attribute list definition from the server, in the form of
/// `<!ATTLIST {name} ...>`.
#[derive(Copy, Clone, Debug, PartialEq, Eq)]
pub struct AttributeListDefinition<'a> {
    /// Name of the element for which the additional attributes are being defined.
    pub name: &'a str,
    /// The attributes, forwarded to the element's arguments.
    pub attributes: &'a str,
}

impl<'a> AttributeListDefinition<'a> {
    /// Parses the body of an attribute list definition: a name and the attributes, which may be
    /// quoted.
    pub fn parse(source: &'a str) -> (r: Result<Self, Error>)
        ensures
            match attribute_list_spec(source@) {
                Ok((name, atts)) => r matches Ok(d) && d.name@ == name && d.attributes@ == atts,
                Err(e) => r matches Err(x) && x@ == e,
            },
    {
        let (name, attributes) = split_name(source);
        if name.unicode_len() == 0 {
            proof {
                reveal_strlit("empty attribute list");
            }
            return Err(Error::new("empty attribute list", ErrorKind::IncompleteElement));
        }
        match validate(name, ErrorKind::InvalidElementName) {
            Ok(()) => {},
            Err(e) => return Err(e),
        }
        Ok(AttributeListDefinition { name, attributes: Self::unquote(attributes) })
    }

    /// Strips a leading and a trailing `'`.
    pub fn unquote(s: &'a str) -> (r: &'a str)
        ensures
            r@ == unquote_spec(s@),
    {
        let n = s.unicode_len();
        if n >= 2 && s.get_char(0) == '\'' && s.get_char(n - 1) == '\'' {
            substring(s, 1, n - 1)
        } else if n >= 1 && s.get_char(0) == '\'' {
            substring(s, 1, n)
        } else if n >= 1 && s.get_char(n - 1) == '\'' {
            substring(s, 0, n - 1)
        } else {
            s
        }
    }

    /// The definition as the server writes it: `<!AT {name} '{attributes}'>`.
    pub fn to_string(&self) -> (r: String)
        ensures
            r@ == "<!AT "@ + self.name@ + " '"@ + self.attributes@ + "'>"@,
    {
        let mut s = String::new();
        push_str(&mut s, "<!AT ");
        push_str(&mut s, self.name);
        push_str(&mut s, " '");
        push_str(&mut s, self.attributes);
        push_str(&mut s, "'>");
        s
    }
}

/// The view of a line tag definition.
pub struct LineTagView {
    /// Tag number.
    pub index: u8,
    /// Window to redirect the text to.
    pub window: Option<Seq<char>>,
    /// Whether the text is gagged from the main window.
    pub gag: Option<bool>,
    /// Text color.
    pub fore: Option<RgbColor>,
    /// Background color.
    pub back: Option<RgbColor>,
    /// Whether the tag is enabled or disabled.
    pub enable: Option<bool>,
}

/// The keyword names of a line tag definition.
pub open spec fn line_tag_keyword_names() -> Seq<Seq<char>> {
    seq!["gag"@, "enable"@, "disable"@]
}

/// A decimal number that fits in a `u8`, with an optional `+`, as `u8::from_str` reads it.
pub open spec fn parse_u8_text(s: Seq<char>) -> Option<u8> {
    match parse_u32_radix(s, 10) {
        Some(v) => if v <= 255 {
            Some(v as u8)
        } else {
            None
        },
        None => None,
    }
}

/// An optional color argument: absent, a color, or an error about an unknown color.
pub open spec fn color_arg(arg: Option<Seq<char>>) -> Result<Option<RgbColor>, (ErrorKind, Seq<char>)> {
    match arg {
        None => Ok(None),
        Some(a) => match named_color(a) {
            Some(c) => Ok(Some(c)),
            None => Err((ErrorKind::UnknownColor, a)),
        },
    }
}

/// What a line tag definition's arguments give.
pub open spec fn line_tag_from_args(
    positional: Seq<Seq<char>>,
    named: Map<Seq<char>, Seq<char>>,
) -> Result<LineTagView, (ErrorKind, Seq<char>)> {
    let (value, kw, leftover) = split_keywords(positional, line_tag_keyword_names());
    match value {
        None => Err((ErrorKind::IncompleteArguments, "Tag"@)),
        Some(v) => match parse_u8_text(v) {
            None => Err((ErrorKind::InvalidNumber, v)),
            Some(index) => if !mode_is_user_defined(index) {
                Err((ErrorKind::IllegalLineTag, decimal_text(index as nat)))
            } else {
                match color_arg(named_arg(named, "fore"@)) {
                    Err(e) => Err(e),
                    Ok(fore) => match color_arg(named_arg(named, "back"@)) {
                        Err(e) => Err(e),
                        Ok(back) => match leftover {
                            Some(l) => Err((ErrorKind::UnexpectedArgument, l)),
                            None => Ok(
                                LineTagView {
                                    index,
                                    window: named_arg(named, "windowname"@),
                                    gag: if kw.contains(0) {
                                        Some(true)
                                    } else {
                                        None
                                    },
                                    fore,
                                    back,
                                    enable: if kw.contains(2) {
                                        Some(false)
                                    } else if kw.contains(1) {
                                        Some(true)
                                    } else {
                                        None
                                    },
                                },
                            ),
                        },
                    },
                }
            },
        },
    }
}

/// What parsing the body of a line tag definition gives.
pub open spec fn line_tag_spec(source: Seq<char>) -> Result<LineTagView, (ErrorKind, Seq<char>)> {
    let e = extend_spec(trim_ascii(source), 0, Seq::empty(), Map::empty());
    match e.2 {
        Some(err) => Err(err),
        None => line_tag_from_args(e.0, e.1),
    }
}

/// How a line tag definition is written.
pub open spec fn line_tag_text(d: LineTagView) -> Seq<char> {
    "<!TAG "@ + decimal_text(d.index as nat) + match d.window {
        Some(w) => " WINDOWNAME=\""@ + w + "\""@,
        None => Seq::empty(),
    } + if d.gag == Some(true) {
        " GAG"@
    } else {
        Seq::empty()
    } + match d.fore {
        Some(c) => " FORE="@ + color_text(c),
        None => Seq::empty(),
    } + match d.back {
        Some(c) => " BACK="@ + color_text(c),
        None => Seq::empty(),
    } + match d.enable {
        Some(true) => " ENABLE>"@,
        Some(false) => " DISABLE>"@,
        None => ">"@,
    }
}

/// Parsed representation of a line tag definition from the server, in the form of
/// `<!TAG {index} ...>`.
#[derive(Copy, Clone, Debug, PartialEq, Eq)]
pub struct LineTagDefinition<'a> {
    /// Tag number (20-99) to change.
    pub index: Mode,
    /// Window to redirect the text to.
    pub window: Option<&'a str>,
    /// Text should be gagged from the main MUD window.
    pub gag: Option<bool>,
    /// Text color.
    pub fore: Option<RgbColor>,
    /// Background color of the text.
    pub back: Option<RgbColor>,
    /// If `Some(true)`, activates the line tag. If `Some(false)`, deactivates it.
    pub enable: Option<bool>,
}

impl<'a> View for LineTagDefinition<'a> {
    type V = LineTagView;

    open spec fn view(&self) -> LineTagView {
        LineTagView {
            index: self.index.0,
            window: opt_view(self.window),
            gag: self.gag,
            fore: self.fore,
            back: self.back,
            enable: self.enable,
        }
    }
}

fn color_arg_exec(arg: Option<&str>) -> (r: Result<Option<RgbColor>, Error>)
    ensures
        match color_arg(opt_view(arg)) {
            Ok(c) => r == Ok::<Option<RgbColor>, Error>(c),
            Err(e) => r matches Err(x) && x@ == e,
        },
{
    match arg {
        None => Ok(None),
        Some(a) => match RgbColor::named(a) {
            Some(c) => Ok(Some(c)),
            None => Err(Error::new(a, ErrorKind::UnknownColor)),
        },
    }
}

fn parse_u8(s: &str) -> (r: Option<u8>)
    ensures
        r == parse_u8_text(s@),
{
    let cs = chars_of(s);
    match parse_u32(cs.as_slice(), 10) {
        Some(v) => if v <= 255 {
            Some(v as u8)
        } else {
            None
        },
        None => None,
    }
}

impl<'a> LineTagDefinition<'a> {
    /// Parses the body of a line tag definition: the tag number, `WINDOWNAME=`, `FORE=` and
    /// `BACK=` arguments, and the `GAG`, `ENABLE` and `DISABLE` keywords.
    pub fn parse(source: &'a str) -> (r: Result<Self, Error>)
        ensures
            match line_tag_spec(source@) {
                Ok(v) => r matches Ok(d) && d@ == v,
                Err(e) => r matches Err(x) && x@ == e,
            },
    {
        let args = match Arguments::parse(source) {
            Ok(a) => a,
            Err(e) => return Err(e),
        };
        let names: [&str; 3] = ["gag", "enable", "disable"];
        let (value, flags, leftover) = args.split_keywords(names.as_slice());
        proof {
            reveal_strlit("gag");
            reveal_strlit("enable");
            reveal_strlit("disable");
            assert(names@.map_values(|n: &str| n@) =~= line_tag_keyword_names());
        }
        let value = match value {
            Some(v) => v,
            None => {
                proof {
                    reveal_strlit("Tag");
                }
                return Err(Error::new("Tag", ErrorKind::IncompleteArguments));
            },
        };
        let index = match parse_u8(value) {
            Some(i) => Mode(i),
            None => return Err(Error::new(value, ErrorKind::InvalidNumber)),
        };
        if !index.is_user_defined() {
            return Err(Error::from_string(decimal_string(index.0 as u32), ErrorKind::IllegalLineTag));
        }
        let window = args.get_named("windowname");
        let fore_arg = args.get_named("fore");
        let back_arg = args.get_named("back");
        proof {
            reveal_strlit("windowname");
            reveal_strlit("fore");
            reveal_strlit("back");
            assert(ascii_lower_seq("windowname"@) =~= "windowname"@);
            assert(ascii_lower_seq("fore"@) =~= "fore"@);
            assert(ascii_lower_seq("back"@) =~= "back"@);
        }
        let fore = match color_arg_exec(fore_arg) {
            Ok(c) => c,
            Err(e) => return Err(e),
        };
        let back = match color_arg_exec(back_arg) {
            Ok(c) => c,
            Err(e) => return Err(e),
        };
        match leftover {
            Some(l) => return Err(Error::new(l, ErrorKind::UnexpectedArgument)),
            None => {},
        }
        let gag = if flags[0] {
            Some(true)
        } else {
            None
        };
        let enable = if flags[2] {
            Some(false)
        } else if flags[1] {
            Some(true)
        } else {
            None
        };
        Ok(LineTagDefinition { index, window, gag, fore, back, enable })
    }

    /// The definition as the server writes it.
    pub fn to_string(&self) -> (r: String)
        ensures
            r@ == line_tag_text(self@),
    {
        let mut s = String::new();
        push_str(&mut s, "<!TAG ");
        let n = decimal_string(self.index.0 as u32);
        push_str(&mut s, n.as_str());
        proof {
            reveal_strlit("<!TAG ");
        }
        let ghost a = s@;
        assert(a =~= "<!TAG "@ + decimal_text(self.index.0 as nat));
        self.push_window(&mut s);
        self.push_colors(&mut s);
        let ghost e = s@;
        match self.enable {
            Some(true) => push_str(&mut s, " ENABLE>"),
            Some(false) => push_str(&mut s, " DISABLE>"),
            None => push_str(&mut s, ">"),
        }
        proof {
            reveal_strlit(" ENABLE>");
            reveal_strlit(" DISABLE>");
            reveal_strlit(">");
        }
        assert(s@ =~= line_tag_text(self@));
        s
    }

    fn push_window(&self, s: &mut String)
        ensures
            final(s)@ == old(s)@ + match opt_view(self.window) {
                Some(w) => " WINDOWNAME=\""@ + w + "\""@,
                None => Seq::empty(),
            } + if self.gag == Some(true) {
                " GAG"@
            } else {
                Seq::empty()
            },
    {
        proof {
            reveal_strlit(" WINDOWNAME=\"");
            reveal_strlit("\"");
            reveal_strlit(" GAG");
        }
        let ghost s0 = s@;
        match self.window {
            Some(w) => {
                push_str(s, " WINDOWNAME=\"");
                push_str(s, w);
                push_char(s, '"');
                assert(s@ =~= s0 + (" WINDOWNAME=\""@ + w@ + "\""@));
            },
            None => {
                assert(s@ =~= s0 + Seq::<char>::empty());
            },
        }
        let ghost s1 = s@;
        if self.gag == Some(true) {
            push_str(s, " GAG");
        } else {
            assert(s@ =~= s1 + Seq::<char>::empty());
        }
        assert(s@ =~= s0 + (s1.subrange(s0.len() as int, s1.len() as int)) + s@.subrange(
            s1.len() as int,
            s@.len() as int,
        ));
    }

    fn push_colors(&self, s: &mut String)
        ensures
            final(s)@ == old(s)@ + match self.fore {
                Some(c) => " FORE="@ + color_text(c),
                None => Seq::empty(),
            } + match self.back {
                Some(c) => " BACK="@ + color_text(c),
                None => Seq::empty(),
            },
    {
        proof {
            reveal_strlit(" FORE=");
            reveal_strlit(" BACK=");
        }
        let ghost s0 = s@;
        match self.fore {
            Some(f) => {
                push_str(s, " FORE=");
                let t = f.to_string();
                push_str(s, t.as_str());
                assert(s@ =~= s0 + (" FORE="@ + color_text(f)));
            },
            None => {
                assert(s@ =~= s0 + Seq::<char>::empty());
            },
        }
        let ghost s1 = s@;
        match self.back {
            Some(k) => {
                push_str(s, " BACK=");
                let t = k.to_string();
                push_str(s, t.as_str());
                assert(s@ =~= s1 + (" BACK="@ + color_text(k)));
            },
            None => {
                assert(s@ =~= s1 + Seq::<char>::empty());
            },
        }
    }
}

} // verus!

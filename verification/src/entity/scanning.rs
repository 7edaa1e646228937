//! Reading the arguments of atomic tags into typed structures.
use vstd::prelude::*;

use crate::color::{named_color, RgbColor};
use crate::parse::arguments::Arguments;
use crate::parse::words::{find_from, find_from_exec, lemma_find_from};
use crate::text::{
    ascii_lower_seq, chars_of, eq_ignore_case, first_match_ci, lemma_differ_len,
    lemma_eq_ignore_case_trans, match_ci, str_eq_ignore_case,
    substring,
};

verus! {

/// The index of the first positional argument at or after `i` that is not one of `keywords`, or
/// the length.
pub open spec fn next_positional(args: Seq<Seq<char>>, keywords: Seq<Seq<char>>, i: int) -> int
    decreases args.len() - i,
{
    if i >= args.len() || i < 0 {
        args.len() as int
    } else if first_match_ci(args[i], keywords, 0) is Some {
        next_positional(args, keywords, i + 1)
    } else {
        i
    }
}

/// The value of the first of `names` that is a named argument.
pub open spec fn first_named(named: Map<Seq<char>, Seq<char>>, names: Seq<Seq<char>>) -> Option<Seq<char>>
    decreases names.len(),
{
    if names.len() == 0 {
        None
    } else if named.contains_key(ascii_lower_seq(names[0])) {
        Some(named[ascii_lower_seq(names[0])])
    } else {
        first_named(named, names.drop_first())
    }
}

/// Reads the arguments of a tag in order: each positional argument in turn, skipping keywords,
/// and once they run out, named arguments.
pub struct ArgumentScanner<'b, 'a> {
    args: &'b Arguments<'a>,
    keywords: Vec<&'static str>,
    index: usize,
}

impl<'b, 'a> ArgumentScanner<'b, 'a> {
    /// The arguments being read.
    pub closed spec fn arguments(&self) -> Arguments<'a> {
        *self.args
    }

    /// The keywords that positional reading skips.
    pub closed spec fn keywords(&self) -> Seq<Seq<char>> {
        self.keywords@.map_values(|k: &str| k@)
    }

    /// The index of the next positional argument to consider.
    pub closed spec fn index(&self) -> int {
        self.index as int
    }

    /// Starts reading arguments, skipping the positional arguments that are one of `keywords`.
    pub fn new(args: &'b Arguments<'a>, keywords: Vec<&'static str>) -> (r: Self)
        ensures
            r.arguments() == *args,
            r.keywords() == keywords@.map_values(|k: &str| k@),
            r.index() == 0,
    {
        ArgumentScanner { args, keywords, index: 0 }
    }

    /// Whether a keyword is among the positional arguments.
    pub fn has_keyword(&self, keyword: &str) -> (r: bool)
        ensures
            r == exists|i: int|
                0 <= i < self.arguments().positional_view().len() && eq_ignore_case(
                    #[trigger] self.arguments().positional_view()[i],
                    keyword@,
                ),
    {
        let n = self.args.positional_len();
        let mut i: usize = 0;
        while i < n
            invariant
                i <= n,
                n == self.arguments().positional_view().len(),
                forall|j: int| 0 <= j < i ==> !eq_ignore_case(
                    #[trigger] self.arguments().positional_view()[j],
                    keyword@,
                ),
            decreases n - i,
        {
            if str_eq_ignore_case(self.args.positional_at(i), keyword) {
                return true;
            }
            i += 1;
        }
        false
    }

    /// The next positional argument that is not a keyword; once there are none, the value of
    /// the first of `names` that is a named argument.
    pub fn next_or(&mut self, names: &[&str]) -> (r: Option<&'a str>)
        ensures
            final(self).arguments() == old(self).arguments(),
            final(self).keywords() == old(self).keywords(),
            ({
                let pos = old(self).arguments().positional_view();
                let j = next_positional(pos, old(self).keywords(), old(self).index());
                if 0 <= j < pos.len() {
                    &&& r matches Some(v) && v@ == pos[j]
                    &&& final(self).index() == j + 1
                } else {
                    &&& final(self).index() == old(self).index()
                    &&& match first_named(
                        old(self).arguments().named_view(),
                        names@.map_values(|n: &str| n@),
                    ) {
                        Some(v) => r matches Some(x) && x@ == v,
                        None => r is None,
                    }
                }
            }),
    {
        let n = self.args.positional_len();
        let ghost pos = self.arguments().positional_view();
        let ghost kws = self.keywords();
        let mut j = self.index;
        if j > n {
            j = n;
        }
        proof {
            if self.index > n {
                assert(next_positional(pos, kws, self.index as int) == pos.len());
                assert(next_positional(pos, kws, n as int) == pos.len());
            }
        }
        while j < n
            invariant
                j <= n,
                n == pos.len(),
                pos == self.arguments().positional_view(),
                kws == self.keywords(),
                self.args == old(self).args,
                self.keywords@ == old(self).keywords@,
                self.index == old(self).index,
                self.index <= n ==> next_positional(pos, kws, self.index as int) == next_positional(pos, kws, j as int),
                self.index > n ==> next_positional(pos, kws, self.index as int) == pos.len() && j == n,
            decreases n - j,
        {
            let arg = self.args.positional_at(j);
            if match_ci(arg, self.keywords.as_slice()).is_none() {
                self.index = j + 1;
                return Some(arg);
            }
            j += 1;
        }
        self.first_named(names)
    }

    /// The value of the named argument `name`; if there is none, the next positional argument
    /// that is not a keyword.
    pub fn named_or_next(&mut self, name: &str) -> (r: Option<&'a str>)
        ensures
            final(self).arguments() == old(self).arguments(),
            final(self).keywords() == old(self).keywords(),
            ({
                let e = named_or_next_spec(
                    old(self).arguments().positional_view(),
                    old(self).arguments().named_view(),
                    old(self).keywords(),
                    old(self).index(),
                    name@,
                );
                &&& opt_str(r) == e.0
                &&& final(self).index() == e.1
            }),
    {
        let names: [&str; 1] = [name];
        assert(names@.map_values(|n: &str| n@) =~= seq![name@]);
        match self.first_named(names.as_slice()) {
            Some(v) => Some(v),
            None => {
                let empty: [&str; 0] = [];
                assert(empty@.map_values(|n: &str| n@) =~= Seq::<Seq<char>>::empty());
                self.next_or(empty.as_slice())
            },
        }
    }

    pub(crate) fn first_named(&self, names: &[&str]) -> (r: Option<&'a str>)
        ensures
            match first_named(self.arguments().named_view(), names@.map_values(|n: &str| n@)) {
                Some(v) => r matches Some(x) && x@ == v,
                None => r is None,
            },
    {
        let ghost ns = names@.map_values(|n: &str| n@);
        assert(ns.subrange(0, ns.len() as int) =~= ns);
        let mut i: usize = 0;
        while i < names.len()
            invariant
                i <= names@.len(),
                ns == names@.map_values(|n: &str| n@),
                first_named(self.arguments().named_view(), ns) == first_named(
                    self.arguments().named_view(),
                    ns.subrange(i as int, ns.len() as int),
                ),
            decreases names@.len() - i,
        {
            let ghost rest = ns.subrange(i as int, ns.len() as int);
            assert(rest.drop_first() =~= ns.subrange(i + 1, ns.len() as int));
            match self.args.get_named(names[i]) {
                Some(v) => return Some(v),
                None => {},
            }
            i += 1;
        }
        None
    }
}

/// Arguments of `<AFK>`.
#[derive(Copy, Clone, Debug, Default, PartialEq, Eq)]
pub struct AfkArgs<'a> {
    /// Challenge the client must answer with.
    pub challenge: Option<&'a str>,
}

/// Arguments of `<COLOR>`.
#[derive(Copy, Clone, Debug, Default, PartialEq, Eq)]
pub struct ColorArgs {
    /// Foreground color.
    pub fore: Option<RgbColor>,
    /// Background color.
    pub back: Option<RgbColor>,
}

/// Styles that `<FONT COLOR=...>` can set.
#[derive(Copy, Clone, Debug, PartialEq, Eq, Hash, Structural)]
pub enum FontStyle {
    /// Blinking text.
    Blink,
    /// Bold text.
    Bold,
    /// Swapped colors.
    Inverse,
    /// Italic text.
    Italic,
    /// Underlined text.
    Underline,
}

/// The style a word names, compared without regard to ASCII case.
pub open spec fn font_style_named(s: Seq<char>) -> Option<FontStyle> {
    if eq_ignore_case(s, "blink"@) {
        Some(FontStyle::Blink)
    } else if eq_ignore_case(s, "bold"@) {
        Some(FontStyle::Bold)
    } else if eq_ignore_case(s, "inverse"@) {
        Some(FontStyle::Inverse)
    } else if eq_ignore_case(s, "italic"@) {
        Some(FontStyle::Italic)
    } else if eq_ignore_case(s, "underline"@) {
        Some(FontStyle::Underline)
    } else {
        None
    }
}

/// The word that names a font style.
pub open spec fn font_style_word(x: FontStyle) -> Seq<char> {
    match x {
        FontStyle::Blink => "blink"@,
        FontStyle::Bold => "bold"@,
        FontStyle::Inverse => "inverse"@,
        FontStyle::Italic => "italic"@,
        FontStyle::Underline => "underline"@,
    }
}

/// A style word names exactly the style of the same name, up to ASCII case: reading `s` gives
/// style `x` if and only if `s` is `x`'s word. So distinct words give distinct styles.
pub proof fn law_font_style_words(s: Seq<char>, x: FontStyle)
    ensures
        font_style_named(s) == Some(x) <==> eq_ignore_case(s, font_style_word(x)),
{
    reveal_strlit("blink");
    reveal_strlit("bold");
    reveal_strlit("inverse");
    reveal_strlit("italic");
    reveal_strlit("underline");
    let words = seq!["blink"@, "bold"@, "inverse"@, "italic"@, "underline"@];
    assert forall|a: int, b: int| 0 <= a < 5 && 0 <= b < 5 && a != b implies !eq_ignore_case(
        #[trigger] words[a],
        #[trigger] words[b],
    ) by {
        lemma_differ_len(words[a], words[b]);
    }
    assert forall|a: int, b: int|
        0 <= a < 5 && 0 <= b < 5 && a != b && eq_ignore_case(s, #[trigger] words[a]) implies !eq_ignore_case(
            s,
            #[trigger] words[b],
        ) by {
        if eq_ignore_case(s, words[b]) {
            assert(eq_ignore_case(words[a], s));
            lemma_eq_ignore_case_trans(words[a], s, words[b]);
        }
    }
    assert(words[0] == "blink"@);
    assert(words[1] == "bold"@);
    assert(words[2] == "inverse"@);
    assert(words[3] == "italic"@);
    assert(words[4] == "underline"@);
}

impl FontStyle {
    /// Parses a style, ignoring ASCII case.
    pub fn parse(s: &str) -> (r: Option<FontStyle>)
        ensures
            r == font_style_named(s@),
    {
        if str_eq_ignore_case(s, "blink") {
            Some(FontStyle::Blink)
        } else if str_eq_ignore_case(s, "bold") {
            Some(FontStyle::Bold)
        } else if str_eq_ignore_case(s, "inverse") {
            Some(FontStyle::Inverse)
        } else if str_eq_ignore_case(s, "italic") {
            Some(FontStyle::Italic)
        } else if str_eq_ignore_case(s, "underline") {
            Some(FontStyle::Underline)
        } else {
            None
        }
    }
}

/// An effect that `<FONT COLOR=...>` can apply: a color or a style.
#[derive(Copy, Clone, Debug, PartialEq, Eq, Structural)]
pub enum FontEffect {
    /// A text color.
    Color(RgbColor),
    /// A text style.
    Style(FontStyle),
}

/// The effect a word names: a style, or else a color.
pub open spec fn font_effect_named(s: Seq<char>) -> Option<FontEffect> {
    match font_style_named(s) {
        Some(style) => Some(FontEffect::Style(style)),
        None => match named_color(s) {
            Some(c) => Some(FontEffect::Color(c)),
            None => None,
        },
    }
}

impl FontEffect {
    /// Parses an effect: a style name, or else a color.
    pub fn parse(s: &str) -> (r: Option<FontEffect>)
        ensures
            r == font_effect_named(s@),
    {
        match FontStyle::parse(s) {
            Some(style) => Some(FontEffect::Style(style)),
            None => match RgbColor::named(s) {
                Some(c) => Some(FontEffect::Color(c)),
                None => None,
            },
        }
    }
}

/// The parts of `s` between commas, from `i` on.
pub open spec fn comma_parts(s: Seq<char>, i: int) -> Seq<Seq<char>>
    decreases s.len() + 1 - i,
{
    if i > s.len() || i < 0 {
        Seq::empty()
    } else {
        let j = find_from(s, i, ',');
        proof {
            lemma_find_from(s, i, ',');
        }
        seq![s.subrange(i, j)] + comma_parts(s, j + 1)
    }
}

/// The effects that the comma-separated parts of a list name, in order; parts that name none
/// are left out.
pub open spec fn effects_of(parts: Seq<Seq<char>>) -> Seq<FontEffect>
    decreases parts.len(),
{
    if parts.len() == 0 {
        Seq::empty()
    } else {
        effects_of(parts.drop_last()) + match font_effect_named(parts.last()) {
            Some(e) => seq![e],
            None => Seq::empty(),
        }
    }
}

/// The comma-separated list of colors and styles of `<FONT COLOR=...>`.
#[derive(Copy, Clone, Debug, Default, PartialEq, Eq)]
pub struct FgColor<'a> {
    /// The list as written.
    pub inner: &'a str,
}

impl<'a> FgColor<'a> {
    /// The effects that the list names, in order.
    pub fn iter(&self) -> (r: Vec<FontEffect>)
        ensures
            r@ == effects_of(comma_parts(self.inner@, 0)),
    {
        let cs = chars_of(self.inner);
        let n = cs.len();
        let mut out: Vec<FontEffect> = Vec::new();
        let mut i: usize = 0;
        let ghost mut done: Seq<Seq<char>> = Seq::empty();
        loop
            invariant
                i <= n,
                n == cs@.len(),
                cs@ == self.inner@,
                comma_parts(cs@, 0) == done + comma_parts(cs@, i as int),
                out@ == effects_of(done),
            decreases n + 1 - i,
        {
            let j = find_from_exec(&cs, i, ',');
            proof {
                lemma_find_from(cs@, i as int, ',');
            }
            let part = substring(self.inner, i, j);
            match FontEffect::parse(part) {
                Some(e) => out.push(e),
                None => {},
            }
            proof {
                let old_done = done;
                done = done.push(part@);
                assert(done.drop_last() =~= old_done);
                assert(old_done + comma_parts(cs@, i as int) =~= done + comma_parts(cs@, j + 1));
            }
            if j >= n {
                assert(comma_parts(cs@, j + 1) =~= Seq::<Seq<char>>::empty());
                assert(done + Seq::<Seq<char>>::empty() =~= done);
                return out;
            }
            i = j + 1;
        }
    }
}

/// Arguments of `<FONT>`.
#[derive(Copy, Clone, Debug, Default, PartialEq, Eq)]
pub struct FontArgs<'a> {
    /// Colors and styles of the text.
    pub fgcolor: FgColor<'a>,
    /// Background color.
    pub bgcolor: Option<RgbColor>,
}

/// Arguments of `<A>`.
#[derive(Copy, Clone, Debug, Default, PartialEq, Eq)]
pub struct HyperlinkArgs<'a> {
    /// Link target.
    pub href: Option<&'a str>,
}

/// How Pueblo clients display an image link.
#[derive(Copy, Clone, Debug, PartialEq, Eq, Hash, Structural)]
pub enum XchMode {
    /// Plain text.
    Text,
    /// HTML.
    Html,
    /// HTML only.
    PureHtml,
}

/// The mode a word names, compared without regard to ASCII case.
pub open spec fn xch_mode_named(s: Seq<char>) -> Option<XchMode> {
    if eq_ignore_case(s, "text"@) {
        Some(XchMode::Text)
    } else if eq_ignore_case(s, "html"@) {
        Some(XchMode::Html)
    } else if eq_ignore_case(s, "purehtml"@) {
        Some(XchMode::PureHtml)
    } else {
        None
    }
}

impl XchMode {
    /// Parses a mode, ignoring ASCII case.
    pub fn parse(s: &str) -> (r: Option<XchMode>)
        ensures
            r == xch_mode_named(s@),
    {
        if str_eq_ignore_case(s, "text") {
            Some(XchMode::Text)
        } else if str_eq_ignore_case(s, "html") {
            Some(XchMode::Html)
        } else if str_eq_ignore_case(s, "purehtml") {
            Some(XchMode::PureHtml)
        } else {
            None
        }
    }
}

/// Arguments of `<IMG>`.
#[derive(Copy, Clone, Debug, Default, PartialEq, Eq)]
pub struct ImageArgs<'a> {
    /// File name.
    pub fname: Option<&'a str>,
    /// Location, from `URL=` or else `SRC=`.
    pub url: Option<&'a str>,
    /// Display mode.
    pub xch_mode: Option<XchMode>,
}

/// Where a `<SEND>` link sends its command.
#[derive(Copy, Clone, Debug, Default, PartialEq, Eq, Hash, Structural)]
pub enum SendTo {
    /// Send the command to the world.
    #[default]
    World,
    /// Put the command in the input field.
    Input,
}

/// Arguments of `<SEND>`.
#[derive(Copy, Clone, Debug, Default, PartialEq, Eq)]
pub struct SendArgs<'a> {
    /// The command.
    pub href: Option<&'a str>,
    /// The hint shown for the link.
    pub hint: Option<&'a str>,
    /// Where the command goes: the input field with `PROMPT`.
    pub sendto: SendTo,
}

/// Arguments of `<VAR>`.
#[derive(Copy, Clone, Debug, Default, PartialEq, Eq)]
pub struct VarArgs<'a> {
    /// Name of the variable.
    pub variable: Option<&'a str>,
}

/// What `<AFK>` arguments give: the challenge is the first positional argument, or
/// `CHALLENGE=`.
pub open spec fn afk_read<'a>(args: Arguments<'a>, r: AfkArgs<'a>) -> bool {
    opt_str(r.challenge) == (if args.positional_view().len() > 0 {
        Some(args.positional_view()[0])
    } else {
        first_named(args.named_view(), seq!["challenge"@])
    })
}

/// What `<A>` arguments give: the link target is the first positional argument, or `HREF=`.
pub open spec fn hyperlink_read<'a>(args: Arguments<'a>, r: HyperlinkArgs<'a>) -> bool {
    opt_str(r.href) == (if args.positional_view().len() > 0 {
        Some(args.positional_view()[0])
    } else {
        first_named(args.named_view(), seq!["href"@])
    })
}

/// What `<VAR>` arguments give: the variable is the first positional argument.
pub open spec fn var_read<'a>(args: Arguments<'a>, r: VarArgs<'a>) -> bool {
    opt_str(r.variable) == (if args.positional_view().len() > 0 {
        Some(args.positional_view()[0])
    } else {
        None::<Seq<char>>
    })
}

/// What `<COLOR>` arguments give: the colors named by the first two positional arguments,
/// or by `FORE=` and `BACK=`.
pub open spec fn color_read(args: Arguments, r: ColorArgs) -> bool {
    &&& r.fore == opt_color(
        if args.positional_view().len() > 0 {
            Some(args.positional_view()[0])
        } else {
            first_named(args.named_view(), seq!["fore"@])
        },
    )
    &&& r.back == opt_color(
        if args.positional_view().len() > 1 {
            Some(args.positional_view()[1])
        } else {
            first_named(args.named_view(), seq!["back"@])
        },
    )
}

/// What `<FONT>` arguments give: the colors and styles are the first positional argument,
/// or `COLOR=` or `FGCOLOR=` (empty if none); the background color is named by the second,
/// or by `BACK=` or `BGCOLOR=`.
pub open spec fn font_read<'a>(args: Arguments<'a>, r: FontArgs<'a>) -> bool {
    &&& r.fgcolor.inner@ == match (if args.positional_view().len() > 0 {
        Some(args.positional_view()[0])
    } else {
        first_named(args.named_view(), seq!["color"@, "fgcolor"@])
    }) {
        Some(v) => v,
        None => Seq::empty(),
    }
    &&& r.bgcolor == opt_color(
        if args.positional_view().len() > 1 {
            Some(args.positional_view()[1])
        } else {
            first_named(args.named_view(), seq!["back"@, "bgcolor"@])
        },
    )
}

/// What `<SEND>` arguments give: the command is the first positional argument that is not
/// `PROMPT`, or `HREF=` or `XCH_CMD=`; the hint is the next, or `HINT=` or `XCH_HINT=`; the
/// command goes to the input field when `PROMPT` is given.
pub open spec fn send_read<'a>(args: Arguments<'a>, r: SendArgs<'a>) -> bool {
    let pos = args.positional_view();
    let kw = seq!["prompt"@];
    let j0 = next_positional(pos, kw, 0);
    let j1 = next_positional(pos, kw, j0 + 1);
    &&& opt_str(r.href) == if j0 < pos.len() {
        Some(pos[j0])
    } else {
        first_named(args.named_view(), seq!["href"@, "xch_cmd"@])
    }
    &&& opt_str(r.hint) == if j0 < pos.len() && j1 < pos.len() {
        Some(pos[j1])
    } else {
        first_named(args.named_view(), seq!["hint"@, "xch_hint"@])
    }
    &&& (r.sendto == SendTo::Input) == exists|i: int|
        0 <= i < pos.len() && eq_ignore_case(#[trigger] pos[i], "prompt"@)
}

/// What image arguments give: `FNAME=`, `URL=` (or else `SRC=`) and the mode `XCH_MODE=`
/// names.
pub open spec fn image_args_read<'a>(args: Arguments<'a>, r: ImageArgs<'a>) -> bool {
    &&& opt_str(r.fname) == first_named(args.named_view(), seq!["fname"@])
    &&& opt_str(r.url) == first_named(args.named_view(), seq!["url"@, "src"@])
    &&& r.xch_mode == match first_named(args.named_view(), seq!["xch_mode"@]) {
        Some(m) => xch_mode_named(m),
        None => None,
    }
}

/// An optional `&str` taken by its view.
pub open spec fn opt_str(o: Option<&str>) -> Option<Seq<char>> {
    match o {
        Some(s) => Some(s@),
        None => None,
    }
}

/// The color an optional argument names, if any.
pub open spec fn opt_color(o: Option<Seq<char>>) -> Option<RgbColor> {
    match o {
        Some(s) => named_color(s),
        None => None,
    }
}

fn opt_color_exec(o: Option<&str>) -> (r: Option<RgbColor>)
    ensures
        r == opt_color(opt_str(o)),
{
    match o {
        Some(s) => RgbColor::named(s),
        None => None,
    }
}

impl<'a> AfkArgs<'a> {
    /// Reads the challenge: the first positional argument, or `CHALLENGE=`.
    pub fn from_arguments(args: &Arguments<'a>) -> (r: Self)
        ensures
            afk_read(*args, r),
    {
        let mut scanner = ArgumentScanner::new(args, Vec::new());
        let names: [&str; 1] = ["challenge"];
        proof {
            reveal_strlit("challenge");
            assert(names@.map_values(|n: &str| n@) =~= seq!["challenge"@]);
            assert(scanner.keywords() =~= Seq::<Seq<char>>::empty());
            if args.positional_view().len() > 0 {
                assert(first_match_ci(args.positional_view()[0], Seq::<Seq<char>>::empty(), 0) is None);
            }
        }
        AfkArgs { challenge: scanner.next_or(names.as_slice()) }
    }
}

impl<'a> HyperlinkArgs<'a> {
    /// Reads the link target: the first positional argument, or `HREF=`.
    pub fn from_arguments(args: &Arguments<'a>) -> (r: Self)
        ensures
            hyperlink_read(*args, r),
    {
        let mut scanner = ArgumentScanner::new(args, Vec::new());
        let names: [&str; 1] = ["href"];
        proof {
            reveal_strlit("href");
            assert(names@.map_values(|n: &str| n@) =~= seq!["href"@]);
            assert(scanner.keywords() =~= Seq::<Seq<char>>::empty());
            if args.positional_view().len() > 0 {
                assert(first_match_ci(args.positional_view()[0], Seq::<Seq<char>>::empty(), 0) is None);
            }
        }
        HyperlinkArgs { href: scanner.next_or(names.as_slice()) }
    }
}

impl<'a> VarArgs<'a> {
    /// Reads the variable name: the first positional argument.
    pub fn from_arguments(args: &Arguments<'a>) -> (r: Self)
        ensures
            var_read(*args, r),
    {
        if args.positional_len() > 0 {
            VarArgs { variable: Some(args.positional_at(0)) }
        } else {
            VarArgs { variable: None }
        }
    }
}

impl<'a> ImageArgs<'a> {
    /// Reads `FNAME=`, `URL=` (or else `SRC=`) and `XCH_MODE=`.
    pub fn from_arguments(args: &Arguments<'a>) -> (r: Self)
        ensures
            image_args_read(*args, r),
    {
        let scanner = ArgumentScanner::new(args, Vec::new());
        let fname_names: [&str; 1] = ["fname"];
        let url_names: [&str; 2] = ["url", "src"];
        let mode_names: [&str; 1] = ["xch_mode"];
        proof {
            reveal_strlit("fname");
            reveal_strlit("url");
            reveal_strlit("src");
            reveal_strlit("xch_mode");
            assert(fname_names@.map_values(|n: &str| n@) =~= seq!["fname"@]);
            assert(url_names@.map_values(|n: &str| n@) =~= seq!["url"@, "src"@]);
            assert(mode_names@.map_values(|n: &str| n@) =~= seq!["xch_mode"@]);
        }
        let fname = scanner.first_named(fname_names.as_slice());
        let url = scanner.first_named(url_names.as_slice());
        let xch_mode = match scanner.first_named(mode_names.as_slice()) {
            Some(m) => XchMode::parse(m),
            None => None,
        };
        ImageArgs { fname, url, xch_mode }
    }
}

impl ColorArgs {
    /// Reads the foreground and background colors: the first two positional arguments, or
    /// `FORE=` and `BACK=`. Arguments that name no color give none.
    pub fn from_arguments(args: &Arguments) -> (r: Self)
        ensures
            color_read(*args, r),
    {
        let mut scanner = ArgumentScanner::new(args, Vec::new());
        let fore_names: [&str; 1] = ["fore"];
        let back_names: [&str; 1] = ["back"];
        proof {
            reveal_strlit("fore");
            reveal_strlit("back");
            assert(fore_names@.map_values(|n: &str| n@) =~= seq!["fore"@]);
            assert(back_names@.map_values(|n: &str| n@) =~= seq!["back"@]);
            assert(scanner.keywords() =~= Seq::<Seq<char>>::empty());
            let pos = args.positional_view();
            if pos.len() > 0 {
                assert(first_match_ci(pos[0], Seq::<Seq<char>>::empty(), 0) is None);
            }
            if pos.len() > 1 {
                assert(first_match_ci(pos[1], Seq::<Seq<char>>::empty(), 0) is None);
            }
        }
        let fore = scanner.next_or(fore_names.as_slice());
        let back = scanner.next_or(back_names.as_slice());
        ColorArgs { fore: opt_color_exec(fore), back: opt_color_exec(back) }
    }
}

impl<'a> FontArgs<'a> {
    /// Reads the colors and styles (the first positional argument, or `COLOR=` or `FGCOLOR=`;
    /// empty if none) and the background color (the second, or `BACK=` or `BGCOLOR=`).
    pub fn from_arguments(args: &Arguments<'a>) -> (r: Self)
        ensures
            font_read(*args, r),
    {
        let mut scanner = ArgumentScanner::new(args, Vec::new());
        let fg_names: [&str; 2] = ["color", "fgcolor"];
        let bg_names: [&str; 2] = ["back", "bgcolor"];
        proof {
            reveal_strlit("color");
            reveal_strlit("fgcolor");
            reveal_strlit("back");
            reveal_strlit("bgcolor");
            reveal_strlit("");
            assert(""@ =~= Seq::<char>::empty());
            assert(fg_names@.map_values(|n: &str| n@) =~= seq!["color"@, "fgcolor"@]);
            assert(bg_names@.map_values(|n: &str| n@) =~= seq!["back"@, "bgcolor"@]);
            assert(scanner.keywords() =~= Seq::<Seq<char>>::empty());
            let pos = args.positional_view();
            if pos.len() > 0 {
                assert(first_match_ci(pos[0], Seq::<Seq<char>>::empty(), 0) is None);
            }
            if pos.len() > 1 {
                assert(first_match_ci(pos[1], Seq::<Seq<char>>::empty(), 0) is None);
            }
        }
        let fg = match scanner.next_or(fg_names.as_slice()) {
            Some(v) => v,
            None => "",
        };
        let bg = scanner.next_or(bg_names.as_slice());
        FontArgs { fgcolor: FgColor { inner: fg }, bgcolor: opt_color_exec(bg) }
    }
}

impl<'a> SendArgs<'a> {
    /// Reads the command (the first positional argument that is not `PROMPT`, or `HREF=` or
    /// `XCH_CMD=`), the hint (the second, or `HINT=` or `XCH_HINT=`), and whether `PROMPT` is
    /// given.
    pub fn from_arguments(args: &Arguments<'a>) -> (r: Self)
        ensures
            send_read(*args, r),
    {
        let mut kws: Vec<&'static str> = Vec::new();
        kws.push("prompt");
        let mut scanner = ArgumentScanner::new(args, kws);
        let href_names: [&str; 2] = ["href", "xch_cmd"];
        let hint_names: [&str; 2] = ["hint", "xch_hint"];
        proof {
            reveal_strlit("prompt");
            reveal_strlit("href");
            reveal_strlit("xch_cmd");
            reveal_strlit("hint");
            reveal_strlit("xch_hint");
            assert(href_names@.map_values(|n: &str| n@) =~= seq!["href"@, "xch_cmd"@]);
            assert(hint_names@.map_values(|n: &str| n@) =~= seq!["hint"@, "xch_hint"@]);
            assert(scanner.keywords() =~= seq!["prompt"@]);
            lemma_next_positional(args.positional_view(), seq!["prompt"@], 0);
        }
        let href = scanner.next_or(href_names.as_slice());
        proof {
            let pos = args.positional_view();
            let j0 = next_positional(pos, seq!["prompt"@], 0);
            lemma_next_positional(pos, seq!["prompt"@], j0 + 1);
        }
        let hint = scanner.next_or(hint_names.as_slice());
        let prompt = scanner.has_keyword("prompt");
        SendArgs { href, hint, sendto: if prompt { SendTo::Input } else { SendTo::World } }
    }
}

/// The next positional argument lies at or after where the search starts.
pub proof fn lemma_next_positional(args: Seq<Seq<char>>, keywords: Seq<Seq<char>>, i: int)
    requires
        0 <= i,
    ensures
        i <= next_positional(args, keywords, i) || next_positional(args, keywords, i) == args.len(),
        next_positional(args, keywords, i) <= args.len() || i > args.len(),
    decreases args.len() - i,
{
    if 0 <= i < args.len() && first_match_ci(args[i], keywords, 0) is Some {
        lemma_next_positional(args, keywords, i + 1);
    }
}

/// What reading a named argument, or else the next positional argument, gives: the value,
/// and the position of the next positional argument to consider.
pub open spec fn named_or_next_spec(
    positional: Seq<Seq<char>>,
    named: Map<Seq<char>, Seq<char>>,
    keywords: Seq<Seq<char>>,
    index: int,
    name: Seq<char>,
) -> (Option<Seq<char>>, int) {
    match first_named(named, seq![name]) {
        Some(v) => (Some(v), index),
        None => {
            let j = next_positional(positional, keywords, index);
            if 0 <= j < positional.len() {
                (Some(positional[j]), j + 1)
            } else {
                (None, index)
            }
        },
    }
}

} // verus!
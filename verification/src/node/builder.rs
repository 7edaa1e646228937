use vstd::prelude::*;

use crate::text::{
    chars_of, eq_ignore_case, is_ascii_whitespace, is_ascii_ws, push_char, push_str,
    str_eq_ignore_case,
};

verus! {

/// The text with `&`, `<`, `>` and `"` written as the HTML entities `&amp;`, `&lt;`, `&gt;` and
/// `&quot;`.
pub open spec fn escape_attribute_text(s: Seq<char>) -> Seq<char>
    decreases s.len(),
{
    if s.len() == 0 {
        Seq::empty()
    } else {
        escape_attribute_text(s.drop_last()) + escape_attribute_char(s.last())
    }
}

/// One character of an attribute, escaped.
pub open spec fn escape_attribute_char(c: char) -> Seq<char> {
    if c == '&' {
        "&amp;"@
    } else if c == '<' {
        "&lt;"@
    } else if c == '>' {
        "&gt;"@
    } else if c == '"' {
        "&quot;"@
    } else {
        seq![c]
    }
}

/// `html_escape::encode_double_quoted_attribute`: escapes text for use inside a double-quoted
/// HTML attribute. Its source replaces exactly `&`, `<`, `>` and `"` by `&amp;`, `&lt;`, `&gt;`
/// and `&quot;` and copies every other character.
#[verifier::external_body]
fn encode_attribute(text: &str) -> (r: String)
    ensures
        r@ == escape_attribute_text(text@),
{
    html_escape::encode_double_quoted_attribute(text).into_owned()
}

/// The index of the first named argument whose name equals `name` up to ASCII case, from `i`
/// on, or the length.
pub open spec fn find_name(s: Seq<(Seq<char>, Seq<char>)>, name: Seq<char>, i: int) -> int
    decreases s.len() - i,
{
    if i >= s.len() || i < 0 {
        s.len() as int
    } else if eq_ignore_case(s[i].0, name) {
        i
    } else {
        find_name(s, name, i + 1)
    }
}

/// The named arguments after `name=value` is set: the value of an argument of the same name is
/// replaced, or the argument is added at the end.
pub open spec fn insert_named(s: Seq<(Seq<char>, Seq<char>)>, name: Seq<char>, value: Seq<char>) -> Seq<
    (Seq<char>, Seq<char>),
> {
    let i = find_name(s, name, 0);
    if 0 <= i < s.len() {
        s.update(i, (s[i].0, value))
    } else {
        s.push((name, value))
    }
}

/// Whether an argument must be written in double quotes: it is empty or holds whitespace.
pub open spec fn needs_quotes(v: Seq<char>) -> bool {
    v.len() == 0 || exists|i: int| 0 <= i < v.len() && is_ascii_ws(#[trigger] v[i])
}

/// An argument as a tag writes it: in double quotes where it needs them.
pub open spec fn arg_text(v: Seq<char>) -> Seq<char> {
    if needs_quotes(v) {
        seq!['"'] + v + seq!['"']
    } else {
        v
    }
}

/// The positional arguments as a tag writes them, each after a space.
pub open spec fn positional_text(s: Seq<Seq<char>>) -> Seq<char>
    decreases s.len(),
{
    if s.len() == 0 {
        Seq::empty()
    } else {
        positional_text(s.drop_last()) + seq![' '] + arg_text(s.last())
    }
}

/// The named arguments as a tag writes them, each as ` name=value`.
pub open spec fn named_text(s: Seq<(Seq<char>, Seq<char>)>) -> Seq<char>
    decreases s.len(),
{
    if s.len() == 0 {
        Seq::empty()
    } else {
        named_text(s.drop_last()) + seq![' '] + s.last().0 + seq!['='] + arg_text(s.last().1)
    }
}

/// An opening tag as the server sends it: `<name positional... name=value...>`.
pub open spec fn built_tag_text(
    name: Seq<char>,
    positional: Seq<Seq<char>>,
    named: Seq<(Seq<char>, Seq<char>)>,
) -> Seq<char> {
    seq!['<'] + name + positional_text(positional) + named_text(named) + seq!['>']
}

fn needs_quotes_exec(v: &str) -> (r: bool)
    ensures
        r == needs_quotes(v@),
{
    let cs = chars_of(v);
    if cs.len() == 0 {
        return true;
    }
    let mut i: usize = 0;
    while i < cs.len()
        invariant
            cs@ == v@,
            i <= cs@.len(),
            forall|j: int| 0 <= j < i ==> !is_ascii_ws(#[trigger] v@[j]),
        decreases cs@.len() - i,
    {
        if is_ascii_whitespace(cs[i]) {
            return true;
        }
        i += 1;
    }
    false
}

fn push_arg(s: &mut String, v: &str)
    ensures
        final(s)@ == old(s)@ + arg_text(v@),
{
    if needs_quotes_exec(v) {
        push_char(s, '"');
        push_str(s, v);
        push_char(s, '"');
        assert(s@ =~= old(s)@ + arg_text(v@));
    } else {
        push_str(s, v);
    }
}

/// Builder for an opening tag with arguments, for servers that send MXP.
pub struct TagBuilder<'a> {
    name: &'a str,
    positional: Vec<String>,
    named: Vec<(&'a str, String)>,
}

/// An opening tag built by a [`TagBuilder`].
pub struct BuiltTag<'a> {
    /// Element name.
    pub name: &'a str,
    /// Positional arguments, in order.
    pub positional: Vec<String>,
    /// Named arguments, in the order their names were first given.
    pub named: Vec<(&'a str, String)>,
}

impl<'a> BuiltTag<'a> {
    /// The tag as the server sends it: the name, then each positional argument and each named
    /// argument as `name=value`, separated by spaces, within `<` and `>`. An argument that is
    /// empty or holds whitespace is written in double quotes.
    pub fn to_string(&self) -> (r: String)
        ensures
            r@ == built_tag_text(
                self.name@,
                self.positional@.map_values(|p: String| p@),
                self.named@.map_values(|p: (&'a str, String)| (p.0@, p.1@)),
            ),
    {
        let ghost pv = self.positional@.map_values(|p: String| p@);
        let ghost nv = self.named@.map_values(|p: (&'a str, String)| (p.0@, p.1@));
        let mut s = String::new();
        push_char(&mut s, '<');
        push_str(&mut s, self.name);
        let ghost head = s@;
        let mut i: usize = 0;
        while i < self.positional.len()
            invariant
                i <= self.positional@.len(),
                pv == self.positional@.map_values(|p: String| p@),
                s@ == head + positional_text(pv.take(i as int)),
            decreases self.positional@.len() - i,
        {
            let ghost before = s@;
            push_char(&mut s, ' ');
            push_arg(&mut s, self.positional[i].as_str());
            proof {
                assert(pv.take(i + 1).drop_last() =~= pv.take(i as int));
                assert(pv[i as int] == self.positional@[i as int]@);
                assert(s@ =~= before + seq![' '] + arg_text(pv[i as int]));
            }
            i += 1;
        }
        assert(pv.take(self.positional@.len() as int) =~= pv);
        let ghost mid = s@;
        let mut j: usize = 0;
        while j < self.named.len()
            invariant
                j <= self.named@.len(),
                nv == self.named@.map_values(|p: (&'a str, String)| (p.0@, p.1@)),
                s@ == mid + named_text(nv.take(j as int)),
            decreases self.named@.len() - j,
        {
            let ghost before = s@;
            let (name, value) = &self.named[j];
            push_char(&mut s, ' ');
            push_str(&mut s, name);
            push_char(&mut s, '=');
            push_arg(&mut s, value.as_str());
            proof {
                assert(nv.take(j + 1).drop_last() =~= nv.take(j as int));
                assert(nv[j as int] == (self.named@[j as int].0@, self.named@[j as int].1@));
                assert(s@ =~= before + seq![' '] + nv[j as int].0 + seq!['='] + arg_text(nv[j as int].1));
            }
            j += 1;
        }
        assert(nv.take(self.named@.len() as int) =~= nv);
        push_char(&mut s, '>');
        assert(s@ =~= built_tag_text(self.name@, pv, nv));
        s
    }
}

impl<'a> TagBuilder<'a> {
    /// The tag's name.
    pub closed spec fn spec_name(&self) -> Seq<char> {
        self.name@
    }

    /// The positional arguments so far.
    pub closed spec fn spec_positional(&self) -> Seq<Seq<char>> {
        self.positional@.map_values(|s: String| s@)
    }

    /// The named arguments so far.
    pub closed spec fn spec_named(&self) -> Seq<(Seq<char>, Seq<char>)> {
        self.named@.map_values(|p: (&'a str, String)| (p.0@, p.1@))
    }

    /// Starts a tag with a name and no arguments.
    pub fn new(name: &'a str) -> (r: Self)
        ensures
            r.spec_name() == name@,
            r.spec_positional() == Seq::<Seq<char>>::empty(),
            r.spec_named() == Seq::<(Seq<char>, Seq<char>)>::empty(),
    {
        let r = TagBuilder { name, positional: Vec::new(), named: Vec::new() };
        assert(r.spec_positional() =~= Seq::<Seq<char>>::empty());
        assert(r.spec_named() =~= Seq::<(Seq<char>, Seq<char>)>::empty());
        r
    }

    /// The tag that was built.
    pub fn build(self) -> (r: BuiltTag<'a>)
        ensures
            r.name@ == self.spec_name(),
            r.positional@.map_values(|s: String| s@) == self.spec_positional(),
            r.named@.map_values(|p: (&'a str, String)| (p.0@, p.1@)) == self.spec_named(),
    {
        BuiltTag { name: self.name, positional: self.positional, named: self.named }
    }

    /// Adds a positional argument.
    pub fn push(&mut self, value: &'a str)
        ensures
            final(self).spec_name() == old(self).spec_name(),
            final(self).spec_named() == old(self).spec_named(),
            final(self).spec_positional() == old(self).spec_positional().push(value@),
    {
        self.positional.push(value.to_owned());
        assert(self.spec_positional() =~= old(self).spec_positional().push(value@));
    }

    /// Adds a positional argument, escaped for use in a double-quoted attribute.
    pub fn escape_and_push(&mut self, value: &'a str)
        ensures
            final(self).spec_name() == old(self).spec_name(),
            final(self).spec_named() == old(self).spec_named(),
            final(self).spec_positional() == old(self).spec_positional().push(
                escape_attribute_text(value@),
            ),
    {
        let escaped = encode_attribute(value);
        self.positional.push(escaped);
        assert(self.spec_positional() =~= old(self).spec_positional().push(
            escape_attribute_text(value@),
        ));
    }

    /// Adds positional arguments, in order.
    pub fn push_all(&mut self, values: &[&'a str])
        ensures
            final(self).spec_name() == old(self).spec_name(),
            final(self).spec_named() == old(self).spec_named(),
            final(self).spec_positional() == old(self).spec_positional() + values@.map_values(
                |v: &str| v@,
            ),
    {
        let mut i: usize = 0;
        while i < values.len()
            invariant
                i <= values@.len(),
                self.spec_name() == old(self).spec_name(),
                self.spec_named() == old(self).spec_named(),
                self.spec_positional() == old(self).spec_positional() + values@.map_values(
                    |v: &str| v@,
                ).take(i as int),
            decreases values@.len() - i,
        {
            self.push(values[i]);
            assert(values@.map_values(|v: &str| v@).take(i + 1) =~= values@.map_values(
                |v: &str| v@,
            ).take(i as int).push(values[i as int]@));
            i += 1;
        }
        assert(values@.map_values(|v: &str| v@).take(values@.len() as int) =~= values@.map_values(
            |v: &str| v@,
        ));
    }

    /// Adds positional arguments, in order, each escaped for use in a double-quoted attribute.
    pub fn escape_and_push_all(&mut self, values: &[&'a str])
        ensures
            final(self).spec_name() == old(self).spec_name(),
            final(self).spec_named() == old(self).spec_named(),
            final(self).spec_positional() == old(self).spec_positional() + values@.map_values(
                |v: &str| escape_attribute_text(v@),
            ),
    {
        let mut i: usize = 0;
        while i < values.len()
            invariant
                i <= values@.len(),
                self.spec_name() == old(self).spec_name(),
                self.spec_named() == old(self).spec_named(),
                self.spec_positional() == old(self).spec_positional() + values@.map_values(
                    |v: &str| escape_attribute_text(v@),
                ).take(i as int),
            decreases values@.len() - i,
        {
            self.escape_and_push(values[i]);
            assert(values@.map_values(|v: &str| escape_attribute_text(v@)).take(i + 1)
                =~= values@.map_values(|v: &str| escape_attribute_text(v@)).take(i as int).push(
                escape_attribute_text(values[i as int]@),
            ));
            i += 1;
        }
        assert(values@.map_values(|v: &str| escape_attribute_text(v@)).take(values@.len() as int)
            =~= values@.map_values(|v: &str| escape_attribute_text(v@)));
    }

    fn set_named(&mut self, name: &'a str, value: String)
        ensures
            final(self).spec_name() == old(self).spec_name(),
            final(self).spec_positional() == old(self).spec_positional(),
            final(self).spec_named() == insert_named(old(self).spec_named(), name@, value@),
    {
        let ghost s = self.spec_named();
        let mut i: usize = 0;
        while i < self.named.len()
            invariant
                i <= self.named@.len(),
                s == self.spec_named(),
                s == old(self).spec_named(),
                self.name == old(self).name,
                self.positional@ == old(self).positional@,
                find_name(s, name@, 0) == find_name(s, name@, i as int),
            decreases self.named@.len() - i,
        {
            if str_eq_ignore_case(self.named[i].0, name) {
                let key = self.named[i].0;
                self.named.set(i, (key, value));
                assert(self.spec_named() =~= s.update(i as int, (s[i as int].0, value@)));
                return;
            }
            i += 1;
        }
        self.named.push((name, value));
        assert(self.spec_named() =~= s.push((name@, value@)));
    }

    /// Sets a named argument, replacing the value of an argument of the same name (compared
    /// without regard to ASCII case).
    pub fn insert(&mut self, name: &'a str, value: &'a str)
        ensures
            final(self).spec_name() == old(self).spec_name(),
            final(self).spec_positional() == old(self).spec_positional(),
            final(self).spec_named() == insert_named(old(self).spec_named(), name@, value@),
    {
        self.set_named(name, value.to_owned());
    }

    /// Sets a named argument whose value is escaped for use in a double-quoted attribute.
    pub fn escape_and_insert(&mut self, name: &'a str, value: &'a str)
        ensures
            final(self).spec_name() == old(self).spec_name(),
            final(self).spec_positional() == old(self).spec_positional(),
            final(self).spec_named() == insert_named(
                old(self).spec_named(),
                name@,
                escape_attribute_text(value@),
            ),
    {
        let escaped = encode_attribute(value);
        self.set_named(name, escaped);
    }

    /// Sets named arguments, in order.
    pub fn insert_all(&mut self, entries: &[(&'a str, &'a str)])
        ensures
            final(self).spec_name() == old(self).spec_name(),
            final(self).spec_positional() == old(self).spec_positional(),
            final(self).spec_named() == insert_all_named(
                old(self).spec_named(),
                entries@.map_values(|e: (&str, &str)| (e.0@, e.1@)),
                false,
            ),
    {
        let ghost es = entries@.map_values(|e: (&str, &str)| (e.0@, e.1@));
        let mut i: usize = 0;
        while i < entries.len()
            invariant
                i <= entries@.len(),
                es == entries@.map_values(|e: (&str, &str)| (e.0@, e.1@)),
                self.spec_name() == old(self).spec_name(),
                self.spec_positional() == old(self).spec_positional(),
                self.spec_named() == insert_all_named(old(self).spec_named(), es.take(i as int), false),
            decreases entries@.len() - i,
        {
            let (k, v) = entries[i];
            self.insert(k, v);
            assert(es.take(i + 1).drop_last() =~= es.take(i as int));
            i += 1;
        }
        assert(es.take(entries@.len() as int) =~= es);
    }

    /// Sets named arguments, in order, with values escaped for use in a double-quoted attribute.
    pub fn escape_and_insert_all(&mut self, entries: &[(&'a str, &'a str)])
        ensures
            final(self).spec_name() == old(self).spec_name(),
            final(self).spec_positional() == old(self).spec_positional(),
            final(self).spec_named() == insert_all_named(
                old(self).spec_named(),
                entries@.map_values(|e: (&str, &str)| (e.0@, e.1@)),
                true,
            ),
    {
        let ghost es = entries@.map_values(|e: (&str, &str)| (e.0@, e.1@));
        let mut i: usize = 0;
        while i < entries.len()
            invariant
                i <= entries@.len(),
                es == entries@.map_values(|e: (&str, &str)| (e.0@, e.1@)),
                self.spec_name() == old(self).spec_name(),
                self.spec_positional() == old(self).spec_positional(),
                self.spec_named() == insert_all_named(old(self).spec_named(), es.take(i as int), true),
            decreases entries@.len() - i,
        {
            let (k, v) = entries[i];
            self.escape_and_insert(k, v);
            assert(es.take(i + 1).drop_last() =~= es.take(i as int));
            i += 1;
        }
        assert(es.take(entries@.len() as int) =~= es);
    }
}

/// The named arguments after each of `entries` is set in turn, with values escaped when
/// `escape` is set.
pub open spec fn insert_all_named(
    s: Seq<(Seq<char>, Seq<char>)>,
    entries: Seq<(Seq<char>, Seq<char>)>,
    escape: bool,
) -> Seq<(Seq<char>, Seq<char>)>
    decreases entries.len(),
{
    if entries.len() == 0 {
        s
    } else {
        let last = entries.last();
        insert_named(
            insert_all_named(s, entries.drop_last(), escape),
            last.0,
            if escape {
                escape_attribute_text(last.1)
            } else {
                last.1
            },
        )
    }
}

} // verus!

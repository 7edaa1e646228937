//! Matching arguments in order: a named argument if one is given, else the next positional one.
use vstd::prelude::*;

use super::arguments::Arguments;
use crate::text::ascii_lower_seq;

verus! {

/// Reads the positional arguments of a tag in order, or in place of one, a named argument.
pub struct ArgumentMatcher<'b, 'a> {
    positional: Vec<&'a str>,
    index: usize,
    named: &'b Arguments<'a>,
}

impl<'b, 'a> ArgumentMatcher<'b, 'a> {
    /// The positional arguments not read yet, in order.
    pub closed spec fn remaining(&self) -> Seq<&'a str> {
        if self.index <= self.positional@.len() {
            self.positional@.subrange(self.index as int, self.positional@.len() as int)
        } else {
            Seq::empty()
        }
    }

    /// The named arguments, keyed by lower-cased name.
    pub closed spec fn named_view(&self) -> Map<Seq<char>, Seq<char>> {
        self.named.named_view()
    }

    /// A matcher over the positional and named arguments of `args`.
    pub fn new(args: &'b Arguments<'a>) -> (r: Self)
        ensures
            r.remaining().map_values(|a: &str| a@) == args.positional_view(),
            r.named_view() == args.named_view(),
    {
        let mut positional: Vec<&'a str> = Vec::new();
        let n = args.positional_len();
        let mut i: usize = 0;
        while i < n
            invariant
                n == args.positional_view().len(),
                i <= n,
                positional@.len() == i,
                forall|j: int| 0 <= j < i ==> (#[trigger] positional@[j])@ == args.positional_view()[j],
            decreases n - i,
        {
            positional.push(args.positional_at(i));
            i += 1;
        }
        let r = ArgumentMatcher { positional, index: 0, named: args };
        assert(r.remaining() =~= positional@);
        assert(r.remaining().map_values(|a: &str| a@) =~= args.positional_view());
        r
    }

    /// The next positional argument, if any remains.
    pub fn next(&mut self) -> (r: Option<&'a str>)
        ensures
            final(self).named_view() == old(self).named_view(),
            old(self).remaining().len() == 0 ==> r is None && final(self).remaining() == old(self).remaining(),
            old(self).remaining().len() > 0 ==> r == Some(old(self).remaining()[0]) && final(self).remaining() == old(self).remaining().drop_first(),
    {
        if self.index < self.positional.len() {
            let arg = self.positional[self.index];
            self.index = self.index + 1;
            assert(self.remaining() =~= old(self).remaining().drop_first());
            Some(arg)
        } else {
            assert(old(self).remaining() =~= Seq::<&'a str>::empty());
            None
        }
    }

    /// The named argument `name`, looked up without regard to ASCII case, if it is given;
    /// otherwise the next positional argument.
    pub fn next_or(&mut self, name: &str) -> (r: Option<&'a str>)
        ensures
            final(self).named_view() == old(self).named_view(),
            old(self).named_view().contains_key(ascii_lower_seq(name@)) ==> (r matches Some(v) && v@
                == old(self).named_view()[ascii_lower_seq(name@)] && final(self).remaining() == old(self).remaining()),
            !old(self).named_view().contains_key(ascii_lower_seq(name@)) ==> ({
                &&& old(self).remaining().len() == 0 ==> r is None && final(self).remaining() == old(self).remaining()
                &&& old(self).remaining().len() > 0 ==> r == Some(old(self).remaining()[0]) && final(self).remaining() == old(self).remaining().drop_first()
            }),
    {
        match self.named.get_named(name) {
            Some(v) => Some(v),
            None => self.next(),
        }
    }

    /// A matcher that reads, in place of the remaining positional arguments, what `f` makes of
    /// them.
    pub fn map<F: FnOnce(Vec<&'a str>) -> Vec<&'a str>>(self, f: F) -> (r: Self)
        requires
            forall|v: Vec<&'a str>| v@ == self.remaining() ==> f.requires((v,)),
        ensures
            r.named_view() == self.named_view(),
            exists|v: Vec<&'a str>, w: Vec<&'a str>|
                v@ == self.remaining() && #[trigger] f.ensures((v,), w) && r.remaining() == w@,
    {
        let mut rest: Vec<&'a str> = Vec::new();
        let start = if self.index < self.positional.len() {
            self.index
        } else {
            self.positional.len()
        };
        let mut i: usize = start;
        while i < self.positional.len()
            invariant
                start <= i <= self.positional@.len(),
                rest@ == self.positional@.subrange(start as int, i as int),
            decreases self.positional@.len() - i,
        {
            rest.push(self.positional[i]);
            i += 1;
            assert(rest@ =~= self.positional@.subrange(start as int, i as int));
        }
        assert(rest@ =~= self.remaining());
        let ghost v = rest;
        let w = f(rest);
        let r = ArgumentMatcher { positional: w, index: 0, named: self.named };
        assert(r.remaining() =~= w@);
        r
    }
}

} // verus!

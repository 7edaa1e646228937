//! Reading the arguments of a tag in order, with their entities decoded.
use std::borrow::Cow;

use vstd::prelude::*;

use super::arguments::Arguments;
use super::decoder::{decode_text_with, Decoder};
use super::error::Error;
use super::error_kind::ErrorKind;
use super::matcher::ArgumentMatcher;
use crate::text::ascii_lower_seq;

verus! {

/// The first of a list of arguments, if there is one.
pub open spec fn first_of(s: Seq<Seq<char>>) -> Option<Seq<char>> {
    if s.len() > 0 {
        Some(s[0])
    } else {
        None
    }
}

/// A list of arguments after its first is read.
pub open spec fn rest_of(s: Seq<Seq<char>>) -> Seq<Seq<char>> {
    if s.len() > 0 {
        s.drop_first()
    } else {
        s
    }
}

/// An optional argument with its entities decoded.
pub open spec fn decode_arg(lookup: spec_fn(Seq<char>) -> Option<Seq<char>>, arg: Option<Seq<char>>) -> Result<
    Option<Seq<char>>,
    (ErrorKind, Seq<char>),
> {
    match arg {
        None => Ok(None),
        Some(a) => match decode_text_with(lookup, a) {
            Ok(t) => Ok(Some(t)),
            Err(e) => Err(e),
        },
    }
}

/// The spec-level result of reading an optional decoded argument.
pub open spec fn arg_view<'a>(r: Result<Option<Cow<'a, str>>, Error>) -> Result<
    Option<Seq<char>>,
    (ErrorKind, Seq<char>),
> {
    match r {
        Ok(Some(t)) => Ok(Some(t@)),
        Ok(None) => Ok(None),
        Err(e) => Err(e@),
    }
}

/// Reads the positional arguments of a tag in order, or in place of one, a named argument,
/// which is used up when read. Entities in the arguments are decoded by a [`Decoder`].
pub struct OwnedScan<'a, D: Decoder> {
    decoder: D,
    args: Arguments<'a>,
    index: usize,
}

impl<'a, D: Decoder> OwnedScan<'a, D> {
    /// The decoder of entities.
    pub closed spec fn decoder(&self) -> D {
        self.decoder
    }

    /// How the decoder resolves entity names.
    pub open spec fn lookup(&self) -> spec_fn(Seq<char>) -> Option<Seq<char>> {
        |n: Seq<char>| self.decoder().entity_spec(n)
    }

    /// The positional arguments not read yet, in order.
    pub closed spec fn remaining(&self) -> Seq<Seq<char>> {
        let p = self.args.positional_view();
        if self.index <= p.len() {
            p.subrange(self.index as int, p.len() as int)
        } else {
            Seq::empty()
        }
    }

    /// The named arguments not read yet, keyed by lower-cased name.
    pub closed spec fn named_view(&self) -> Map<Seq<char>, Seq<char>> {
        self.args.named_view()
    }

    /// A scan over `args`, decoding with `decoder`.
    pub fn new(decoder: D, args: Arguments<'a>) -> (r: Self)
        ensures
            r.decoder() == decoder,
            r.remaining() == args.positional_view(),
            r.named_view() == args.named_view(),
    {
        let r = OwnedScan { decoder, args, index: 0 };
        assert(r.remaining() =~= args.positional_view());
        r
    }

    fn decode(&self, arg: Option<&'a str>) -> (r: Result<Option<Cow<'a, str>>, Error>)
        ensures
            arg_view(r) == decode_arg(
                self.lookup(),
                match arg {
                    Some(a) => Some(a@),
                    None => None,
                },
            ),
    {
        match arg {
            None => Ok(None),
            Some(a) => {
                let d = self.decoder.decode_string(a);
                assert((|n: Seq<char>| self.decoder.entity_spec(n)) =~= self.lookup());
                match d {
                    Ok(t) => Ok(Some(t)),
                    Err(e) => Err(e),
                }
            },
        }
    }

    fn next_raw(&mut self) -> (r: Option<&'a str>)
        ensures
            final(self).decoder() == old(self).decoder(),
            final(self).named_view() == old(self).named_view(),
            final(self).remaining() == rest_of(old(self).remaining()),
            match r {
                Some(a) => first_of(old(self).remaining()) == Some(a@),
                None => first_of(old(self).remaining()) is None,
            },
    {
        if self.index < self.args.positional_len() {
            let arg = self.args.positional_at(self.index);
            self.index = self.index + 1;
            assert(self.remaining() =~= old(self).remaining().drop_first());
            Some(arg)
        } else {
            assert(old(self).remaining() =~= Seq::<Seq<char>>::empty());
            None
        }
    }

    /// The next positional argument, decoded, if any remains. It is used up even when its
    /// decoding fails.
    pub fn next(&mut self) -> (r: Result<Option<Cow<'a, str>>, Error>)
        ensures
            final(self).decoder() == old(self).decoder(),
            final(self).named_view() == old(self).named_view(),
            final(self).remaining() == rest_of(old(self).remaining()),
            arg_view(r) == decode_arg(old(self).lookup(), first_of(old(self).remaining())),
    {
        let arg = self.next_raw();
        self.decode(arg)
    }

    /// The named argument `name`, looked up without regard to ASCII case, if it is given; it is
    /// then used up. Otherwise the next positional argument. Either is decoded.
    pub fn next_or(&mut self, name: &str) -> (r: Result<Option<Cow<'a, str>>, Error>)
        ensures
            final(self).decoder() == old(self).decoder(),
            old(self).named_view().contains_key(ascii_lower_seq(name@)) ==> ({
                &&& final(self).named_view() == old(self).named_view().remove(ascii_lower_seq(name@))
                &&& final(self).remaining() == old(self).remaining()
                &&& arg_view(r) == decode_arg(
                    old(self).lookup(),
                    Some(old(self).named_view()[ascii_lower_seq(name@)]),
                )
            }),
            !old(self).named_view().contains_key(ascii_lower_seq(name@)) ==> ({
                &&& final(self).named_view() == old(self).named_view()
                &&& final(self).remaining() == rest_of(old(self).remaining())
                &&& arg_view(r) == decode_arg(old(self).lookup(), first_of(old(self).remaining()))
            }),
    {
        match self.args.remove_named(name) {
            Some(v) => {
                assert(self.remaining() =~= old(self).remaining());
                self.decode(Some(v))
            },
            None => {
                assert(self.named_view() =~= old(self).named_view());
                self.next()
            },
        }
    }

    /// Succeeds if no positional argument remains; otherwise fails with
    /// [`ErrorKind::UnexpectedArgument`] on the first that does.
    pub fn expect_end(self) -> (r: Result<(), Error>)
        ensures
            self.remaining().len() == 0 ==> r is Ok,
            self.remaining().len() > 0 ==> (r matches Err(e) && e@ == (
                ErrorKind::UnexpectedArgument,
                self.remaining()[0],
            )),
    {
        let mut this = self;
        match this.next_raw() {
            Some(a) => Err(Error::new(a, ErrorKind::UnexpectedArgument)),
            None => Ok(()),
        }
    }
}

/// Reads the positional arguments of a tag in order, or in place of one, a named argument,
/// with entities decoded by a [`Decoder`]. The arguments are borrowed, and a named argument
/// can be read again.
pub struct Scan<'b, 'a, D: Decoder> {
    decoder: D,
    inner: ArgumentMatcher<'b, 'a>,
}

impl<'b, 'a, D: Decoder> Scan<'b, 'a, D> {
    /// The decoder of entities.
    pub closed spec fn decoder(&self) -> D {
        self.decoder
    }

    /// How the decoder resolves entity names.
    pub open spec fn lookup(&self) -> spec_fn(Seq<char>) -> Option<Seq<char>> {
        |n: Seq<char>| self.decoder().entity_spec(n)
    }

    /// The positional arguments not read yet, in order.
    pub closed spec fn remaining(&self) -> Seq<Seq<char>> {
        self.inner.remaining().map_values(|a: &str| a@)
    }

    /// The named arguments, keyed by lower-cased name.
    pub closed spec fn named_view(&self) -> Map<Seq<char>, Seq<char>> {
        self.inner.named_view()
    }

    /// A scan over `args`, decoding with `decoder`.
    pub fn new(decoder: D, args: &'b Arguments<'a>) -> (r: Self)
        ensures
            r.decoder() == decoder,
            r.remaining() == args.positional_view(),
            r.named_view() == args.named_view(),
    {
        Scan { decoder, inner: ArgumentMatcher::new(args) }
    }

    fn decode(&self, arg: Option<&'a str>) -> (r: Result<Option<Cow<'a, str>>, Error>)
        ensures
            arg_view(r) == decode_arg(
                self.lookup(),
                match arg {
                    Some(a) => Some(a@),
                    None => None,
                },
            ),
    {
        match arg {
            None => Ok(None),
            Some(a) => {
                let d = self.decoder.decode_string(a);
                assert((|n: Seq<char>| self.decoder.entity_spec(n)) =~= self.lookup());
                match d {
                    Ok(t) => Ok(Some(t)),
                    Err(e) => Err(e),
                }
            },
        }
    }

    /// The next positional argument, decoded, if any remains.
    pub fn next(&mut self) -> (r: Result<Option<Cow<'a, str>>, Error>)
        ensures
            final(self).decoder() == old(self).decoder(),
            final(self).named_view() == old(self).named_view(),
            final(self).remaining() == rest_of(old(self).remaining()),
            arg_view(r) == decode_arg(old(self).lookup(), first_of(old(self).remaining())),
    {
        let arg = self.inner.next();
        assert(self.remaining() =~= rest_of(old(self).remaining()));
        self.decode(arg)
    }

    /// The named argument `name`, looked up without regard to ASCII case, if it is given;
    /// otherwise the next positional argument. Either is decoded.
    pub fn next_or(&mut self, name: &str) -> (r: Result<Option<Cow<'a, str>>, Error>)
        ensures
            final(self).decoder() == old(self).decoder(),
            final(self).named_view() == old(self).named_view(),
            old(self).named_view().contains_key(ascii_lower_seq(name@)) ==> ({
                &&& final(self).remaining() == old(self).remaining()
                &&& arg_view(r) == decode_arg(
                    old(self).lookup(),
                    Some(old(self).named_view()[ascii_lower_seq(name@)]),
                )
            }),
            !old(self).named_view().contains_key(ascii_lower_seq(name@)) ==> ({
                &&& final(self).remaining() == rest_of(old(self).remaining())
                &&& arg_view(r) == decode_arg(old(self).lookup(), first_of(old(self).remaining()))
            }),
    {
        let arg = self.inner.next_or(name);
        assert(self.remaining() =~= old(self).remaining() || self.remaining() =~= rest_of(
            old(self).remaining(),
        ));
        self.decode(arg)
    }

    /// Succeeds if no positional argument remains; otherwise fails with
    /// [`ErrorKind::UnexpectedArgument`] on the first that does.
    pub fn expect_end(self) -> (r: Result<(), Error>)
        ensures
            self.remaining().len() == 0 ==> r is Ok,
            self.remaining().len() > 0 ==> (r matches Err(e) && e@ == (
                ErrorKind::UnexpectedArgument,
                self.remaining()[0],
            )),
    {
        let mut inner = self.inner;
        match inner.next() {
            Some(a) => Err(Error::new(a, ErrorKind::UnexpectedArgument)),
            None => Ok(()),
        }
    }
}

} // verus!

use vstd::prelude::*;

use super::screen::{align_named, dimension_spec, Align, Dimension};
use super::scanning::{first_named, named_or_next_spec, opt_str, ArgumentScanner};
use super::sound::opt_str_owned;
use crate::parse::arguments::Arguments;
use crate::parse::error::Error;
use crate::parse::error_kind::ErrorKind;
use crate::text::eq_ignore_case;

verus! {

/// Arguments of `<IMAGE>`.
#[derive(Clone, Debug, Default, PartialEq, Eq)]
pub struct Image<S> {
    /// File name.
    pub fname: Option<S>,
    /// Where to download the image from.
    pub url: Option<S>,
    /// Image class.
    pub class: Option<S>,
    /// Height.
    pub height: Option<Dimension>,
    /// Width.
    pub width: Option<Dimension>,
    /// Horizontal space around the image.
    pub hspace: Option<Dimension>,
    /// Vertical space around the image.
    pub vspace: Option<Dimension>,
    /// Alignment.
    pub align: Option<Align>,
    /// Whether the image is an image map.
    pub is_map: bool,
}

fn owned(o: Option<&str>) -> (r: Option<String>)
    ensures
        opt_str_owned(r) == opt_str(o),
{
    match o {
        Some(s) => Some(s.to_owned()),
        None => None,
    }
}

impl<'a> Image<&'a str> {
    /// A copy that owns its strings.
    pub fn into_owned(&self) -> (r: Image<String>)
        ensures
            opt_str_owned(r.fname) == opt_str(self.fname),
            opt_str_owned(r.url) == opt_str(self.url),
            opt_str_owned(r.class) == opt_str(self.class),
            r.height == self.height,
            r.width == self.width,
            r.hspace == self.hspace,
            r.vspace == self.vspace,
            r.align == self.align,
            r.is_map == self.is_map,
    {
        Image {
            fname: owned(self.fname),
            url: owned(self.url),
            class: owned(self.class),
            height: self.height,
            width: self.width,
            hspace: self.hspace,
            vspace: self.vspace,
            align: self.align,
            is_map: self.is_map,
        }
    }
}

/// An optional dimension argument, which must parse when given.
pub open spec fn dimension_arg(arg: Option<Seq<char>>) -> Result<Option<Dimension>, (ErrorKind, Seq<char>)> {
    match arg {
        None => Ok(None),
        Some(a) => match dimension_spec(a) {
            Some((n, u)) => Ok(Some(Dimension { amount: n, unit: u })),
            None => Err((ErrorKind::InvalidEntityNumber, a)),
        },
    }
}

/// An optional alignment argument, which must parse when given.
pub open spec fn align_arg(arg: Option<Seq<char>>) -> Result<Option<Align>, (ErrorKind, Seq<char>)> {
    match arg {
        None => Ok(None),
        Some(a) => match align_named(a) {
            Some(x) => Ok(Some(x)),
            None => Err((ErrorKind::InvalidEntityNumber, a)),
        },
    }
}

fn dimension_arg_exec(arg: Option<&str>) -> (r: Result<Option<Dimension>, Error>)
    ensures
        match dimension_arg(opt_str(arg)) {
            Ok(d) => r == Ok::<Option<Dimension>, Error>(d),
            Err(e) => r matches Err(x) && x@ == e,
        },
{
    match arg {
        None => Ok(None),
        Some(a) => match Dimension::from_str(a) {
            Some(d) => Ok(Some(d)),
            None => Err(Error::new(a, ErrorKind::InvalidEntityNumber)),
        },
    }
}

fn align_arg_exec(arg: Option<&str>) -> (r: Result<Option<Align>, Error>)
    ensures
        match align_arg(opt_str(arg)) {
            Ok(d) => r == Ok::<Option<Align>, Error>(d),
            Err(e) => r matches Err(x) && x@ == e,
        },
{
    match arg {
        None => Ok(None),
        Some(a) => match Align::from_str(a) {
            Ok(x) => Ok(Some(x)),
            Err(_) => Err(Error::new(a, ErrorKind::InvalidEntityNumber)),
        },
    }
}

/// Whether `r` is what reading `<IMAGE>` arguments gives.
pub open spec fn image_result<'a>(args: Arguments<'a>, r: Result<Image<&'a str>, Error>) -> bool {
    let pos = args.positional_view();
    let named = args.named_view();
    let kws = seq!["ismap"@];
    let f = named_or_next_spec(pos, named, kws, 0, "fname"@);
    let u = named_or_next_spec(pos, named, kws, f.1, "url"@);
    let h = dimension_arg(first_named(named, seq!["H"@]));
    let w = dimension_arg(first_named(named, seq!["W"@]));
    let hs = dimension_arg(first_named(named, seq!["HSPACE"@]));
    let vs = dimension_arg(first_named(named, seq!["VSPACE"@]));
    let al = align_arg(first_named(named, seq!["ALIGN"@]));
    if h is Err {
        h matches Err(e) && (r matches Err(x) && x@ == e)
    } else if w is Err {
        w matches Err(e) && (r matches Err(x) && x@ == e)
    } else if hs is Err {
        hs matches Err(e) && (r matches Err(x) && x@ == e)
    } else if vs is Err {
        vs matches Err(e) && (r matches Err(x) && x@ == e)
    } else if al is Err {
        al matches Err(e) && (r matches Err(x) && x@ == e)
    } else {
        r matches Ok(img) && opt_str(img.fname) == f.0 && opt_str(img.url) == u.0
            && opt_str(img.class) == first_named(named, seq!["T"@])
            && Ok::<Option<Dimension>, (ErrorKind, Seq<char>)>(img.height) == h
            && Ok::<Option<Dimension>, (ErrorKind, Seq<char>)>(img.width) == w
            && Ok::<Option<Dimension>, (ErrorKind, Seq<char>)>(img.hspace) == hs
            && Ok::<Option<Dimension>, (ErrorKind, Seq<char>)>(img.vspace) == vs
            && Ok::<Option<Align>, (ErrorKind, Seq<char>)>(img.align) == al
            && img.is_map == exists|i: int| 0 <= i < pos.len() && eq_ignore_case(#[trigger] pos[i], "ismap"@)
    }
}

impl<'a> Image<&'a str> {
    /// Reads `<IMAGE>` arguments: `FNAME=` (or else the first positional argument), `URL=` (or
    /// else the next), `T=` class, `H=`, `W=`, `HSPACE=` and `VSPACE=` dimensions, `ALIGN=`,
    /// and the `ISMAP` keyword. A dimension or alignment that does not parse fails with
    /// [`ErrorKind::InvalidEntityNumber`].
    pub fn parse(args: &Arguments<'a>) -> (r: Result<Image<&'a str>, Error>)
        ensures
            image_result(*args, r),
    {
        let mut kws: Vec<&'static str> = Vec::new();
        kws.push("ismap");
        let mut scanner = ArgumentScanner::new(args, kws);
        proof {
            reveal_strlit("ismap");
            assert(scanner.keywords() =~= seq!["ismap"@]);
        }
        let fname = scanner.named_or_next("fname");
        let url = scanner.named_or_next("url");
        let t: [&str; 1] = ["T"];
        let h: [&str; 1] = ["H"];
        let w: [&str; 1] = ["W"];
        let hs: [&str; 1] = ["HSPACE"];
        let vs: [&str; 1] = ["VSPACE"];
        let al: [&str; 1] = ["ALIGN"];
        assert(t@.map_values(|n: &str| n@) =~= seq!["T"@]);
        assert(h@.map_values(|n: &str| n@) =~= seq!["H"@]);
        assert(w@.map_values(|n: &str| n@) =~= seq!["W"@]);
        assert(hs@.map_values(|n: &str| n@) =~= seq!["HSPACE"@]);
        assert(vs@.map_values(|n: &str| n@) =~= seq!["VSPACE"@]);
        assert(al@.map_values(|n: &str| n@) =~= seq!["ALIGN"@]);
        let class = scanner.first_named(t.as_slice());
        let height = match dimension_arg_exec(scanner.first_named(h.as_slice())) {
            Ok(d) => d,
            Err(e) => return Err(e),
        };
        let width = match dimension_arg_exec(scanner.first_named(w.as_slice())) {
            Ok(d) => d,
            Err(e) => return Err(e),
        };
        let hspace = match dimension_arg_exec(scanner.first_named(hs.as_slice())) {
            Ok(d) => d,
            Err(e) => return Err(e),
        };
        let vspace = match dimension_arg_exec(scanner.first_named(vs.as_slice())) {
            Ok(d) => d,
            Err(e) => return Err(e),
        };
        let align = match align_arg_exec(scanner.first_named(al.as_slice())) {
            Ok(a) => a,
            Err(e) => return Err(e),
        };
        let is_map = scanner.has_keyword("ismap");
        Ok(Image { fname, url, class, height, width, hspace, vspace, align, is_map })
    }
}

} // verus!

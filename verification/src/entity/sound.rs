use vstd::prelude::*;

use super::scanning::{first_named, opt_str, ArgumentScanner};
use crate::parse::arguments::Arguments;
use crate::parse::decoder::{digit_of, digits_value, parse_u32, parse_u32_radix};
use crate::parse::error::{Error, UnrecognizedVariant};
use crate::parse::error_kind::ErrorKind;
use crate::text::{
    chars_of, decimal_string, decimal_text, digit_char, eq_ignore_case, is_digit, str_eq,
    str_eq_ignore_case,
};

verus! {

/// How many times a sound or music file is played.
#[derive(Copy, Clone, Debug, PartialEq, Eq, Hash, Structural)]
pub enum AudioRepetition {
    /// Played until stopped (`-1`).
    Forever,
    /// Played this many times, at least once.
    Count(u32),
}

/// The repetition a text gives: `-1`, or a positive decimal number.
pub open spec fn repetition_spec(s: Seq<char>) -> Option<AudioRepetition> {
    if s == "-1"@ {
        Some(AudioRepetition::Forever)
    } else {
        match parse_u32_radix(s, 10) {
            Some(n) => if n > 0 {
                Some(AudioRepetition::Count(n))
            } else {
                None
            },
            None => None,
        }
    }
}

/// How MXP writes a repetition: `-1`, or the count in decimal.
pub open spec fn repetition_text(r: AudioRepetition) -> Seq<char> {
    match r {
        AudioRepetition::Forever => "-1"@,
        AudioRepetition::Count(n) => decimal_text(n as nat),
    }
}

/// The continuation a text names: `0` or `1`.
pub open spec fn continuation_named(s: Seq<char>) -> Option<AudioContinuation> {
    if s == "0"@ {
        Some(AudioContinuation::Restart)
    } else if s == "1"@ {
        Some(AudioContinuation::Continue)
    } else {
        None
    }
}

/// How MXP writes a continuation: `0` or `1`.
pub open spec fn continuation_text(c: AudioContinuation) -> Seq<char> {
    match c {
        AudioContinuation::Restart => "0"@,
        AudioContinuation::Continue => "1"@,
    }
}

proof fn lemma_digit(d: nat)
    requires
        d < 10,
    ensures
        digit_of(digit_char(d), 10) == Some(d),
{
    assert(digit_char(d) as int == ('0' as int) + d);
}

proof fn lemma_decimal_digits(n: nat)
    ensures
        digits_value(decimal_text(n), 10) == Some(n),
        decimal_text(n).len() > 0,
        is_digit(decimal_text(n)[0]),
    decreases n,
{
    lemma_digit(n % 10);
    if n >= 10 {
        lemma_decimal_digits(n / 10);
        let t = decimal_text(n);
        assert(t.drop_last() =~= decimal_text(n / 10));
        assert(t[0] == decimal_text(n / 10)[0]);
        assert(n == (n / 10) * 10 + n % 10);
    } else {
        assert(decimal_text(n).drop_last() =~= Seq::<char>::empty());
    }
}

/// Reading back how a repetition is written gives the repetition, for every repetition but a
/// count of zero, which reading refuses.
pub proof fn law_repetition_round_trip(r: AudioRepetition)
    requires
        r != AudioRepetition::Count(0),
    ensures
        repetition_spec(repetition_text(r)) == Some(r),
{
    reveal_strlit("-1");
    match r {
        AudioRepetition::Forever => {},
        AudioRepetition::Count(n) => {
            lemma_decimal_digits(n as nat);
            let t = decimal_text(n as nat);
            assert(t[0] != '+');
            assert(t != "-1"@) by {
                assert("-1"@[0] == '-');
            }
        },
    }
}

/// Reading back how a continuation is written gives the continuation.
pub proof fn law_continuation_round_trip(c: AudioContinuation)
    ensures
        continuation_named(continuation_text(c)) == Some(c),
{
    reveal_strlit("0");
    reveal_strlit("1");
    assert("0"@[0] != "1"@[0]);
}

impl AudioRepetition {
    /// Played once.
    pub fn once() -> (r: AudioRepetition)
        ensures
            r == AudioRepetition::Count(1),
    {
        AudioRepetition::Count(1)
    }

    /// Parses a repetition: `-1` for forever, or a positive decimal number.
    pub fn parse(s: &str) -> (r: Option<AudioRepetition>)
        ensures
            r == repetition_spec(s@),
    {
        if str_eq(s, "-1") {
            return Some(AudioRepetition::Forever);
        }
        let cs = chars_of(s);
        match parse_u32(cs.as_slice(), 10) {
            Some(n) => if n > 0 {
                Some(AudioRepetition::Count(n))
            } else {
                None
            },
            None => None,
        }
    }

    /// The repetition as MXP writes it: `-1`, or the count in decimal.
    pub fn to_string(&self) -> (r: String)
        ensures
            r@ == repetition_text(*self),
    {
        match self {
            AudioRepetition::Forever => "-1".to_owned(),
            AudioRepetition::Count(n) => decimal_string(*n),
        }
    }
}

impl Default for AudioRepetition {
    fn default() -> (r: Self)
        ensures
            r == AudioRepetition::Count(1),
    {
        AudioRepetition::Count(1)
    }
}

/// Whether music restarts or continues when the same file is requested again.
#[derive(Copy, Clone, Debug, PartialEq, Eq, Hash, Structural)]
pub enum AudioContinuation {
    /// Restart the file (`0`).
    Restart,
    /// Continue playing (`1`).
    Continue,
}

impl AudioContinuation {
    /// Parses `0` or `1`.
    pub fn parse(s: &str) -> (r: Result<AudioContinuation, UnrecognizedVariant>)
        ensures
            match continuation_named(s@) {
                Some(c) => r == Ok::<AudioContinuation, UnrecognizedVariant>(c),
                None => r matches Err(e) && e.spec_target() == s@,
            },
    {
        proof {
            reveal_strlit("0");
            reveal_strlit("1");
            assert("0"@[0] != "1"@[0]);
        }
        if str_eq(s, "0") {
            Ok(AudioContinuation::Restart)
        } else if str_eq(s, "1") {
            Ok(AudioContinuation::Continue)
        } else {
            Err(UnrecognizedVariant::new(s))
        }
    }

    /// The continuation as MXP writes it: `0` or `1`.
    pub fn to_string(&self) -> (r: &'static str)
        ensures
            r@ == continuation_text(*self),
    {
        match self {
            AudioContinuation::Restart => "0",
            AudioContinuation::Continue => "1",
        }
    }
}

impl Default for AudioContinuation {
    fn default() -> (r: Self)
        ensures
            r == AudioContinuation::Continue,
    {
        AudioContinuation::Continue
    }
}

/// Arguments of `<SOUND>`.
#[derive(Clone, Debug, PartialEq, Eq)]
pub struct Sound<S> {
    /// File to play, or `Off`.
    pub fname: S,
    /// Volume, 0 to 100.
    pub volume: u8,
    /// How many times to play the file.
    pub repeats: AudioRepetition,
    /// Sound class.
    pub class: Option<S>,
    /// Where to download the file from.
    pub url: Option<S>,
    /// Priority, 0 to 100.
    pub priority: u8,
}

/// Arguments of `<MUSIC>`.
#[derive(Clone, Debug, PartialEq, Eq)]
pub struct Music<S> {
    /// File to play, or `Off`.
    pub fname: S,
    /// Volume, 0 to 100.
    pub volume: u8,
    /// How many times to play the file.
    pub repeats: AudioRepetition,
    /// Music class.
    pub class: Option<S>,
    /// Where to download the file from.
    pub url: Option<S>,
    /// Whether the music restarts or continues when requested again.
    pub continuation: AudioContinuation,
}

/// The `k`-th argument read in order: the `k`-th positional argument, or else the named one.
pub open spec fn nth_or(args: Arguments, k: int, name: Seq<char>) -> Option<Seq<char>> {
    if k < args.positional_view().len() {
        Some(args.positional_view()[k])
    } else {
        first_named(args.named_view(), seq![name])
    }
}

/// A number argument: absent gives the default; otherwise it must be a decimal `u8`.
pub open spec fn u8_arg(arg: Option<Seq<char>>, default: u8) -> Result<u8, (ErrorKind, Seq<char>)> {
    match arg {
        None => Ok(default),
        Some(a) => match parse_u32_radix(a, 10) {
            Some(n) => if n <= 255 {
                Ok(n as u8)
            } else {
                Err((ErrorKind::InvalidNumber, a))
            },
            None => Err((ErrorKind::InvalidNumber, a)),
        },
    }
}

/// A repetition argument: absent gives one repetition.
pub open spec fn repeats_arg(arg: Option<Seq<char>>) -> Result<AudioRepetition, (ErrorKind, Seq<char>)> {
    match arg {
        None => Ok(AudioRepetition::Count(1)),
        Some(a) => match repetition_spec(a) {
            Some(r) => Ok(r),
            None => Err((ErrorKind::InvalidNumber, a)),
        },
    }
}

fn u8_arg_exec(arg: Option<&str>, default: u8) -> (r: Result<u8, Error>)
    ensures
        match u8_arg(opt_str(arg), default) {
            Ok(n) => r == Ok::<u8, Error>(n),
            Err(e) => r matches Err(x) && x@ == e,
        },
{
    match arg {
        None => Ok(default),
        Some(a) => {
            let cs = chars_of(a);
            match parse_u32(cs.as_slice(), 10) {
                Some(n) => if n <= 255 {
                    Ok(n as u8)
                } else {
                    Err(Error::new(a, ErrorKind::InvalidNumber))
                },
                None => Err(Error::new(a, ErrorKind::InvalidNumber)),
            }
        },
    }
}

fn repeats_arg_exec(arg: Option<&str>) -> (r: Result<AudioRepetition, Error>)
    ensures
        match repeats_arg(opt_str(arg)) {
            Ok(n) => r == Ok::<AudioRepetition, Error>(n),
            Err(e) => r matches Err(x) && x@ == e,
        },
{
    match arg {
        None => Ok(AudioRepetition::Count(1)),
        Some(a) => match AudioRepetition::parse(a) {
            Some(r) => Ok(r),
            None => Err(Error::new(a, ErrorKind::InvalidNumber)),
        },
    }
}

/// What `<SOUND>` arguments give: file, volume (default 100), repeats (default once), class,
/// URL and priority (default 50), each a positional argument in turn or else its named one.
pub open spec fn sound_spec(args: Arguments) -> Result<
    (Seq<char>, u8, AudioRepetition, Option<Seq<char>>, Option<Seq<char>>, u8),
    (ErrorKind, Seq<char>),
> {
    if args.positional_view().len() == 0 {
        Err((ErrorKind::IncompleteArguments, "fname"@))
    } else {
        match u8_arg(nth_or(args, 1, "V"@), 100) {
            Err(e) => Err(e),
            Ok(volume) => match repeats_arg(nth_or(args, 2, "L"@)) {
                Err(e) => Err(e),
                Ok(repeats) => match u8_arg(nth_or(args, 5, "P"@), 50) {
                    Err(e) => Err(e),
                    Ok(priority) => Ok(
                        (
                            args.positional_view()[0],
                            volume,
                            repeats,
                            nth_or(args, 3, "C"@),
                            nth_or(args, 4, "U"@),
                            priority,
                        ),
                    ),
                },
            },
        }
    }
}

fn nth_or_exec<'a>(args: &Arguments<'a>, k: usize, name: &str) -> (r: Option<&'a str>)
    ensures
        opt_str(r) == nth_or(*args, k as int, name@),
{
    if k < args.positional_len() {
        Some(args.positional_at(k))
    } else {
        let scanner = ArgumentScanner::new(args, Vec::new());
        let names: [&str; 1] = [name];
        assert(names@.map_values(|n: &str| n@) =~= seq![name@]);
        scanner.first_named(names.as_slice())
    }
}

impl Sound<String> {
    /// Whether the file is `Off`, which stops sounds; compared without regard to ASCII case.
    pub fn is_off(&self) -> (r: bool)
        ensures
            r == eq_ignore_case(self.fname@, "Off"@),
    {
        str_eq_ignore_case(self.fname.as_str(), "Off")
    }
}

/// Whether `r` is what reading `<SOUND>` arguments gives.
pub open spec fn sound_result<'a>(args: Arguments<'a>, r: Result<Sound<&'a str>, Error>) -> bool {
    match sound_spec(args) {
        Ok((f, v, l, c, u, p)) => r matches Ok(s) && s.fname@ == f && s.volume == v && s.repeats
            == l && opt_str(s.class) == c && opt_str(s.url) == u && s.priority == p,
        Err(e) => r matches Err(x) && x@ == e,
    }
}

impl<'a> Sound<&'a str> {
    /// Whether the file is `Off`, which stops sounds; compared without regard to ASCII case.
    pub fn is_off(&self) -> (r: bool)
        ensures
            r == eq_ignore_case(self.fname@, "Off"@),
    {
        str_eq_ignore_case(self.fname, "Off")
    }

    /// A copy that owns its strings.
    pub fn into_owned(&self) -> (r: Sound<String>)
        ensures
            r.fname@ == self.fname@,
            r.volume == self.volume,
            r.repeats == self.repeats,
            opt_str_owned(r.class) == opt_str(self.class),
            opt_str_owned(r.url) == opt_str(self.url),
            r.priority == self.priority,
    {
        Sound {
            fname: self.fname.to_owned(),
            volume: self.volume,
            repeats: self.repeats,
            class: owned(self.class),
            url: owned(self.url),
            priority: self.priority,
        }
    }

    /// Reads `<SOUND>` arguments: file, volume (default 100), repeats (default once), class,
    /// URL and priority (default 50), each a positional argument in turn or else `V=`, `L=`,
    /// `C=`, `U=` or `P=`. The file must be given.
    pub fn parse(args: &Arguments<'a>) -> (r: Result<Sound<&'a str>, Error>)
        ensures
            sound_result(*args, r),
    {
        if args.positional_len() == 0 {
            return Err(Error::new("fname", ErrorKind::IncompleteArguments));
        }
        let fname = args.positional_at(0);
        let volume = match u8_arg_exec(nth_or_exec(args, 1, "V"), 100) {
            Ok(v) => v,
            Err(e) => return Err(e),
        };
        let repeats = match repeats_arg_exec(nth_or_exec(args, 2, "L")) {
            Ok(l) => l,
            Err(e) => return Err(e),
        };
        let class = nth_or_exec(args, 3, "C");
        let url = nth_or_exec(args, 4, "U");
        let priority = match u8_arg_exec(nth_or_exec(args, 5, "P"), 50) {
            Ok(p) => p,
            Err(e) => return Err(e),
        };
        proof {
            reveal_strlit("fname");
        }
        Ok(Sound { fname, volume, repeats, class, url, priority })
    }
}

/// An optional `String` taken by its view.
pub open spec fn opt_str_owned(o: Option<String>) -> Option<Seq<char>> {
    match o {
        Some(s) => Some(s@),
        None => None,
    }
}

fn owned(o: Option<&str>) -> (r: Option<String>)
    ensures
        opt_str_owned(r) == opt_str(o),
{
    match o {
        Some(s) => Some(s.to_owned()),
        None => None,
    }
}

impl Music<String> {
    /// Whether the file is `Off`, which stops music; compared without regard to ASCII case.
    pub fn is_off(&self) -> (r: bool)
        ensures
            r == eq_ignore_case(self.fname@, "Off"@),
    {
        str_eq_ignore_case(self.fname.as_str(), "Off")
    }
}

impl<'a> Music<&'a str> {
    /// Whether the file is `Off`, which stops music; compared without regard to ASCII case.
    pub fn is_off(&self) -> (r: bool)
        ensures
            r == eq_ignore_case(self.fname@, "Off"@),
    {
        str_eq_ignore_case(self.fname, "Off")
    }

    /// A copy that owns its strings.
    pub fn into_owned(&self) -> (r: Music<String>)
        ensures
            r.fname@ == self.fname@,
            r.volume == self.volume,
            r.repeats == self.repeats,
            opt_str_owned(r.class) == opt_str(self.class),
            opt_str_owned(r.url) == opt_str(self.url),
            r.continuation == self.continuation,
    {
        Music {
            fname: self.fname.to_owned(),
            volume: self.volume,
            repeats: self.repeats,
            class: owned(self.class),
            url: owned(self.url),
            continuation: self.continuation,
        }
    }
}

/// The continuation a text gives: `0` restarts, anything else continues.
pub open spec fn continuation_arg(arg: Option<Seq<char>>) -> AudioContinuation {
    match arg {
        Some(a) => if a == "0"@ {
            AudioContinuation::Restart
        } else {
            AudioContinuation::Continue
        },
        None => AudioContinuation::Continue,
    }
}

/// What `<MUSIC>` arguments give: file, volume (default 100), repeats (default once), class,
/// URL and continuation (default continue), each a positional argument in turn or else its
/// named one.
pub open spec fn music_spec(args: Arguments) -> Result<
    (Seq<char>, u8, AudioRepetition, Option<Seq<char>>, Option<Seq<char>>, AudioContinuation),
    (ErrorKind, Seq<char>),
> {
    if args.positional_view().len() == 0 {
        Err((ErrorKind::IncompleteArguments, "fname"@))
    } else {
        match u8_arg(nth_or(args, 1, "V"@), 100) {
            Err(e) => Err(e),
            Ok(volume) => match repeats_arg(nth_or(args, 2, "L"@)) {
                Err(e) => Err(e),
                Ok(repeats) => Ok(
                    (
                        args.positional_view()[0],
                        volume,
                        repeats,
                        nth_or(args, 3, "C"@),
                        nth_or(args, 4, "U"@),
                        continuation_arg(nth_or(args, 5, "C"@)),
                    ),
                ),
            },
        }
    }
}

/// Whether `r` is what reading `<MUSIC>` arguments gives.
pub open spec fn music_result<'a>(args: Arguments<'a>, r: Result<Music<&'a str>, Error>) -> bool {
    match music_spec(args) {
        Ok((f, v, l, c, u, k)) => r matches Ok(s) && s.fname@ == f && s.volume == v && s.repeats
            == l && opt_str(s.class) == c && opt_str(s.url) == u && s.continuation == k,
        Err(e) => r matches Err(x) && x@ == e,
    }
}

impl<'a> Music<&'a str> {
    /// Reads `<MUSIC>` arguments: file, volume (default 100), repeats (default once), class,
    /// URL and continuation (`0` restarts; anything else, or nothing, continues), each a
    /// positional argument in turn or else `V=`, `L=`, `C=`, `U=` or `C=`. The file must be
    /// given.
    pub fn parse(args: &Arguments<'a>) -> (r: Result<Music<&'a str>, Error>)
        ensures
            music_result(*args, r),
    {
        if args.positional_len() == 0 {
            proof {
                reveal_strlit("fname");
            }
            return Err(Error::new("fname", ErrorKind::IncompleteArguments));
        }
        let fname = args.positional_at(0);
        let volume = match u8_arg_exec(nth_or_exec(args, 1, "V"), 100) {
            Ok(v) => v,
            Err(e) => return Err(e),
        };
        let repeats = match repeats_arg_exec(nth_or_exec(args, 2, "L")) {
            Ok(l) => l,
            Err(e) => return Err(e),
        };
        let class = nth_or_exec(args, 3, "C");
        let url = nth_or_exec(args, 4, "U");
        let continuation = match nth_or_exec(args, 5, "C") {
            Some(c) => match AudioContinuation::parse(c) {
                Ok(k) => k,
                Err(_) => AudioContinuation::Continue,
            },
            None => AudioContinuation::Continue,
        };
        proof {
            reveal_strlit("0");
            reveal_strlit("1");
            assert("0"@[0] != "1"@[0]);
        }
        Ok(Music { fname, volume, repeats, class, url, continuation })
    }
}

} // verus!

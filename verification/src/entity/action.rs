//! What an atomic tag does, with its arguments read.
use vstd::prelude::*;

use super::image::{image_result, Image};
use super::scanning::{
    afk_read, color_read, font_read, hyperlink_read, image_args_read, send_read, var_read, AfkArgs,
    ColorArgs, FontArgs, HyperlinkArgs, ImageArgs, SendArgs, VarArgs,
};
use super::sound::{music_result, music_spec, sound_result, sound_spec, Music, Sound};
use crate::color::RgbColor;
use crate::element::action::{ActionType, Heading};
use crate::parse::arguments::Arguments;
use crate::parse::error::Error;
use crate::text::eq_ignore_case;

verus! {

/// An action of an atomic tag, with the arguments it takes.
pub enum Action<'b, 'a> {
    /// Bold text.
    Bold,
    /// Underlined text.
    Underline,
    /// Italic text.
    Italic,
    /// Text color, eg. `<COLOR fore=red back=blue>`.
    Color {
        /// Foreground color.
        fore: Option<RgbColor>,
        /// Background color.
        back: Option<RgbColor>,
    },
    /// Version request.
    Version,
    /// Font appearance.
    Font(FontArgs<'a>),
    /// Plays a sound.
    Sound(Sound<&'a str>),
    /// Stops all sound.
    SoundOff,
    /// Plays music.
    Music(Music<&'a str>),
    /// Stops all music.
    MusicOff,
    /// Sends the username.
    User,
    /// Sends the password.
    Password,
    /// Causes a new connection to open.
    Relocate,
    /// A frame; its arguments, not interpreted here.
    Frame(&'b Arguments<'a>),
    /// A destination frame; its arguments, not interpreted here.
    Dest(&'b Arguments<'a>),
    /// Shows an image.
    Image(Image<&'a str>),
    /// Sound or image filter.
    Filter,
    /// Hyperlink (secure).
    Hyperlink(HyperlinkArgs<'a>),
    /// Send prompt (secure).
    Send(SendArgs<'a>),
    /// Hard line break (secure).
    Br,
    /// Heading (secure).
    Heading(Heading),
    /// Horizontal rule (secure).
    Hr,
    /// Ignores the next newline.
    NoBr,
    /// Soft line break.
    SBr,
    /// Paragraph break (secure).
    P,
    /// Strikethrough.
    Strikeout,
    /// Client script (secure).
    Script,
    /// Small text.
    Small,
    /// Non-proportional font.
    Tt,
    /// Unordered list.
    Ul,
    /// Ordered list.
    Ol,
    /// List item.
    Li,
    /// Sample text.
    Samp,
    /// Centred text.
    Center,
    /// Highlighted text.
    High,
    /// Sets a variable.
    Var {
        /// Name of the variable.
        variable: Option<&'a str>,
    },
    /// Away from keyboard time.
    Afk {
        /// Challenge the client must answer with.
        challenge: Option<&'a str>,
    },
    /// Gauge.
    Gauge,
    /// Status.
    Stat,
    /// Expires links; its arguments, not interpreted here.
    Expire(&'b Arguments<'a>),
    /// Closes all open tags.
    Reset,
    /// An MXP command (eg. `MXP OFF`); its arguments, not interpreted here.
    Mxp(&'b Arguments<'a>),
    /// Asks which commands are supported; its arguments, not interpreted here.
    Support(&'b Arguments<'a>),
    /// Client options set.
    SetOption,
    /// Server sets an option.
    RecommendOption,
    /// Pueblo document body.
    Body,
    /// Pueblo document head.
    Head,
    /// Pueblo HTML document.
    Html,
    /// Pueblo image.
    Img(ImageArgs<'a>),
    /// Pueblo preformatted text.
    Pre,
    /// Pueblo document title.
    Title,
    /// Pueblo page command.
    XchPage,
    /// Pueblo pane command.
    XchPane,
}

impl<'b, 'a> Action<'b, 'a> {
    /// The action that a tag of the given type performs with the given arguments. Playing the
    /// file `Off` stops all sound or music. Fails only where the arguments of `<SOUND>`,
    /// `<MUSIC>` or `<IMAGE>` do not parse.
    pub fn new(action: ActionType, args: &'b Arguments<'a>) -> (r: Result<Action<'b, 'a>, Error>)
        ensures
            match action {
            ActionType::Bold => r matches Ok(Action::Bold),
            ActionType::Underline => r matches Ok(Action::Underline),
            ActionType::Italic => r matches Ok(Action::Italic),
            ActionType::Version => r matches Ok(Action::Version),
            ActionType::User => r matches Ok(Action::User),
            ActionType::Password => r matches Ok(Action::Password),
            ActionType::Relocate => r matches Ok(Action::Relocate),
            ActionType::Filter => r matches Ok(Action::Filter),
            ActionType::Br => r matches Ok(Action::Br),
            ActionType::Hr => r matches Ok(Action::Hr),
            ActionType::NoBr => r matches Ok(Action::NoBr),
            ActionType::SBr => r matches Ok(Action::SBr),
            ActionType::P => r matches Ok(Action::P),
            ActionType::Strikeout => r matches Ok(Action::Strikeout),
            ActionType::Script => r matches Ok(Action::Script),
            ActionType::Small => r matches Ok(Action::Small),
            ActionType::Tt => r matches Ok(Action::Tt),
            ActionType::Ul => r matches Ok(Action::Ul),
            ActionType::Ol => r matches Ok(Action::Ol),
            ActionType::Li => r matches Ok(Action::Li),
            ActionType::Samp => r matches Ok(Action::Samp),
            ActionType::Center => r matches Ok(Action::Center),
            ActionType::High => r matches Ok(Action::High),
            ActionType::Gauge => r matches Ok(Action::Gauge),
            ActionType::Stat => r matches Ok(Action::Stat),
            ActionType::Reset => r matches Ok(Action::Reset),
            ActionType::SetOption => r matches Ok(Action::SetOption),
            ActionType::RecommendOption => r matches Ok(Action::RecommendOption),
            ActionType::Body => r matches Ok(Action::Body),
            ActionType::Head => r matches Ok(Action::Head),
            ActionType::Html => r matches Ok(Action::Html),
            ActionType::Pre => r matches Ok(Action::Pre),
            ActionType::Title => r matches Ok(Action::Title),
            ActionType::XchPage => r matches Ok(Action::XchPage),
            ActionType::XchPane => r matches Ok(Action::XchPane),
            ActionType::Frame => r matches Ok(Action::Frame(a)) && a == args,
            ActionType::Dest => r matches Ok(Action::Dest(a)) && a == args,
            ActionType::Expire => r matches Ok(Action::Expire(a)) && a == args,
            ActionType::Mxp => r matches Ok(Action::Mxp(a)) && a == args,
            ActionType::Support => r matches Ok(Action::Support(a)) && a == args,
            ActionType::H1 => r matches Ok(Action::Heading(Heading::H1)),
            ActionType::H2 => r matches Ok(Action::Heading(Heading::H2)),
            ActionType::H3 => r matches Ok(Action::Heading(Heading::H3)),
            ActionType::H4 => r matches Ok(Action::Heading(Heading::H4)),
            ActionType::H5 => r matches Ok(Action::Heading(Heading::H5)),
            ActionType::H6 => r matches Ok(Action::Heading(Heading::H6)),
            ActionType::Afk => r matches Ok(Action::Afk { challenge }) && afk_read(*args, AfkArgs { challenge }),
            ActionType::Color => r matches Ok(Action::Color { fore, back }) && color_read(*args, ColorArgs { fore, back }),
            ActionType::Font => r matches Ok(Action::Font(f)) && font_read(*args, f),
            ActionType::Hyperlink => r matches Ok(Action::Hyperlink(h)) && hyperlink_read(*args, h),
            ActionType::Send => r matches Ok(Action::Send(s)) && send_read(*args, s),
            ActionType::Var => r matches Ok(Action::Var { variable }) && var_read(*args, VarArgs { variable }),
            ActionType::Img => r matches Ok(Action::Img(i)) && image_args_read(*args, i),
            ActionType::Image => match r {
                Ok(Action::Image(i)) => image_result(*args, Ok(i)),
                Err(e) => image_result(*args, Err(e)),
                _ => false,
            },
            ActionType::Sound => match r {
                Ok(Action::Sound(s)) => sound_result(*args, Ok(s)) && !eq_ignore_case(s.fname@, "Off"@),
                Ok(Action::SoundOff) => sound_spec(*args) matches Ok((f, _, _, _, _, _)) && eq_ignore_case(f, "Off"@),
                Err(e) => sound_result(*args, Err(e)),
                _ => false,
            },
            ActionType::Music => match r {
                Ok(Action::Music(m)) => music_result(*args, Ok(m)) && !eq_ignore_case(m.fname@, "Off"@),
                Ok(Action::MusicOff) => music_spec(*args) matches Ok((f, _, _, _, _, _)) && eq_ignore_case(f, "Off"@),
                Err(e) => music_result(*args, Err(e)),
                _ => false,
            },
            },
    {
        match action {
            ActionType::Bold => Ok(Action::Bold),
            ActionType::Underline => Ok(Action::Underline),
            ActionType::Italic => Ok(Action::Italic),
            ActionType::Version => Ok(Action::Version),
            ActionType::User => Ok(Action::User),
            ActionType::Password => Ok(Action::Password),
            ActionType::Relocate => Ok(Action::Relocate),
            ActionType::Filter => Ok(Action::Filter),
            ActionType::Br => Ok(Action::Br),
            ActionType::Hr => Ok(Action::Hr),
            ActionType::NoBr => Ok(Action::NoBr),
            ActionType::SBr => Ok(Action::SBr),
            ActionType::P => Ok(Action::P),
            ActionType::Strikeout => Ok(Action::Strikeout),
            ActionType::Script => Ok(Action::Script),
            ActionType::Small => Ok(Action::Small),
            ActionType::Tt => Ok(Action::Tt),
            ActionType::Ul => Ok(Action::Ul),
            ActionType::Ol => Ok(Action::Ol),
            ActionType::Li => Ok(Action::Li),
            ActionType::Samp => Ok(Action::Samp),
            ActionType::Center => Ok(Action::Center),
            ActionType::High => Ok(Action::High),
            ActionType::Gauge => Ok(Action::Gauge),
            ActionType::Stat => Ok(Action::Stat),
            ActionType::Reset => Ok(Action::Reset),
            ActionType::SetOption => Ok(Action::SetOption),
            ActionType::RecommendOption => Ok(Action::RecommendOption),
            ActionType::Body => Ok(Action::Body),
            ActionType::Head => Ok(Action::Head),
            ActionType::Html => Ok(Action::Html),
            ActionType::Pre => Ok(Action::Pre),
            ActionType::Title => Ok(Action::Title),
            ActionType::XchPage => Ok(Action::XchPage),
            ActionType::XchPane => Ok(Action::XchPane),
            ActionType::Frame => Ok(Action::Frame(args)),
            ActionType::Dest => Ok(Action::Dest(args)),
            ActionType::Expire => Ok(Action::Expire(args)),
            ActionType::Mxp => Ok(Action::Mxp(args)),
            ActionType::Support => Ok(Action::Support(args)),
            ActionType::H1 => Ok(Action::Heading(Heading::H1)),
            ActionType::H2 => Ok(Action::Heading(Heading::H2)),
            ActionType::H3 => Ok(Action::Heading(Heading::H3)),
            ActionType::H4 => Ok(Action::Heading(Heading::H4)),
            ActionType::H5 => Ok(Action::Heading(Heading::H5)),
            ActionType::H6 => Ok(Action::Heading(Heading::H6)),
            ActionType::Afk => {
                let a = AfkArgs::from_arguments(args);
                Ok(Action::Afk { challenge: a.challenge })
            },
            ActionType::Color => {
                let c = ColorArgs::from_arguments(args);
                Ok(Action::Color { fore: c.fore, back: c.back })
            },
            ActionType::Font => Ok(Action::Font(FontArgs::from_arguments(args))),
            ActionType::Hyperlink => Ok(Action::Hyperlink(HyperlinkArgs::from_arguments(args))),
            ActionType::Send => Ok(Action::Send(SendArgs::from_arguments(args))),
            ActionType::Var => {
                let v = VarArgs::from_arguments(args);
                Ok(Action::Var { variable: v.variable })
            },
            ActionType::Img => Ok(Action::Img(ImageArgs::from_arguments(args))),
            ActionType::Image => match Image::parse(args) {
                Ok(i) => Ok(Action::Image(i)),
                Err(e) => Err(e),
            },
            ActionType::Sound => match Sound::parse(args) {
                Ok(s) => if s.is_off() {
                    Ok(Action::SoundOff)
                } else {
                    Ok(Action::Sound(s))
                },
                Err(e) => Err(e),
            },
            ActionType::Music => match Music::parse(args) {
                Ok(m) => if m.is_off() {
                    Ok(Action::MusicOff)
                } else {
                    Ok(Action::Music(m))
                },
                Err(e) => Err(e),
            },
        }
    }
}

} // verus!

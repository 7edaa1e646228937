use mxp::entity::{
    AfkArgs, Align, AudioContinuation, AudioRepetition, ColorArgs, Dimension, DimensionUnit,
    FgColor, FontArgs, FontEffect, FontStyle, Image, ImageArgs, Music, SendArgs, SendTo, Sound,
    VarArgs,
    XchMode,
};
use mxp::parse::{cleanup_source, Arguments, IntoOwnedString};
use mxp::{ErrorKind, RgbColor};

#[test]
fn colors() {
    assert_eq!(RgbColor::named("#123456"), Some(RgbColor::hex(0x123456)));
    assert_eq!(RgbColor::named("Red"), Some(RgbColor::hex(0xff0000)));
    assert_eq!(RgbColor::named("#12345"), None);
    assert_eq!(RgbColor::named("nocolor"), None);
    assert_eq!(RgbColor::hex(0x789abc).to_string(), "#789abc");
    assert_eq!(RgbColor::hex(0x1789abc).code(), 0x789abc);
}

#[test]
fn scanning_arguments() {
    let args = Arguments::parse("red back=blue").unwrap();
    let color = ColorArgs::from_arguments(&args);
    assert_eq!(color.fore, Some(RgbColor::hex(0xff0000)));
    assert_eq!(color.back, Some(RgbColor::hex(0x0000ff)));
    let args = Arguments::parse("challenge=abc").unwrap();
    assert_eq!(AfkArgs::from_arguments(&args).challenge, Some("abc"));
    let args = Arguments::parse("prompt \"say hi\" hint=greeting").unwrap();
    let send = SendArgs::from_arguments(&args);
    assert_eq!(send.href, Some("say hi"));
    assert_eq!(send.hint, Some("greeting"));
    assert_eq!(send.sendto, SendTo::Input);
    let args = Arguments::parse("src=x.png xch_mode=HTML").unwrap();
    let image = ImageArgs::from_arguments(&args);
    assert_eq!(image.url, Some("x.png"));
    assert_eq!(image.xch_mode, Some(XchMode::Html));
    let args = Arguments::parse("var1").unwrap();
    assert_eq!(VarArgs::from_arguments(&args).variable, Some("var1"));
    let args = Arguments::parse("color=bold,red,nothing bgcolor=#000080").unwrap();
    let font = FontArgs::from_arguments(&args);
    assert_eq!(
        font.fgcolor.iter(),
        vec![FontEffect::Style(FontStyle::Bold), FontEffect::Color(RgbColor::hex(0xff0000))]
    );
    assert_eq!(font.bgcolor, Some(RgbColor::hex(0x000080)));
    assert_eq!(FgColor { inner: "" }.iter(), vec![]);
}

#[test]
fn screen_values() {
    assert_eq!(Align::from_str("MIDDLE"), Ok(Align::Middle));
    assert!(Align::from_str("center").is_err());
    let d = Dimension::from_str("50%").unwrap();
    assert_eq!((d.amount(), d.unit()), (50, DimensionUnit::Percentage));
    let d = Dimension::from_str("20c").unwrap();
    assert_eq!((d.amount, d.unit), (20, DimensionUnit::CharacterHeight));
    assert_eq!(Dimension::from_str("7"), Some(Dimension::pixels(7)));
    assert_eq!(Dimension::from_str("x%"), None);
}

#[test]
fn sound_values() {
    assert_eq!(AudioRepetition::parse("-1"), Some(AudioRepetition::Forever));
    assert_eq!(AudioRepetition::parse("3"), Some(AudioRepetition::Count(3)));
    assert_eq!(AudioRepetition::parse("0"), None);
    assert_eq!(AudioRepetition::Forever.to_string(), "-1");
    assert_eq!(AudioRepetition::default(), AudioRepetition::once());
    assert_eq!(AudioContinuation::parse("0"), Ok(AudioContinuation::Restart));
    assert!(AudioContinuation::parse("2").is_err());
    assert_eq!(AudioContinuation::default().to_string(), "1");
    let args = Arguments::parse("ouch.wav 50 T=combat 2 P=80").unwrap();
    let sound = Sound::parse(&args).unwrap();
    assert_eq!(sound.fname, "ouch.wav");
    assert_eq!(sound.volume, 50);
    assert_eq!(sound.repeats, AudioRepetition::Count(2));
    assert_eq!(sound.priority, 80);
    assert!(!sound.is_off());
    let owned = sound.into_owned();
    assert_eq!(owned.fname, "ouch.wav".to_owned());
    let off = Sound::parse(&Arguments::parse("OFF").unwrap()).unwrap();
    assert!(off.is_off());
    assert_eq!(off.volume, 100);
    assert_eq!(off.priority, 50);
    let err = Sound::parse(&Arguments::parse("").unwrap()).unwrap_err();
    assert_eq!(err.kind(), ErrorKind::IncompleteArguments);
    let err = Sound::parse(&Arguments::parse("a V=300").unwrap()).unwrap_err();
    assert_eq!(err.kind(), ErrorKind::InvalidNumber);
}

#[test]
fn image_into_owned() {
    let image = Image { fname: Some("a.png"), url: None, class: None, height: None, width: None, hspace: None, vspace: None, align: Some(Align::Top), is_map: true };
    let owned = image.into_owned();
    assert_eq!(owned.fname, Some("a.png".to_owned()));
    assert_eq!(owned.align, Some(Align::Top));
    assert!(owned.is_map);
}

#[test]
fn cleanup_source_strips_brackets() {
    assert_eq!(cleanup_source("  < b x >  "), Ok("b x"));
    assert_eq!(cleanup_source("b>").unwrap_err().kind(), ErrorKind::NoTagInDefinition);
    assert_eq!(cleanup_source("<b").unwrap_err().kind(), ErrorKind::UnterminatedElement);
    assert_eq!("abc".into_owned_string(), "abc".to_owned());
}

#[test]
fn music_values() {
    let args = Arguments::parse("song.mid 70 -1 bg site 0").unwrap();
    let music = Music::parse(&args).unwrap();
    assert_eq!(music.fname, "song.mid");
    assert_eq!(music.volume, 70);
    assert_eq!(music.repeats, AudioRepetition::Forever);
    assert_eq!(music.class, Some("bg"));
    assert_eq!(music.url, Some("site"));
    assert_eq!(music.continuation, AudioContinuation::Restart);
    assert!(!music.is_off());
    let off = Music::parse(&Arguments::parse("off").unwrap()).unwrap();
    assert!(off.is_off());
    assert_eq!(off.volume, 100);
    assert_eq!(off.repeats, AudioRepetition::once());
    assert_eq!(off.continuation, AudioContinuation::Continue);
    let named = Music::parse(&Arguments::parse("a.mid L=3 U=where").unwrap()).unwrap();
    assert_eq!(named.repeats, AudioRepetition::Count(3));
    assert_eq!(named.url, Some("where"));
    assert_eq!(named.into_owned().fname, "a.mid".to_owned());
    let err = Music::parse(&Arguments::parse("").unwrap()).unwrap_err();
    assert_eq!(err.kind(), ErrorKind::IncompleteArguments);
    let err = Music::parse(&Arguments::parse("a V=loud").unwrap()).unwrap_err();
    assert_eq!(err.kind(), ErrorKind::InvalidNumber);
}

#[test]
fn image_values() {
    let args = Arguments::parse("pic.png ismap host T=map H=20 W=\"50%\" ALIGN=bottom").unwrap();
    let image = Image::parse(&args).unwrap();
    assert_eq!(image.fname, Some("pic.png"));
    assert_eq!(image.url, Some("host"));
    assert_eq!(image.class, Some("map"));
    assert_eq!(image.height, Some(Dimension::pixels(20)));
    assert_eq!(image.width, Some(Dimension { amount: 50, unit: DimensionUnit::Percentage }));
    assert_eq!(image.hspace, None);
    assert_eq!(image.align, Some(Align::Bottom));
    assert!(image.is_map);
    let named = Image::parse(&Arguments::parse("url=there fname=f.gif").unwrap()).unwrap();
    assert_eq!(named.fname, Some("f.gif"));
    assert_eq!(named.url, Some("there"));
    assert!(!named.is_map);
    let err = Image::parse(&Arguments::parse("a H=tall").unwrap()).unwrap_err();
    assert_eq!(err.kind(), ErrorKind::InvalidEntityNumber);
    let err = Image::parse(&Arguments::parse("a ALIGN=sideways").unwrap()).unwrap_err();
    assert_eq!(err.kind(), ErrorKind::InvalidEntityNumber);
}

#[test]
fn written_values_read_back() {
    for r in [AudioRepetition::Forever, AudioRepetition::Count(1), AudioRepetition::Count(250)] {
        assert_eq!(AudioRepetition::parse(&r.to_string()), Some(r));
    }
    assert_eq!(AudioRepetition::parse(&AudioRepetition::Count(0).to_string()), None);
    for c in [AudioContinuation::Restart, AudioContinuation::Continue] {
        assert_eq!(AudioContinuation::parse(c.to_string()), Ok(c));
    }
    for code in [0x000000, 0x0a0b0c, 0xffffff, 0x12ab9f] {
        let color = RgbColor::hex(code);
        assert_eq!(RgbColor::named(&color.to_string()), Some(color));
    }
}

use mxp::element::{ActionType, ElementItem, Heading};
use mxp::entity::{Action, AudioRepetition, DecodedEntity, SendTo};
use mxp::parse::{parse_element, Arguments, FromStrError};
use mxp::{validate_utf8, Decoder, ErrorKind, RgbColor};

#[test]
fn action_reads_arguments() {
    let args = Arguments::parse("red back=blue").unwrap();
    match Action::new(ActionType::Color, &args).unwrap() {
        Action::Color { fore, back } => {
            assert_eq!(fore, Some(RgbColor::hex(0xff0000)));
            assert_eq!(back, Some(RgbColor::hex(0x0000ff)));
        }
        _ => panic!("expected a color"),
    }
    let args = Arguments::parse("").unwrap();
    assert!(matches!(Action::new(ActionType::Bold, &args).unwrap(), Action::Bold));
    assert!(matches!(
        Action::new(ActionType::H3, &args).unwrap(),
        Action::Heading(Heading::H3)
    ));
    assert!(matches!(Action::new(ActionType::Reset, &args).unwrap(), Action::Reset));
    let args = Arguments::parse("look PROMPT").unwrap();
    match Action::new(ActionType::Send, &args).unwrap() {
        Action::Send(send) => {
            assert_eq!(send.href, Some("look"));
            assert_eq!(send.sendto, SendTo::Input);
        }
        _ => panic!("expected a send link"),
    }
    let args = Arguments::parse("hp").unwrap();
    assert!(matches!(
        Action::new(ActionType::Var, &args).unwrap(),
        Action::Var { variable: Some("hp") }
    ));
    match Action::new(ActionType::Frame, &args).unwrap() {
        Action::Frame(a) => assert_eq!(a.positional_at(0), "hp"),
        _ => panic!("expected a frame"),
    }
}

#[test]
fn action_sound_and_music() {
    let args = Arguments::parse("ding.wav L=3").unwrap();
    match Action::new(ActionType::Sound, &args).unwrap() {
        Action::Sound(sound) => {
            assert_eq!(sound.fname, "ding.wav");
            assert_eq!(sound.repeats, AudioRepetition::Count(3));
        }
        _ => panic!("expected a sound"),
    }
    let off = Arguments::parse("Off").unwrap();
    assert!(matches!(Action::new(ActionType::Sound, &off).unwrap(), Action::SoundOff));
    assert!(matches!(Action::new(ActionType::Music, &off).unwrap(), Action::MusicOff));
    let none = Arguments::parse("").unwrap();
    let err = Action::new(ActionType::Music, &none).err().unwrap();
    assert_eq!(err.kind(), ErrorKind::IncompleteArguments);
    let bad = Arguments::parse("x H=big").unwrap();
    let err = Action::new(ActionType::Image, &bad).err().unwrap();
    assert_eq!(err.kind(), ErrorKind::InvalidEntityNumber);
}

#[test]
fn attributes_take_arguments() {
    let attributes = Arguments::parse("name col=red size").unwrap();
    let args = Arguments::parse("Bob 12 COL=blue").unwrap();
    assert_eq!(args.find_from_attributes("col", &attributes), Some("blue"));
    assert_eq!(args.find_from_attributes("NAME", &attributes), Some("Bob"));
    assert_eq!(args.find_from_attributes("size", &attributes), Some("12"));
    assert_eq!(args.find_from_attributes("other", &attributes), None);
    let short = Arguments::parse("").unwrap();
    assert_eq!(short.find_from_attributes("col", &attributes), Some("red"));
    assert_eq!(short.find_from_attributes("size", &attributes), Some(""));
}

#[test]
fn parse_element_checks_the_tag() {
    let args = parse_element(" <SOUND ouch.wav V=50> ", ActionType::Sound).unwrap();
    assert_eq!(args.positional_at(0), "ouch.wav");
    assert_eq!(args.get_named("v"), Some("50"));
    assert!(parse_element("<music x>", ActionType::Sound).is_ok());
    let err = parse_element("<B x>", ActionType::Sound).err().unwrap();
    assert_eq!(err, FromStrError::UnexpectedTag("B".to_owned()));
    assert_eq!(err.to_message(), "unexpected tag: <B>");
    let err = parse_element("SOUND x", ActionType::Sound).err().unwrap();
    match &err {
        FromStrError::SyntaxError(e) => assert_eq!(e.kind(), ErrorKind::NoTagInDefinition),
        FromStrError::UnexpectedTag(_) => panic!("expected a syntax error"),
    }
    assert!(err.to_message().starts_with("syntax error: "));
}

#[test]
fn decoded_entity_equals_char() {
    assert!(DecodedEntity::Standard('<') == '<');
    assert!(DecodedEntity::Standard('<') != '>');
    assert!(DecodedEntity::Custom(std::borrow::Cow::Borrowed("<")) != '<');
}

#[test]
fn error_kinds_of_malformed_input() {
    assert_eq!(().decode_entity("9abc").err().unwrap().kind(), ErrorKind::InvalidEntityName);
    let err = ().decode_string("a &lt b").err().unwrap();
    assert_eq!(err.kind(), ErrorKind::NoClosingSemicolon);
    assert_eq!(err.target(), "&lt b");
    assert_eq!(
        ElementItem::parse("!EL x").err().unwrap().kind(),
        ErrorKind::DefinitionInDefinition
    );
    assert_eq!(
        Arguments::parse("1x=2").err().unwrap().kind(),
        ErrorKind::InvalidArgumentName
    );
    assert_eq!(
        Arguments::parse("a / b").err().unwrap().kind(),
        ErrorKind::InvalidArgumentName
    );
    assert!(Arguments::parse("a /").is_ok());
    assert_eq!(validate_utf8(&[0x66, 0xff]).err().unwrap().kind(), ErrorKind::InvalidUtf8);
    assert_eq!(validate_utf8(b"ok"), Ok("ok"));
}

#[test]
fn syntax_errors_convert() {
    let err = mxp::Error::new("x", ErrorKind::EmptyElement);
    let converted = FromStrError::from(err.clone());
    assert_eq!(converted, FromStrError::SyntaxError(err));
}

#[test]
fn encode_fills_the_buffer_front() {
    let mut buf = [0u8; 4];
    let entity = DecodedEntity::Standard('ß');
    assert_eq!(entity.encode(&mut buf), "ß");
    assert_eq!(&buf[..2], "ß".as_bytes());
    let mut buf = [7u8; 2];
    let custom = DecodedEntity::Custom(std::borrow::Cow::Borrowed("hi"));
    assert_eq!(custom.encode(&mut buf), "hi");
    assert_eq!(buf, [7u8; 2]);
}

#[test]
fn count_bytes_counts() {
    assert_eq!(mxp::parse::count_bytes(b"a b  c", b' '), 3);
    assert_eq!(mxp::parse::count_bytes(b"", b' '), 0);
}

#[test]
fn encode_keeps_the_rest_of_the_buffer() {
    let mut buf = [9u8; 5];
    assert_eq!(DecodedEntity::Standard('é').encode(&mut buf), "é");
    assert_eq!(buf, [0xc3, 0xa9, 9, 9, 9]);
}

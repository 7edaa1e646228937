use mxp::line::{LineTagProperties, LineTags, Mode, ModeState, ParseAs};
use mxp::node::LineTagDefinition;
use mxp::{ErrorKind, RgbColor};

#[test]
fn mode_state_starts_open() {
    let mode_state = ModeState::new();
    assert_eq!(mode_state.get(), Mode::open());
    assert!(mode_state.is_open());
}

#[test]
fn mode_state_set_and_get() {
    let mut mode_state = ModeState::new();
    mode_state.set(Mode::secure());
    assert_eq!(mode_state.get(), Mode::secure());
    mode_state.set(Mode::open());
    assert_eq!(mode_state.get(), Mode::open());
}

#[test]
fn revert_returns_to_perm_mode() {
    let mut mode_state = ModeState::new();
    mode_state.set(Mode::perm_locked());
    mode_state.set(Mode::secure());
    mode_state.revert();
    assert_eq!(mode_state.get(), Mode::locked());
    assert!(mode_state.is_locked());
}

#[test]
fn use_secure_and_secure_once() {
    let mut mode_state = ModeState::new();
    mode_state.set(Mode::open());
    assert!(!mode_state.use_secure());
    mode_state.set(Mode::secure());
    assert!(mode_state.use_secure());
    assert!(mode_state.use_secure());
    mode_state.set(Mode::open());
    mode_state.set(Mode::secure_once());
    assert!(mode_state.is_secure_once());
    assert!(mode_state.use_secure());
    assert!(!mode_state.use_secure());
}

#[test]
fn set_reports_closing() {
    let mut mode_state = ModeState::new();
    assert!(mode_state.set(Mode::secure()));
    assert!(!mode_state.set(Mode::locked()));
    mode_state.set(Mode(20));
    assert!(!mode_state.set(Mode::open()));
}

#[test]
fn text_after_secure_once_is_refused() {
    let mut mode_state = ModeState::new();
    mode_state.set(Mode::secure_once());
    assert!(mode_state.validate_next_character(b'<').is_ok());
    assert!(mode_state.is_secure_once());
    let err = mode_state.validate_next_character(b'x').unwrap_err();
    assert_eq!(err.kind(), ErrorKind::TextAfterSecureOnce);
    assert_eq!(err.target(), "x");
    assert_eq!(mode_state.get(), Mode::open());
}

#[test]
fn mode_predicates() {
    assert!(Mode::open().is_open());
    assert!(Mode::perm_open().is_open());
    assert!(Mode(55).is_open());
    assert!(!Mode::secure().is_open());
    assert!(Mode::locked().is_locked());
    assert!(Mode::perm_locked().is_locked());
    assert!(Mode::room_name().is_automapping());
    assert!(!Mode(20).is_automapping());
    assert_eq!(Mode::room_desc().parse_as(), Some(ParseAs::RoomDesc));
    assert_eq!(Mode::welcome_text().parse_as(), None);
    assert!(Mode(99).is_user_defined());
    assert!(!Mode(100).is_user_defined());
    assert_eq!(Mode::try_from_u64(99), Ok(Mode(99)));
    assert!(Mode::try_from_u64(100).is_err());
    assert!(Mode::try_from_i64(-1).is_err());
}

#[test]
fn line_tags_set_and_update() {
    let mut tags = LineTags::new();
    tags.set(25, "chat".to_owned());
    let (element, props) = tags.get(25).unwrap();
    assert_eq!(element, "chat");
    assert!(props.enable);
    assert!(tags.get(20).is_some());
    assert!(tags.get(26).is_none());
    tags.set(100, "ignored".to_owned());
    assert!(tags.get(100).is_none());
    let update = LineTagDefinition {
        index: Mode(25),
        window: Some("side"),
        gag: Some(true),
        fore: Some(RgbColor::hex(0xff0000)),
        back: None,
        enable: Some(false),
    };
    tags.update(update).unwrap();
    let (_, props) = tags.get(25).unwrap();
    assert_eq!(props.window.as_deref(), Some("side"));
    assert!(props.gag);
    assert!(!props.enable);
    assert_eq!(props.fore, Some(RgbColor::hex(0xff0000)));
    let bad = LineTagDefinition { index: Mode(5), ..update };
    let err = tags.update(bad).unwrap_err();
    assert_eq!(err.kind(), ErrorKind::IllegalLineTag);
    assert_eq!(err.target(), "5");
}

#[test]
fn line_tag_properties_text() {
    let mut props = LineTagProperties::default();
    assert_eq!(props.to_string(), "DISABLE");
    props.enable = true;
    props.gag = true;
    props.window = Some("side".to_owned());
    assert_eq!(props.to_string(), "WINDOWNAME=\"side\" GAG");
}

#[test]
fn modes_above_user_defined_are_not_open() {
    assert!(Mode(20).is_open());
    assert!(Mode(99).is_open());
    assert!(!Mode(100).is_open());
    assert!(!Mode(255).is_open());
    let mut state = ModeState::new();
    assert!(state.set(Mode(100)));
    assert!(!state.is_open());
    let mut state = ModeState::new();
    assert!(!state.set(Mode(99)));
    assert!(state.is_open());
}

use mxp::element::{ActionType, Atom, CollectedElement, Element, ElementItem, TagFlag};
use mxp::entity::ParseError;
use mxp::node::{Definition, ElementDefinition, Tag};
use mxp::{Component, ErrorKind, Mode, ModeState, ParseAs, State};

#[test]
fn parse_element_definition() {
    let def = ElementDefinition::parse("MyEl '<HR><BR>' EMPTY OPEN").unwrap();
    assert_eq!(def.name, "MyEl");
    let el = def.element.unwrap();
    assert!(el.open);
    assert!(el.command);
    assert_eq!(el.items.len(), 2);
    assert_eq!(el.items[0].atom.action, ActionType::Hr);
    assert_eq!(el.items[1].atom.action, ActionType::Br);
    let flags = el.flags();
    assert!(flags.contains(TagFlag::Open) && flags.contains(TagFlag::Command));
}

#[test]
fn parse_element_definition_arguments() {
    let def = ElementDefinition::parse(
        "RName '<FONT COLOR=Red><B>' FLAG=\"RoomName\" TAG=20 ATT='col=red'",
    )
    .unwrap();
    let el = def.element.unwrap();
    assert_eq!(el.parse_as, Some(ParseAs::RoomName));
    assert_eq!(el.line_tag, Some(Mode(20)));
    assert_eq!(el.attributes, "col=red");
    assert_eq!(el.items[0].arguments, "COLOR=Red");
    let def = ElementDefinition::parse("HP FLAG='set hp'").unwrap();
    assert_eq!(def.element.unwrap().variable.as_deref(), Some("hp"));
    let def = ElementDefinition::parse("gone DELETE").unwrap();
    assert!(def.element.is_none());
}

#[test]
fn element_definition_errors() {
    assert_eq!(
        ElementDefinition::parse("x 'bold'").err().unwrap().kind(),
        ErrorKind::NoTagInDefinition
    );
    assert_eq!(
        ElementDefinition::parse("x '<bold'").err().unwrap().kind(),
        ErrorKind::UnterminatedElementInDefinition
    );
    assert_eq!(
        ElementDefinition::parse("x '<send \"west>'").err().unwrap().kind(),
        ErrorKind::UnterminatedQuoteInDefinition
    );
    assert_eq!(
        ElementDefinition::parse("x '<bar>'").err().unwrap().kind(),
        ErrorKind::UnknownElementInDefinition
    );
    assert_eq!(
        ElementDefinition::parse("x '</bold>'").err().unwrap().kind(),
        ErrorKind::CloseTagInDefinition
    );
    assert_eq!(
        ElementDefinition::parse("x '<<bold>'").err().unwrap().kind(),
        ErrorKind::UnexpectedSymbolInDefinition
    );
    assert_eq!(
        ElementDefinition::parse("x TAG=3").err().unwrap().kind(),
        ErrorKind::IllegalLineTagInDefinition
    );
    assert_eq!(ElementItem::parse("").err().unwrap().kind(), ErrorKind::EmptyElementInDefinition);
}

#[test]
fn atoms_are_found_without_regard_to_case() {
    let atom = Atom::get("SEND").unwrap();
    assert_eq!(atom.name, "send");
    assert_eq!(atom.action, ActionType::Send);
    assert!(Atom::get("nosuch").is_none());
}

#[test]
fn supports_response() {
    let mut buf = Vec::new();
    Atom::fmt_supported(&mut buf, &["b", "send.hint", "color.*", "image", "xyz", "b.x"]);
    assert_eq!(
        String::from_utf8(buf).unwrap(),
        "\x1B[1z<SUPPORTS +b +hint +color.fore +color.back -image -xyz -x >\n"
    );
    let mut all = Vec::new();
    Atom::fmt_supported(&mut all, &[]);
    let all = String::from_utf8(all).unwrap();
    assert!(all.starts_with("\x1B[1z<SUPPORTS +a +a.href +a.xch_cmd +a.xch_hint +afk "));
    assert!(all.ends_with("+send.prompt >\n"));
}

#[test]
fn collected_elements() {
    assert_eq!(CollectedElement::from_str("!EL x"), Ok(CollectedElement::Definition("EL x")));
    assert_eq!(Element::collect("/b"), Ok(CollectedElement::TagClose("b")));
    assert_eq!(CollectedElement::from_str("b"), Ok(CollectedElement::TagOpen("b")));
    assert_eq!(
        CollectedElement::from_str(""),
        Err(ParseError::new("collected element", mxp::entity::error::Error::EmptyElement))
    );
}

#[test]
fn state_defines_and_uses_elements() {
    let mut state = State::with_globals();
    let tag = Tag::parse("!ELEMENT MyEl '<HR><BR>' EMPTY OPEN", true).unwrap();
    match tag {
        Tag::Definition(def) => state.define(def).unwrap(),
        _ => panic!("expected a definition"),
    }
    match state.get_component("myel").unwrap() {
        Component::Element(el) => assert_eq!(el.items.len(), 2),
        Component::AtomicTag(_) => panic!("expected an element"),
    }
    match state.get_component("B").unwrap() {
        Component::AtomicTag(atom) => assert_eq!(atom.action, ActionType::Bold),
        Component::Element(_) => panic!("expected an atomic tag"),
    }
    assert_eq!(state.get_component("nosuch").err().unwrap().kind(), ErrorKind::UnknownElement);
    state.define(Definition::parse("ATTLIST MyEl 'col=red'").unwrap()).unwrap();
    state.define(Definition::parse("AT MyEl size").unwrap()).unwrap();
    assert_eq!(state.get_element("MYEL").unwrap().attributes, "col=red size");
    assert_eq!(
        state.define(Definition::parse("AT other x").unwrap()).unwrap_err().kind(),
        ErrorKind::UnknownElementInAttlist
    );
    state.define(Definition::parse("EL myel DELETE").unwrap()).unwrap();
    assert!(state.get_element("MyEl").is_none());
}

#[test]
fn state_entities_and_line_tags() {
    let mut state = State::with_globals();
    state.define(Definition::parse("EN hp 150").unwrap()).unwrap();
    assert_eq!(state.get_entity("hp"), Some("150"));
    assert!(state.define(Definition::parse("EN lt x").unwrap()).is_err());
    state.define(Definition::parse("TAG 30 GAG").unwrap()).unwrap();
    assert!(state.line_tags().get(30).unwrap().1.gag);
    let args = mxp::parse::Arguments::parse("&hp; '&lt;b' name=&amp;").unwrap();
    let (positional, named) = state.decode_args(&args).unwrap();
    assert_eq!(positional, vec!["150".to_owned(), "<b".to_owned()]);
    assert_eq!(named, vec![("name", "&".to_owned())]);
    let bad = mxp::parse::Arguments::parse("&nosuch;").unwrap();
    assert_eq!(state.decode_args(&bad).unwrap_err().kind(), ErrorKind::UnknownEntity);
    state.clear();
    assert_eq!(state.get_entity("hp"), None);
}

#[test]
fn line_tag_names_its_element() {
    let mut state = State::with_globals();
    state.define(Definition::parse("ELEMENT hpbar '<B>' TAG=25").unwrap()).unwrap();
    state.define(Definition::parse("TAG 25 FORE=red").unwrap()).unwrap();
    let mut modes = ModeState::new();
    assert!(modes.line_tag(&state).is_none());
    modes.set(Mode(25));
    let tag = modes.line_tag(&state).unwrap();
    assert_eq!(tag.element.unwrap().name, "hpbar");
    assert!(tag.properties.enable);
    assert_eq!(tag.properties.fore, Some(mxp::RgbColor::hex(0xff0000)));
    state.define(Definition::parse("EL hpbar DELETE").unwrap()).unwrap();
    let tag = state.get_line_tag(Mode(25)).unwrap();
    assert!(tag.element.is_none());
    assert!(state.get_line_tag(Mode(26)).is_none());
    assert!(state.get_line_tag(Mode(1)).is_none());
}

use mxp::node::{Definition, Tag, TagBuilder, TagClose, TagOpen};
use mxp::parsed::ParsedElement;
use mxp::ErrorKind;

#[test]
fn parse_open_tag_with_arguments() {
    let tag = Tag::parse(" color fore=red back=\"blue\" bold ", false).unwrap();
    assert_eq!(tag.name(), "color");
    let open = tag.into_open().unwrap();
    assert_eq!(open.arguments.get_named("FORE"), Some("red"));
    assert_eq!(open.arguments.get_named("back"), Some("blue"));
    assert_eq!(open.arguments.positional_len(), 1);
    assert_eq!(open.arguments.positional_at(0), "bold");
}

#[test]
fn parse_close_tag() {
    let tag = Tag::parse("/bold", false).unwrap();
    assert_eq!(tag.name(), "bold");
    let err = Tag::parse("/bold x", false).err().unwrap();
    assert_eq!(err.kind(), ErrorKind::ArgumentsToClosingTag);
    assert_eq!(err.target(), "x");
    assert_eq!(TagClose { name: "b" }.to_string(), "</b>");
}

#[test]
fn definitions_need_secure_mode() {
    let err = Tag::parse("!ENTITY hp 100", false).err().unwrap();
    assert_eq!(err.kind(), ErrorKind::UnsecuredDefinition);
    assert_eq!(err.target(), "<!ENTITY hp 100>");
    let tag = Tag::parse("!ENTITY hp 100", true).unwrap();
    assert_eq!(tag.name(), "hp");
    match tag.into_definition().unwrap() {
        Definition::Entity(def) => assert_eq!(def.value, "100"),
        _ => panic!("expected an entity definition"),
    }
}

#[test]
fn empty_and_incomplete_tags() {
    let err = Tag::parse("   ", true).err().unwrap();
    assert_eq!(err.kind(), ErrorKind::EmptyElement);
    assert_eq!(err.target(), "<>");
    let err = Tag::parse("!", true).err().unwrap();
    assert_eq!(err.kind(), ErrorKind::IncompleteElement);
    let err = Tag::parse("!BOGUS x", true).err().unwrap();
    assert_eq!(err.kind(), ErrorKind::InvalidDefinition);
    assert_eq!(err.target(), "BOGUS");
}

#[test]
fn try_from_node_error_types() {
    let node = Tag::Close(TagClose { name: "a" });
    let err = node.into_open().err().unwrap();
    assert_eq!(err.expected_type(), "Tag::Open");
    assert_eq!(err.received_type(), "Tag::Close");
    assert_eq!(err.to_message(), "expected Tag::Open, got Tag::Close");
}

#[test]
fn tag_open_parse_errors() {
    assert_eq!(TagOpen::parse("").err().unwrap().kind(), ErrorKind::EmptyElement);
    assert_eq!(TagOpen::parse("9x").err().unwrap().kind(), ErrorKind::InvalidElementName);
    assert_eq!(TagOpen::parse("a b=").err().unwrap().kind(), ErrorKind::EmptyArgument);
}

#[test]
fn tag_builder_escapes_and_replaces() {
    let mut builder = TagBuilder::new("send");
    builder.push("go west");
    builder.escape_and_push("a<b & \"c\"");
    builder.insert("hint", "first");
    builder.insert("HINT", "second");
    builder.escape_and_insert("href", "x>y");
    builder.push_all(&["p", "q"]);
    builder.insert_all(&[("k", "v")]);
    let tag = builder.build();
    assert_eq!(tag.name, "send");
    assert_eq!(tag.positional, vec!["go west", "a&lt;b &amp; &quot;c&quot;", "p", "q"]);
    assert_eq!(
        tag.named,
        vec![("hint", "second".to_owned()), ("href", "x&gt;y".to_owned()), ("k", "v".to_owned())]
    );
}

#[test]
fn parsed_elements_keep_argument_text() {
    match ParsedElement::parse(" SEND href='go north' ", false).unwrap() {
        ParsedElement::TagOpen(open) => {
            assert_eq!(open.name, "SEND");
            assert_eq!(open.arguments.into_inner(), "href='go north'");
            let args = open.arguments.parse_args().unwrap();
            assert_eq!(args.get_named("HREF"), Some("go north"));
        }
        _ => panic!("expected an opening tag"),
    }
    let close = ParsedElement::parse("/send", false).unwrap();
    assert_eq!(close.name(), "send");
    assert_eq!(
        ParsedElement::parse("!EN hp 10", false).err().unwrap().kind(),
        ErrorKind::UnsecuredDefinition
    );
    let def = ParsedElement::parse("!EN hp 10", true).unwrap();
    assert_eq!(def.name(), "hp");
    assert_eq!(ParsedElement::parse("  ", true).err().unwrap().kind(), ErrorKind::EmptyElement);
}

#[test]
fn definitions_convert_to_their_kind() {
    let el = Definition::parse("EL hp '<B>'").unwrap().into_element().unwrap();
    assert_eq!(el.name, "hp");
    let tag = Definition::parse("TAG 30 GAG").unwrap().into_line_tag().unwrap();
    assert_eq!(tag.gag, Some(true));
    let err = Definition::parse("EN hp 10").unwrap().into_line_tag().err().unwrap();
    assert_eq!(err.expected_type(), "Definition::LineTag");
    assert_eq!(err.received_type(), "Definition::Entity");
    let err = Tag::parse("/b", false).unwrap().into_definition().err().unwrap();
    assert_eq!(err.to_message(), "expected Tag::Definition, got Tag::Close");
    assert_eq!(Tag::parse("/b", false).unwrap().into_close().unwrap().name, "b");
}

#[test]
fn built_tag_renders() {
    let mut builder = TagBuilder::new("monster");
    builder.push("hostile");
    builder.push_all(&["Minotaur", "old veteran"]);
    builder.insert("hp", "150");
    let tag = builder.build();
    assert_eq!(tag.name, "monster");
    assert_eq!(tag.to_string(), r#"<monster hostile Minotaur "old veteran" hp=150>"#);
    let mut empty = TagBuilder::new("x");
    empty.push("");
    empty.insert("t", "a b");
    assert_eq!(empty.build().to_string(), r#"<x "" t="a b">"#);
    assert_eq!(TagBuilder::new("br").build().to_string(), "<br>");
}

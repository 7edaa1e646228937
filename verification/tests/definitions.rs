use mxp::entity::{EntityKeyword, EntityKeywords};
use mxp::node::{
    AttributeListDefinition, Definition, ElementDefinition, EntityDefinition, LineTagDefinition,
};
use mxp::{ErrorKind, Mode, RgbColor};

#[test]
fn fmt_attlist() {
    let def = AttributeListDefinition {
        name: "custom",
        attributes: "color=red background=white flags",
    };
    assert_eq!(def.to_string(), "<!AT custom 'color=red background=white flags'>");
}

#[test]
fn fmt_linetag() {
    let def = LineTagDefinition {
        index: Mode(30),
        window: Some("_top"),
        gag: Some(true),
        fore: Some(RgbColor::hex(0x123456)),
        back: Some(RgbColor::hex(0x789abc)),
        enable: Some(false),
    };
    assert_eq!(
        def.to_string(),
        "<!TAG 30 WINDOWNAME=\"_top\" GAG FORE=#123456 BACK=#789abc DISABLE>"
    );
}

#[test]
fn fmt_entity() {
    let mut keywords = EntityKeywords::empty();
    keywords.insert(EntityKeyword::Publish);
    keywords.insert(EntityKeyword::Add);
    let def = EntityDefinition {
        name: "custom",
        value: "some&nbsp;value",
        desc: Some("mydesc"),
        keywords,
    };
    assert_eq!(
        def.to_string(),
        "<!EN custom \"some&nbsp;value\" DESC=\"mydesc\" PUBLISH ADD>"
    );
}

#[test]
fn parse_entity_definition() {
    let def = EntityDefinition::parse("Guilds \"Wizards\" DESC='guild list' publish ADD").unwrap();
    assert_eq!(def.name, "Guilds");
    assert_eq!(def.value, "Wizards");
    assert_eq!(def.desc, Some("guild list"));
    assert!(def.keywords.contains(EntityKeyword::Publish));
    assert!(def.keywords.contains(EntityKeyword::Add));
    assert!(!def.keywords.contains(EntityKeyword::Delete));
    assert_eq!(def.to_string(), "<!EN Guilds \"Wizards\" DESC=\"guild list\" PUBLISH ADD>");
}

#[test]
fn parse_entity_definition_errors() {
    assert_eq!(EntityDefinition::parse("").unwrap_err().kind(), ErrorKind::IncompleteElement);
    assert_eq!(
        EntityDefinition::parse("_bad value").unwrap_err().kind(),
        ErrorKind::InvalidElementName
    );
    assert_eq!(
        EntityDefinition::parse("name PRIVATE").unwrap_err().kind(),
        ErrorKind::EmptyElementInDefinition
    );
    let err = EntityDefinition::parse("name value extra").unwrap_err();
    assert_eq!(err.kind(), ErrorKind::UnexpectedArgument);
    assert_eq!(err.target(), "extra");
}

#[test]
fn parse_attribute_list() {
    let def = AttributeListDefinition::parse("custom 'color=red flags'").unwrap();
    assert_eq!(def.name, "custom");
    assert_eq!(def.attributes, "color=red flags");
    assert_eq!(AttributeListDefinition::unquote("'abc"), "abc");
    assert_eq!(AttributeListDefinition::unquote("abc'"), "abc");
    assert_eq!(AttributeListDefinition::unquote("abc"), "abc");
    assert_eq!(
        AttributeListDefinition::parse("").unwrap_err().kind(),
        ErrorKind::IncompleteElement
    );
}

#[test]
fn parse_line_tag() {
    let def = LineTagDefinition::parse("30 WINDOWNAME=\"_top\" FORE=#123456 back=red GAG DISABLE").unwrap();
    assert_eq!(def.index, Mode(30));
    assert_eq!(def.window, Some("_top"));
    assert_eq!(def.gag, Some(true));
    assert_eq!(def.fore, Some(RgbColor::hex(0x123456)));
    assert_eq!(def.back, Some(RgbColor::hex(0xff0000)));
    assert_eq!(def.enable, Some(false));
}

#[test]
fn parse_line_tag_errors() {
    let err = LineTagDefinition::parse("10").unwrap_err();
    assert_eq!(err.kind(), ErrorKind::IllegalLineTag);
    assert_eq!(err.target(), "10");
    assert_eq!(LineTagDefinition::parse("GAG").unwrap_err().kind(), ErrorKind::IncompleteArguments);
    assert_eq!(LineTagDefinition::parse("abc").unwrap_err().kind(), ErrorKind::InvalidNumber);
    assert_eq!(LineTagDefinition::parse("300").unwrap_err().kind(), ErrorKind::InvalidNumber);
    assert_eq!(
        LineTagDefinition::parse("30 FORE=nocolor").unwrap_err().kind(),
        ErrorKind::UnknownColor
    );
}

#[test]
fn fmt_element_off() {
    let def = ElementDefinition { name: "custom", element: None };
    assert_eq!(def.to_string(), "<!EL custom DELETE>");
}

#[test]
fn fmt_element_round_trips() {
    let source = "hp '<COLOR red><B>' ATT='col=red' TAG=25 FLAG=\"RoomName\" OPEN";
    let def = ElementDefinition::parse(source).unwrap();
    let text = def.to_string();
    assert_eq!(text, "<!EL hp '<color red><b>' ATT='col=red' TAG=25 FLAG=\"RoomName\" OPEN>");
    let body = text.strip_prefix("<!EL ").unwrap().strip_suffix('>').unwrap();
    assert_eq!(ElementDefinition::parse(body).unwrap(), def);
    let var = ElementDefinition::parse("v '<B>' FLAG=\"set hp\" EMPTY").unwrap();
    assert_eq!(var.to_string(), "<!EL v '<b>' FLAG=\"SET hp\" EMPTY>");
    let whole = Definition::parse("EL v DELETE").unwrap();
    assert_eq!(whole.to_string(), "<!EL v DELETE>");
    let attlist = Definition::parse("AT v x=1").unwrap();
    assert_eq!(attlist.to_string(), "<!AT v 'x=1'>");
    assert_eq!(
        ElementDefinition::parse("").unwrap_err().target(),
        "empty element definition"
    );
}

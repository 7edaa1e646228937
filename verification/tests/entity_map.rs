use mxp::entity::{Entity, EntityKeyword, EntityKeywords, EntityMap, EntityVisibility};
use mxp::node::EntityDefinition;
use mxp::{Error, ErrorKind};

fn define(map: &mut EntityMap, name: &str, value: &str, desc: Option<&str>, keywords: EntityKeywords) -> bool {
    map.define(EntityDefinition { name, value, desc, keywords }).is_ok()
}

fn none() -> EntityKeywords {
    EntityKeywords::empty()
}

#[test]
fn define_new() {
    let mut map = EntityMap::new();
    define(&mut map, "key", "value", None, none());
    assert_eq!(map.get("key"), Some("value"));
}

#[test]
fn define_delete() {
    let mut map = EntityMap::new();
    define(&mut map, "key", "value", None, none());
    define(&mut map, "key", "", None, EntityKeywords::only(EntityKeyword::Delete));
    assert_eq!(map.get("key"), None);
}

#[test]
fn define_replace() {
    let mut map = EntityMap::new();
    define(&mut map, "key", "value", Some("desc1"), none());
    define(&mut map, "key", "", Some("desc2"), EntityKeywords::only(EntityKeyword::Publish));
    assert_eq!(
        map.entity("key"),
        Some(&Entity {
            value: String::new(),
            visibility: EntityVisibility::Publish,
            description: "desc2".to_owned()
        })
    );
}

#[test]
fn define_add_and_remove() {
    let mut map = EntityMap::new();
    let add = EntityKeywords::only(EntityKeyword::Add);
    let remove = EntityKeywords::only(EntityKeyword::Remove);
    define(&mut map, "key", "value1", None, add);
    define(&mut map, "key", "value2", None, add);
    define(&mut map, "key", "value3", None, add);
    define(&mut map, "key", "value2", None, remove);
    define(&mut map, "key", "x", None, remove);
    assert_eq!(map.get("key"), Some("value1|value3"));
}

#[test]
fn protect_global() {
    let mut map = EntityMap::with_globals();
    let add = EntityKeywords::only(EntityKeyword::Add);
    let set_nonglobal = define(&mut map, "key", "value1", None, add);
    let set_global = define(&mut map, "amp", "value1", None, add);
    let remove_nonglobal = map.remove("key").is_ok();
    let remove_global = map.remove("amp").is_ok();
    assert_eq!(
        (set_nonglobal, set_global, remove_nonglobal, remove_global),
        (true, false, true, false)
    );
}

#[test]
fn decode_entity_matched() {
    let mut map = EntityMap::new();
    define(&mut map, "key1", "value1", None, none());
    define(&mut map, "key2", "value2", None, none());
    assert_eq!(map.decode("key1"), Ok("value1".into()));
}

#[test]
fn decode_entity_unmatched() {
    let mut map = EntityMap::new();
    define(&mut map, "key2", "value2", None, none());
    assert!(map.decode("key1").is_err());
}

#[test]
fn decode_decimal() {
    assert_eq!(EntityMap::new().decode("#32"), Ok('\x20'.into()));
}

#[test]
fn decode_hex() {
    assert_eq!(EntityMap::new().decode("#x7E"), Ok('\x7e'.into()));
}

#[test]
fn decode_invalid_number() {
    assert_eq!(
        EntityMap::new().decode("#x7z"),
        Err(Error::new("#x7z", ErrorKind::InvalidEntityNumber))
    );
}

#[test]
fn decode_below_range() {
    assert_eq!(EntityMap::new().decode("#10"), Ok("".into()));
}

#[test]
fn decode_above_range() {
    assert_eq!(EntityMap::new().decode("#x90"), Ok("".into()));
}

#[test]
fn globals_decode_and_clear_keeps_them() {
    let mut map = EntityMap::with_globals();
    assert_eq!(map.decode("lt"), Ok("<".into()));
    map.insert("HP".to_owned(), "150".to_owned()).unwrap();
    assert_eq!(map.decode("HP"), Ok("150".into()));
    map.clear();
    assert!(map.decode("HP").is_err());
    assert_eq!(map.decode("lt"), Ok("<".into()));
    assert!(EntityMap::new().decode("lt").is_err());
}

#[test]
fn len_counts_distinct_names() {
    let mut map = EntityMap::with_globals();
    assert!(map.is_empty());
    map.insert("HP".to_owned(), "150".to_owned()).unwrap();
    map.insert("MP".to_owned(), "100".to_owned()).unwrap();
    map.insert("HP".to_owned(), "125".to_owned()).unwrap();
    assert_eq!(map.len(), 2);
    assert_eq!(map.get("HP"), Some("125"));
}

#[test]
fn guard_global_rejects_globals_and_numbers() {
    let map = EntityMap::with_globals();
    assert!(map.guard_global("HP").is_ok());
    assert_eq!(
        map.guard_global("lt"),
        Err(Error::new("lt", ErrorKind::CannotRedefineGlobalEntity))
    );
    assert!(map.guard_global("#031").is_err());
    assert!(map.is_global("#031"));
    assert!(!map.is_global("HP"));
}

#[test]
fn remove_returns_removed_entity() {
    let mut map = EntityMap::with_globals();
    map.insert("HP".to_owned(), "150".to_owned()).unwrap();
    assert!(map.remove("HP").unwrap().is_some());
    assert!(map.remove("HP").unwrap().is_none());
    assert!(map.remove("lt").is_err());
    assert!(map.insert("lt".to_owned(), "!".to_owned()).is_err());
}

#[test]
fn private_entities_are_hidden_from_get_but_decode() {
    let mut map = EntityMap::new();
    define(&mut map, "secret", "42", None, EntityKeywords::only(EntityKeyword::Private));
    assert_eq!(map.get("secret"), None);
    assert_eq!(map.decode("secret"), Ok("42".into()));
}

#[test]
fn published_lists_publish_entities() {
    let mut map = EntityMap::new();
    define(&mut map, "a", "1", Some("first"), EntityKeywords::only(EntityKeyword::Publish));
    define(&mut map, "b", "2", None, none());
    let published = map.published();
    assert_eq!(published.len(), 1);
    assert_eq!(published[0].name, "a");
    assert_eq!(published[0].value, "1");
    assert_eq!(published[0].description, "first");
}

#[test]
fn define_returns_borrowed_or_removed() {
    let mut map = EntityMap::new();
    let r = map.define(EntityDefinition { name: "k", value: "v", desc: None, keywords: none() });
    assert!(matches!(r, Ok(Some(std::borrow::Cow::Borrowed(_)))));
    let r = map.define(EntityDefinition {
        name: "k",
        value: "",
        desc: None,
        keywords: EntityKeywords::only(EntityKeyword::Delete),
    });
    assert!(matches!(r, Ok(Some(std::borrow::Cow::Owned(_)))));
    let r = map.define(EntityDefinition {
        name: "missing",
        value: "",
        desc: None,
        keywords: EntityKeywords::only(EntityKeyword::Remove),
    });
    assert!(matches!(r, Ok(None)));
}

#[test]
fn const_global_searches_the_table() {
    assert_eq!(Entity::const_global("lt"), Some("<"));
    assert_eq!(Entity::const_global("amp"), Some("&"));
    assert_eq!(Entity::const_global("HP"), None);
    assert_eq!(Entity::const_global("text"), None);
    assert_eq!(Entity::global("text"), Some("&text;"));
    assert_eq!(Entity::global("lt"), Some("<"));
}

#[test]
fn private_entities_are_hidden() {
    let mut map = EntityMap::new();
    define(&mut map, "secret", "42", None, EntityKeywords::only(EntityKeyword::Private));
    assert_eq!(map.get("secret"), None);
    assert!(map.entity("secret").unwrap().is_private());
    assert!(map.published().is_empty());
}

#[test]
fn insert_makes_map_nonempty() {
    let mut map = EntityMap::with_globals();
    assert!(map.is_empty());
    assert_eq!(map.len(), 0);
    map.insert("HP".to_owned(), "150".to_owned()).unwrap();
    assert!(!map.is_empty());
    assert_eq!(map.len(), 1);
}

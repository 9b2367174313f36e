use kernel_relay::config::ConfigUtil;
use kernel_relay::config::JsonObject;
use kernel_relay::config::JsonValue;

fn entry(key: &str, value: JsonValue, rest: JsonObject) -> JsonObject {
    JsonObject::Entry(key.to_string(), Box::new(value), Box::new(rest))
}

fn keys(path: &[&str]) -> Vec<String> {
    path.iter().map(|k| k.to_string()).collect()
}

/// `{"log": {"level": "info"}, "port": 8080}`
fn sample_doc() -> ConfigUtil {
    let log = JsonValue::Obj(entry(
        "level",
        JsonValue::Str("info".to_string()),
        JsonObject::Empty,
    ));
    let root = JsonValue::Obj(entry(
        "log",
        log,
        entry("port", JsonValue::Num("8080".to_string()), JsonObject::Empty),
    ));
    ConfigUtil::from_root(root)
}

fn expect_str(v: Option<&JsonValue>, want: &str) {
    match v {
        Some(JsonValue::Str(s)) => assert_eq!(s, want),
        _ => panic!("expected the string {:?}", want),
    }
}

#[test]
fn get_property_walks_nested_objects() {
    let c = sample_doc();
    expect_str(c.get_property(&keys(&["log", "level"])), "info");
    match c.get_property(&keys(&["port"])) {
        Some(JsonValue::Num(n)) => assert_eq!(n, "8080"),
        _ => panic!("expected the port number"),
    }
}

#[test]
fn get_property_missing_key_is_none() {
    let c = sample_doc();
    assert!(c.get_property(&keys(&["log", "file"])).is_none());
    assert!(c.get_property(&keys(&["nope"])).is_none());
    assert!(c.get_property(&keys(&["port", "deep"])).is_none());
}

#[test]
fn modify_property_replaces_an_existing_value() {
    let mut c = sample_doc();
    c.modify_property(&keys(&["log", "level"]), JsonValue::Str("debug".to_string()));
    expect_str(c.get_property(&keys(&["log", "level"])), "debug");
    match c.get_property(&keys(&["port"])) {
        Some(JsonValue::Num(n)) => assert_eq!(n, "8080"),
        _ => panic!("the untouched key must keep its value"),
    }
}

#[test]
fn modify_property_on_a_broken_path_changes_nothing() {
    let mut c = sample_doc();
    c.modify_property(&keys(&["log", "file"]), JsonValue::Str("x".to_string()));
    assert!(c.get_property(&keys(&["log", "file"])).is_none());
    expect_str(c.get_property(&keys(&["log", "level"])), "info");
    c.modify_property(&keys(&["port", "inner"]), JsonValue::Null);
    match c.get_property(&keys(&["port"])) {
        Some(JsonValue::Num(n)) => assert_eq!(n, "8080"),
        _ => panic!("a path through a non-object must leave the document alone"),
    }
}

#[test]
fn update_key_replaces_and_creates() {
    let mut c = sample_doc();
    c.update_key(&keys(&["log", "level"]), JsonValue::Str("warn".to_string()));
    expect_str(c.get_property(&keys(&["log", "level"])), "warn");
    c.update_key(&keys(&["log", "output"]), JsonValue::Str("file".to_string()));
    expect_str(c.get_property(&keys(&["log", "output"])), "file");
    c.update_key(
        &keys(&["experimental", "clash_api", "secret"]),
        JsonValue::Str("SECRET-REDACTED".to_string()),
    );
    expect_str(
        c.get_property(&keys(&["experimental", "clash_api", "secret"])),
        "SECRET-REDACTED",
    );
    expect_str(c.get_property(&keys(&["log", "level"])), "warn");
}

#[test]
fn update_key_turns_null_into_an_object() {
    let mut c = ConfigUtil::from_root(JsonValue::Null);
    assert!(c.try_update_key(&keys(&["a", "b"]), JsonValue::Bool(true)));
    match c.get_property(&keys(&["a", "b"])) {
        Some(JsonValue::Bool(true)) => {},
        _ => panic!("the created path must hold the value"),
    }
}

#[test]
fn try_update_key_refuses_a_path_through_a_scalar() {
    let mut c = sample_doc();
    assert!(!c.try_update_key(&keys(&["port", "inner"]), JsonValue::Null));
    match c.get_property(&keys(&["port"])) {
        Some(JsonValue::Num(n)) => assert_eq!(n, "8080"),
        _ => panic!("a refused update must leave the document alone"),
    }
    assert!(!c.try_update_key(&keys(&[]), JsonValue::Null));
    assert!(!c.can_update_key(&keys(&["port", "x", "y"])));
    assert!(c.can_update_key(&keys(&["log", "level"])));
}

#[test]
fn arrays_are_kept_verbatim_and_block_key_paths() {
    let root = JsonValue::Obj(entry(
        "tags",
        JsonValue::Arr(vec![
            JsonValue::Str("a".to_string()),
            JsonValue::Str("b".to_string()),
        ]),
        JsonObject::Empty,
    ));
    let mut c = ConfigUtil::from_root(root);
    assert!(c.get_property(&keys(&["tags", "0"])).is_none());
    assert!(!c.try_update_key(&keys(&["tags", "0"]), JsonValue::Null));
    match c.get_property(&keys(&["tags"])) {
        Some(JsonValue::Arr(items)) => assert_eq!(items.len(), 2),
        _ => panic!("the array must be kept"),
    }
}

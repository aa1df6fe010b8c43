use rodep::config::Config;
use rodep::error::AddError;
use rodep::json::JsonValue;
use rodep::partition::{add_submodule_to_rojo, get_partition, patch_document, partition_value};

fn s(x: &str) -> String {
    x.to_string()
}

fn obj(members: Vec<(&str, JsonValue)>) -> JsonValue {
    JsonValue::Object(members.into_iter().map(|(k, v)| (s(k), v)).collect())
}

fn settings() -> Config {
    Config::new("ReplicatedStorage", "lib", "rojo.json")
}

fn members(v: &JsonValue) -> &Vec<(String, JsonValue)> {
    match v {
        JsonValue::Object(m) => m,
        other => panic!("not an object: {:?}", other),
    }
}

fn starter_rojo() -> JsonValue {
    obj(vec![
        ("name", JsonValue::Str(s("game"))),
        ("servePort", JsonValue::Number(s("8000"))),
        (
            "partitions",
            obj(vec![(
                "src",
                obj(vec![("path", JsonValue::Str(s("src"))), ("target", JsonValue::Str(s("ReplicatedStorage.Src")))]),
            )]),
        ),
    ])
}

#[test]
fn scenario_foo_bar_partition() {
    let doc = add_submodule_to_rojo(&settings(), starter_rojo(), "bar", "src", "bar").unwrap();
    let parts = members(&members(&doc)[2].1);
    assert_eq!(parts.len(), 2);
    assert_eq!(parts[1].0, "__rodep_auto_bar");
    assert_eq!(
        parts[1].1,
        obj(vec![("path", JsonValue::Str(s("lib/bar/src"))), ("target", JsonValue::Str(s("ReplicatedStorage.bar")))])
    );
    assert_eq!(get_partition(&doc, "bar"), Some((s("lib/bar/src"), s("ReplicatedStorage.bar"))));
}

#[test]
fn round_trip_reads_back_entry() {
    let doc = add_submodule_to_rojo(&settings(), starter_rojo(), "foo", "lib", "foo").unwrap();
    assert_eq!(get_partition(&doc, "foo"), Some((s("lib/foo/lib"), s("ReplicatedStorage.foo"))));
    let doc = add_submodule_to_rojo(&settings(), doc, "baz", "code", "Baz").unwrap();
    assert_eq!(get_partition(&doc, "baz"), Some((s("lib/baz/code"), s("ReplicatedStorage.Baz"))));
    assert_eq!(get_partition(&doc, "foo"), Some((s("lib/foo/lib"), s("ReplicatedStorage.foo"))));
    assert_eq!(get_partition(&doc, "src"), None);
}

#[test]
fn other_members_keep_their_place() {
    let doc = add_submodule_to_rojo(&settings(), starter_rojo(), "foo", "src", "foo").unwrap();
    let top = members(&doc);
    assert_eq!(top.len(), 3);
    assert_eq!(top[0], (s("name"), JsonValue::Str(s("game"))));
    assert_eq!(top[1], (s("servePort"), JsonValue::Number(s("8000"))));
    assert_eq!(top[2].0, "partitions");
    let original = starter_rojo();
    assert_eq!(members(&top[2].1)[0], members(&members(&original)[2].1)[0]);
}

#[test]
fn readding_overwrites_entry() {
    let doc = add_submodule_to_rojo(&settings(), starter_rojo(), "foo", "src", "foo").unwrap();
    let doc = add_submodule_to_rojo(&settings(), doc, "foo", "lib", "Foo").unwrap();
    let parts = members(&members(&doc)[2].1);
    assert_eq!(parts.len(), 2);
    assert_eq!(parts[1].0, "__rodep_auto_foo");
    assert_eq!(get_partition(&doc, "foo"), Some((s("lib/foo/lib"), s("ReplicatedStorage.Foo"))));
}

#[test]
fn readding_overwrites_hand_written_entry_of_same_key() {
    let doc = obj(vec![(
        "partitions",
        obj(vec![("__rodep_auto_foo", obj(vec![("path", JsonValue::Str(s("elsewhere")))]))]),
    )]);
    let doc = add_submodule_to_rojo(&settings(), doc, "foo", "src", "foo").unwrap();
    let parts = members(&members(&doc)[0].1);
    assert_eq!(parts.len(), 1);
    assert_eq!(get_partition(&doc, "foo"), Some((s("lib/foo/src"), s("ReplicatedStorage.foo"))));
}

#[test]
fn null_document_gets_partition_map() {
    let doc = add_submodule_to_rojo(&settings(), JsonValue::Null, "foo", "src", "foo").unwrap();
    let top = members(&doc);
    assert_eq!(top.len(), 1);
    assert_eq!(top[0].0, "partitions");
    assert_eq!(get_partition(&doc, "foo"), Some((s("lib/foo/src"), s("ReplicatedStorage.foo"))));
}

#[test]
fn missing_or_null_partition_map_is_created() {
    let doc = obj(vec![("name", JsonValue::Str(s("game")))]);
    let doc = add_submodule_to_rojo(&settings(), doc, "foo", "src", "foo").unwrap();
    assert_eq!(members(&doc).len(), 2);
    assert_eq!(members(&doc)[1].0, "partitions");
    let doc = obj(vec![("partitions", JsonValue::Null)]);
    let doc = add_submodule_to_rojo(&settings(), doc, "foo", "src", "foo").unwrap();
    assert_eq!(members(&members(&doc)[0].1).len(), 1);
}

#[test]
fn malformed_documents_are_refused() {
    let r = add_submodule_to_rojo(&settings(), JsonValue::Array(Vec::new()), "foo", "src", "foo");
    assert_eq!(r, Err(AddError::MalformedConfig));
    let doc = obj(vec![("partitions", JsonValue::Str(s("x")))]);
    let r = add_submodule_to_rojo(&settings(), doc, "foo", "src", "foo");
    assert_eq!(r, Err(AddError::MalformedConfig));
    let r = patch_document(JsonValue::Bool(true), s("k"), JsonValue::Null);
    assert_eq!(r, Err(AddError::MalformedConfig));
}

#[test]
fn partition_value_shape() {
    assert_eq!(
        partition_value(s("p"), s("t")),
        obj(vec![("path", JsonValue::Str(s("p"))), ("target", JsonValue::Str(s("t")))])
    );
}

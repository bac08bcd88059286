use unidpp_config::json::{deny_unknown, put_member};
use unidpp_config::{finish_schema, Json};

fn text(t: &str) -> Json {
    Json::Text(t.to_string())
}

fn num(t: &str) -> Json {
    Json::Number(t.to_string())
}

fn obj(members: Vec<(&str, Json)>) -> Json {
    Json::Object(members.into_iter().map(|(k, v)| (k.to_string(), v)).collect())
}

fn member<'a>(j: &'a Json, k: &str) -> Option<&'a Json> {
    match j {
        Json::Object(members) => members.iter().find(|(name, _)| name == k).map(|(_, v)| v),
        _ => None,
    }
}

/// A schema in the shape the model derivation produces: definitions under
/// `$defs`, optional blocks as `anyOf` a reference or null.
fn derived_schema() -> Json {
    let trust = obj(vec![
        ("type", text("object")),
        (
            "properties",
            obj(vec![
                ("bind", obj(vec![("type", text("string"))])),
                ("sign_seed_p256", obj(vec![("type", Json::Array(vec![text("string"), text("null")]))])),
            ]),
        ),
        ("required", Json::Array(vec![text("bind")])),
    ]);
    let projector = obj(vec![
        ("type", text("object")),
        (
            "properties",
            obj(vec![
                ("bind", obj(vec![("type", text("string"))])),
                ("rollup_seed", obj(vec![("type", Json::Array(vec![text("string"), text("null")]))])),
            ]),
        ),
    ]);
    let suites = obj(vec![
        ("type", text("object")),
        (
            "properties",
            obj(vec![(
                "pack_suites",
                obj(vec![("type", text("array")), ("items", obj(vec![("type", text("string"))]))]),
            )]),
        ),
    ]);
    obj(vec![
        ("title", text("OperatorManifest")),
        ("type", text("object")),
        (
            "properties",
            obj(vec![
                ("api_version", obj(vec![("type", text("string"))])),
                (
                    "trust",
                    obj(vec![(
                        "anyOf",
                        Json::Array(vec![
                            obj(vec![("$ref", text("#/$defs/TrustService"))]),
                            obj(vec![("type", text("null"))]),
                        ]),
                    )]),
                ),
                ("cache_ttl_secs", obj(vec![("type", text("integer")), ("default", num("300"))])),
            ]),
        ),
        (
            "$defs",
            obj(vec![("TrustService", trust), ("ProjectorService", projector), ("Crypto", suites)]),
        ),
    ])
}

/// The object nodes that list fields yet accept unknown members.
fn loose_nodes(node: &Json) -> usize {
    match node {
        Json::Object(members) => {
            let has_properties = members.iter().any(|(k, _)| k == "properties");
            let closed = member(node, "additionalProperties") == Some(&Json::Bool(false));
            let own = if has_properties && !closed { 1 } else { 0 };
            own + members.iter().map(|(_, v)| loose_nodes(v)).sum::<usize>()
        }
        Json::Array(items) => items.iter().map(loose_nodes).sum(),
        _ => 0,
    }
}

#[test]
fn json_schema_is_strict_and_model_complete() {
    let schema = finish_schema(derived_schema());
    assert_eq!(
        member(&schema, "$schema"),
        Some(&text("https://json-schema.org/draft/2020-12/schema"))
    );
    // Every model field the schema knows (spot the newest ones).
    let defs = member(&schema, "$defs").unwrap();
    let trust = member(member(defs, "TrustService").unwrap(), "properties").unwrap();
    assert!(member(trust, "sign_seed_p256").is_some());
    assert!(member(trust, "bind").is_some());
    let projector = member(member(defs, "ProjectorService").unwrap(), "properties").unwrap();
    assert!(member(projector, "rollup_seed").is_some());
    // The deny_unknown_fields doctrine holds on every object node with
    // properties: as strict as `load`, never looser.
    assert_eq!(loose_nodes(&schema), 0, "no object node may accept unknown fields");
}

#[test]
fn the_derived_schema_starts_loose() {
    assert_eq!(loose_nodes(&derived_schema()), 4);
}

#[test]
fn finishing_stamps_the_title_in_place() {
    let schema = finish_schema(derived_schema());
    assert_eq!(member(&schema, "title"), Some(&text("UniDPP operator manifest (unidpp.org/v1)")));
    match &schema {
        Json::Object(members) => {
            // `title` keeps its place at the front; `$schema` is new and
            // comes after the closing member of the root.
            assert_eq!(members[0].0, "title");
            let names: Vec<&str> = members.iter().map(|(k, _)| k.as_str()).collect();
            assert_eq!(names, vec!["title", "type", "properties", "$defs", "additionalProperties", "$schema"]);
        }
        _ => panic!("the schema is an object"),
    }
}

#[test]
fn a_declared_additional_properties_is_kept() {
    let map_node = obj(vec![
        ("type", text("object")),
        ("properties", obj(vec![])),
        ("additionalProperties", obj(vec![("type", text("string"))])),
    ]);
    let strict = deny_unknown(obj(vec![("labels", map_node)]));
    let labels = member(&strict, "labels").unwrap();
    assert_eq!(member(labels, "additionalProperties"), Some(&obj(vec![("type", text("string"))])));
    match labels {
        Json::Object(members) => assert_eq!(members.len(), 3),
        _ => panic!("an object stays an object"),
    }
}

#[test]
fn an_items_node_is_closed_too() {
    let strict = deny_unknown(obj(vec![("type", text("array")), ("items", obj(vec![("type", text("string"))]))]));
    assert_eq!(member(&strict, "additionalProperties"), Some(&Json::Bool(false)));
    // The element schema lists no fields: it stays open.
    let items = member(&strict, "items").unwrap();
    assert_eq!(member(items, "additionalProperties"), None);
}

#[test]
fn nodes_inside_arrays_are_left_as_they_are() {
    let inner = obj(vec![("properties", obj(vec![]))]);
    let strict = deny_unknown(obj(vec![("anyOf", Json::Array(vec![inner]))]));
    let any_of = member(&strict, "anyOf").unwrap();
    assert_eq!(any_of, &Json::Array(vec![obj(vec![("properties", obj(vec![]))])]));
    assert_eq!(member(&strict, "additionalProperties"), None);
}

#[test]
fn scalars_and_arrays_are_not_objects() {
    assert_eq!(deny_unknown(num("1.5")), num("1.5"));
    assert_eq!(deny_unknown(Json::Null), Json::Null);
    assert_eq!(finish_schema(text("x")), text("x"));
    assert_eq!(finish_schema(Json::Array(vec![])), Json::Array(vec![]));
}

#[test]
fn setting_a_member_replaces_the_first_of_that_name() {
    let o = obj(vec![("a", num("1")), ("b", num("2")), ("a", num("3"))]);
    assert_eq!(put_member(o, "a", Json::Bool(true)), obj(vec![("a", Json::Bool(true)), ("b", num("2")), ("a", num("3"))]));
    let o = obj(vec![("a", num("1"))]);
    assert_eq!(put_member(o, "c", Json::Null), obj(vec![("a", num("1")), ("c", Json::Null)]));
    let replaced = finish_schema(obj(vec![("$schema", text("old"))]));
    assert_eq!(replaced, obj(vec![("$schema", text("https://json-schema.org/draft/2020-12/schema")), ("title", text("UniDPP operator manifest (unidpp.org/v1)"))]));
}

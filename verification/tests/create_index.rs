use faunadb::prelude::{
    CreateIndex, Expr, IndexParams, IndexPermission, IndexValue, Level, Object, Query, Ref, Term,
};

#[test]
fn test_create_index() {
    let mut permission = IndexPermission::default();
    permission.read(Level::public());

    let mut params = IndexParams::new("meows", Expr::from(Ref::class("cats")));
    params.permissions(permission);

    let age_term = Term::field(vec!["data", "age"]);
    let name_term = Term::binding("cats_name");

    params.terms(vec![age_term, name_term]);

    let name_value = IndexValue::field(vec!["data", "name"]);

    let mut age_value = IndexValue::binding("cats_age");
    age_value.reverse();

    params.values(vec![age_value, name_value]);

    let query = Query::from(CreateIndex::new(params));
    let serialized: serde_json::Value = serde_json::from_str(&query.to_json()).unwrap();

    let expected: serde_json::Value = serde_json::from_str(
        r#"{
            "create_index": {
                "object": {
                    "active": false,
                    "name": "meows",
                    "permissions": {
                        "object": {
                            "read": "public"
                        }
                    },
                    "serialized": false,
                    "source": {
                        "@ref": {
                            "class": {
                                "@ref": {
                                    "id": "classes"
                                }
                            },
                            "id": "cats"
                        }
                    },
                    "terms": [
                        {
                            "object": {
                                "field": ["data", "age"]
                            }
                        },
                        {
                            "object": {
                                "binding": "cats_name"
                            }
                        }
                    ],
                    "unique": false,
                    "values": [
                        {
                            "object": {
                                "binding": "cats_age",
                                "reverse": true
                            }
                        },
                        {
                            "object": {
                                "field": ["data", "name"],
                                "reverse": false
                            }
                        }
                    ]
                }
            }
        }"#,
    )
    .unwrap();

    assert_eq!(expected, serialized);
}

fn cats_params() -> IndexParams {
    let mut permission = IndexPermission::default();
    permission.read(Level::public());
    let mut params = IndexParams::new("meows", Expr::from(Ref::class("cats")));
    params.permissions(permission);
    params.terms(vec![Term::field(vec!["data", "age"]), Term::binding("cats_name")]);
    let mut age_value = IndexValue::binding("cats_age");
    age_value.reverse();
    params.values(vec![age_value, IndexValue::field(vec!["data", "name"])]);
    params
}

#[test]
fn create_index_is_written_byte_for_byte() {
    let query = Query::from(CreateIndex::new(cats_params()));
    assert_eq!(
        query.to_json(),
        concat_text(&[
            "{\"create_index\":{\"object\":{\"name\":\"meows\",",
            "\"source\":{\"@ref\":{\"id\":\"cats\",\"class\":{\"@ref\":{\"id\":\"classes\"}}}},",
            "\"active\":false,\"unique\":false,\"serialized\":false,",
            "\"terms\":[{\"object\":{\"field\":[\"data\",\"age\"]}},{\"object\":{\"binding\":\"cats_name\"}}],",
            "\"values\":[{\"object\":{\"binding\":\"cats_age\",\"reverse\":true}},",
            "{\"object\":{\"field\":[\"data\",\"name\"],\"reverse\":false}}],",
            "\"permissions\":{\"object\":{\"read\":\"public\"}}}}}",
        ])
    );
}

fn concat_text(parts: &[&str]) -> String {
    let mut text = String::new();
    for part in parts {
        text.push_str(part);
    }
    text
}

#[test]
fn serializing_twice_gives_the_same_bytes() {
    let params = cats_params();
    let first = params.to_json();
    let second = params.to_json();
    assert_eq!(first, second);
    let query = Query::from(CreateIndex::new(params));
    assert_eq!(query.to_json(), query.to_json());
    assert_eq!(query.to_json(), format!("{{\"create_index\":{}}}", first));
}

#[test]
fn the_order_of_the_setters_does_not_show() {
    let mut one = IndexParams::new("i", Expr::from(Ref::class("c")));
    one.active().partitions(8).unique();
    let mut other = IndexParams::new("i", Expr::from(Ref::class("c")));
    other.unique().active().partitions(8);
    assert_eq!(one.to_json(), other.to_json());
}

#[test]
fn new_params_have_no_flag_and_no_optional_key() {
    let params = IndexParams::new("plain", Expr::from(Ref::class("things")));
    assert_eq!(
        params.to_json(),
        concat_text(&[
            "{\"object\":{\"name\":\"plain\",",
            "\"source\":{\"@ref\":{\"id\":\"things\",\"class\":{\"@ref\":{\"id\":\"classes\"}}}},",
            "\"active\":false,\"unique\":false,\"serialized\":false}}",
        ])
    );
}

#[test]
fn every_setter_shows_in_the_text() {
    let mut data = Object::new();
    data.insert("owner", Expr::from(String::from("me")));
    let mut params = IndexParams::new("full", Expr::Null);
    params.active().unique().serialized().partitions(3).data(data);
    params.terms(vec![]).values(vec![]).permissions(IndexPermission::default());
    assert_eq!(
        params.to_json(),
        concat_text(&[
            "{\"object\":{\"name\":\"full\",\"source\":null,",
            "\"active\":true,\"unique\":true,\"serialized\":true,",
            "\"terms\":[],\"values\":[],\"partitions\":3,",
            "\"permissions\":{\"object\":{}},\"data\":{\"object\":{\"owner\":\"me\"}}}}",
        ])
    );
}

#[test]
fn a_setter_called_twice_overwrites() {
    let mut params = IndexParams::new("i", Expr::Null);
    params.partitions(2).partitions(5);
    params.terms(vec![Term::binding("a")]).terms(vec![Term::binding("b")]);
    assert_eq!(
        params.to_json(),
        concat_text(&[
            "{\"object\":{\"name\":\"i\",\"source\":null,",
            "\"active\":false,\"unique\":false,\"serialized\":false,",
            "\"terms\":[{\"object\":{\"binding\":\"b\"}}],\"partitions\":5}}",
        ])
    );
}

#[test]
fn a_term_has_a_field_or_a_binding_never_both() {
    let field = Term::field(vec!["data", "age"]).to_expr().to_json();
    assert_eq!(field, "{\"object\":{\"field\":[\"data\",\"age\"]}}");
    let binding = Term::binding("cats_name").to_expr().to_json();
    assert_eq!(binding, "{\"object\":{\"binding\":\"cats_name\"}}");
    for text in [field, binding] {
        let value: serde_json::Value = serde_json::from_str(&text).unwrap();
        let object = value["object"].as_object().unwrap();
        assert_ne!(object.contains_key("field"), object.contains_key("binding"));
        assert_eq!(object.len(), 1);
    }
}

#[test]
fn a_value_has_a_field_or_a_binding_and_reverse_is_false_until_set() {
    let field = IndexValue::field(vec!["data", "name"]);
    assert_eq!(
        field.to_expr().to_json(),
        "{\"object\":{\"field\":[\"data\",\"name\"],\"reverse\":false}}"
    );
    let mut binding = IndexValue::binding("cats_age");
    assert_eq!(
        binding.to_expr().to_json(),
        "{\"object\":{\"binding\":\"cats_age\",\"reverse\":false}}"
    );
    binding.reverse();
    assert_eq!(
        binding.to_expr().to_json(),
        "{\"object\":{\"binding\":\"cats_age\",\"reverse\":true}}"
    );
    for text in [field.to_expr().to_json(), binding.to_expr().to_json()] {
        let value: serde_json::Value = serde_json::from_str(&text).unwrap();
        let object = value["object"].as_object().unwrap();
        assert_ne!(object.contains_key("field"), object.contains_key("binding"));
        assert!(object.contains_key("reverse"));
        assert_eq!(object.len(), 2);
    }
}

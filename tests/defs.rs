use pg_query::defs::{
    decode_enum_defs, decode_struct_defs, DecodeError, Enum, Field, Json, Struct, Variant,
};

fn s(v: &str) -> Json {
    Json::Str(v.to_string())
}

fn obj(entries: Vec<(&str, Json)>) -> Json {
    Json::Object(entries.into_iter().map(|(k, v)| (k.to_string(), v)).collect())
}

#[test]
fn field_with_all_keys() {
    let f = Field::deserialize(&obj(vec![
        ("name", s("targetList")),
        ("c_type", s("List*")),
        ("comment", s("/* target list */")),
    ]))
    .unwrap();
    assert_eq!(f.name.as_deref(), Some("targetList"));
    assert_eq!(f.c_type.as_deref(), Some("List*"));
    assert_eq!(f.comment.as_deref(), Some("/* target list */"));
}

#[test]
fn field_keys_are_optional_and_null_is_absent() {
    let f = Field::deserialize(&obj(vec![("comment", Json::Null), ("c_type", s("int"))])).unwrap();
    assert_eq!(f.name, None);
    assert_eq!(f.c_type.as_deref(), Some("int"));
    assert_eq!(f.comment, None);
}

#[test]
fn field_later_key_replaces_earlier() {
    let f = Field::deserialize(&obj(vec![("name", s("a")), ("name", s("b"))])).unwrap();
    assert_eq!(f.name.as_deref(), Some("b"));
}

#[test]
fn field_errors() {
    let e = Field::deserialize(&obj(vec![("name", s("a")), ("kind", s("x"))])).unwrap_err();
    assert!(matches!(e, DecodeError::UnknownField(k) if k == "kind"));
    let e = Field::deserialize(&obj(vec![("name", Json::Number("3".to_string()))])).unwrap_err();
    assert!(matches!(e, DecodeError::InvalidType));
    let e = Field::deserialize(&s("name")).unwrap_err();
    assert!(matches!(e, DecodeError::InvalidType));
}

#[test]
fn struct_needs_fields() {
    let st = Struct::deserialize(&obj(vec![(
        "fields",
        Json::Array(vec![
            obj(vec![("name", s("xpr")), ("c_type", s("Expr"))]),
            obj(vec![("comment", s("/* spacer */"))]),
        ]),
    )]))
    .unwrap();
    assert_eq!(st.fields.len(), 2);
    assert_eq!(st.fields[0].name.as_deref(), Some("xpr"));
    assert_eq!(st.fields[1].comment.as_deref(), Some("/* spacer */"));
    assert_eq!(st.comment, None);

    let e = Struct::deserialize(&obj(vec![("comment", s("c"))])).unwrap_err();
    assert!(matches!(e, DecodeError::MissingField(k) if k == "fields"));
    let e = Struct::deserialize(&obj(vec![("fields", Json::Null)])).unwrap_err();
    assert!(matches!(e, DecodeError::InvalidType));
    let e = Struct::deserialize(&obj(vec![("fields", Json::Array(vec![Json::Bool(true)]))])).unwrap_err();
    assert!(matches!(e, DecodeError::InvalidType));
    let e = Struct::deserialize(&obj(vec![("values", Json::Array(vec![]))])).unwrap_err();
    assert!(matches!(e, DecodeError::UnknownField(k) if k == "values"));
}

#[test]
fn variant_and_enum() {
    let v = Variant::deserialize(&obj(vec![("name", s("CMD_SELECT")), ("comment", Json::Null)])).unwrap();
    assert_eq!(v.name.as_deref(), Some("CMD_SELECT"));
    assert_eq!(v.comment, None);
    let e = Variant::deserialize(&obj(vec![("value", s("1"))])).unwrap_err();
    assert!(matches!(e, DecodeError::UnknownField(k) if k == "value"));

    let en = Enum::deserialize(&obj(vec![
        ("comment", s("/* command type */")),
        ("values", Json::Array(vec![obj(vec![("name", s("CMD_UNKNOWN"))]), obj(vec![("name", s("CMD_SELECT"))])])),
    ]))
    .unwrap();
    assert_eq!(en.values.len(), 2);
    assert_eq!(en.values[1].name.as_deref(), Some("CMD_SELECT"));
    assert_eq!(en.comment.as_deref(), Some("/* command type */"));
    let e = Enum::deserialize(&obj(vec![])).unwrap_err();
    assert!(matches!(e, DecodeError::MissingField(k) if k == "values"));
}

#[test]
fn grouped_definitions_keep_order() {
    let defs = decode_struct_defs(&obj(vec![
        ("nodes/primnodes", obj(vec![("Alias", obj(vec![("fields", Json::Array(vec![]))]))])),
        (
            "nodes/parsenodes",
            obj(vec![
                ("Query", obj(vec![("fields", Json::Array(vec![]))])),
                ("SelectStmt", obj(vec![("fields", Json::Array(vec![]))])),
            ]),
        ),
    ]))
    .unwrap();
    assert_eq!(defs.len(), 2);
    assert_eq!(defs[1].0, "nodes/parsenodes");
    assert_eq!(defs[1].1[0].0, "Query");
    assert_eq!(defs[1].1[1].0, "SelectStmt");

    let e = decode_struct_defs(&obj(vec![("g", obj(vec![("A", obj(vec![]))]))])).unwrap_err();
    assert!(matches!(e, DecodeError::MissingField(k) if k == "fields"));
    let e = decode_struct_defs(&Json::Array(vec![])).unwrap_err();
    assert!(matches!(e, DecodeError::InvalidType));

    let enums = decode_enum_defs(&obj(vec![(
        "nodes/nodes",
        obj(vec![("CmdType", obj(vec![("values", Json::Array(vec![obj(vec![("name", s("CMD_SELECT"))])]))]))]),
    )]))
    .unwrap();
    assert_eq!(enums[0].1[0].0, "CmdType");
    assert_eq!(enums[0].1[0].1.values[0].name.as_deref(), Some("CMD_SELECT"));
}

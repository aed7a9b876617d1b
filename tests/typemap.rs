use pg_query::text::str_eq;
use pg_query::typemap::c_to_rust_type;

#[test]
fn maps_pointer_types() {
    assert_eq!(c_to_rust_type("Node*"), Some("Box<Node>"));
    assert_eq!(c_to_rust_type("List*"), Some("Vec<Node>"));
    assert_eq!(c_to_rust_type("char*"), Some("String"));
    assert_eq!(c_to_rust_type("RangeVar*"), Some("RangeVar"));
    assert_eq!(c_to_rust_type("SelectStmt*"), Some("Box<Node>"));
}

#[test]
fn maps_scalar_types() {
    assert_eq!(c_to_rust_type("uint32"), Some("u32"));
    assert_eq!(c_to_rust_type("int"), Some("i32"));
    assert_eq!(c_to_rust_type("int16"), Some("i16"));
    assert_eq!(c_to_rust_type("char"), Some("u8"));
    assert_eq!(c_to_rust_type("bool"), Some("bool"));
    assert_eq!(c_to_rust_type("CmdType"), Some("CmdType"));
    assert_eq!(c_to_rust_type("CreateStmt"), Some("Box<Node>"));
}

#[test]
fn refuses_unknown_types() {
    assert_eq!(c_to_rust_type("float"), None);
    assert_eq!(c_to_rust_type(""), None);
    assert_eq!(c_to_rust_type("Node"), None);
    assert_eq!(c_to_rust_type("int32*"), None);
}

#[test]
fn compares_strings_by_character() {
    assert!(str_eq("abc", "abc"));
    assert!(str_eq("", ""));
    assert!(!str_eq("abc", "abd"));
    assert!(!str_eq("abc", "ab"));
    assert!(str_eq("é", "é"));
}

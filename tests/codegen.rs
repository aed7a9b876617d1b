use pg_query::codegen::{make_node, GenError};
use pg_query::defs::{Field, Struct, StructDefs};

fn field(name: Option<&str>, c_type: Option<&str>) -> Field {
    Field { name: name.map(|n| n.to_string()), c_type: c_type.map(|t| t.to_string()), comment: None }
}

fn defs(group: &str, structs: Vec<(&str, Vec<Field>)>) -> StructDefs {
    vec![(
        group.to_string(),
        structs.into_iter().map(|(n, fields)| (n.to_string(), Struct { fields, comment: None })).collect(),
    )]
}

#[test]
fn generates_one_case_per_struct() {
    let d = defs(
        "nodes/parsenodes",
        vec![
            (
                "SelectStmt",
                vec![
                    field(Some("type"), Some("NodeTag")),
                    field(Some("targetList"), Some("List*")),
                    field(None, Some("int")),
                    field(Some("limitCount"), None),
                    field(Some("all"), Some("bool")),
                ],
            ),
            ("A_Star", vec![]),
        ],
    );
    let out = make_node(&d).unwrap();
    assert_eq!(
        out,
        "pub enum Node {\n    SelectStmt {\n        targetList: Vec<Node>,\n        all: bool,\n    },\n    A_Star {\n    },\n}\n"
    );
}

#[test]
fn empty_group_gives_empty_enum() {
    let out = make_node(&defs("nodes/parsenodes", vec![])).unwrap();
    assert_eq!(out, "pub enum Node {\n}\n");
}

#[test]
fn uses_the_parse_node_group_only() {
    let mut d = defs("nodes/primnodes", vec![("Alias", vec![field(Some("x"), Some("float"))])]);
    d.extend(defs("nodes/parsenodes", vec![("Query", vec![field(Some("canSetTag"), Some("bool"))])]));
    let out = make_node(&d).unwrap();
    assert_eq!(out, "pub enum Node {\n    Query {\n        canSetTag: bool,\n    },\n}\n");
}

#[test]
fn unknown_type_fails() {
    let d = defs("nodes/parsenodes", vec![("A", vec![field(Some("ok"), Some("int")), field(Some("x"), Some("float"))])]);
    let err = make_node(&d).unwrap_err();
    assert!(matches!(err, GenError::UnknownType(t) if t == "float"));
}

#[test]
fn missing_group_fails() {
    let d = defs("nodes/primnodes", vec![]);
    let err = make_node(&d).unwrap_err();
    assert!(matches!(err, GenError::MissingGroup(g) if g == "nodes/parsenodes"));
}

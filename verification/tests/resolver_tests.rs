use jsdoc_typegen::resolver::{
    generate_typedef, get_enum_type, get_item_type, get_prop_type, resolve, ResolveError,
};
use jsdoc_typegen::schema::{
    EnumLiteral, PrimitiveKind, Property, SchemaCollection, SchemaNode, ShapeKind,
};

fn prim(kind: PrimitiveKind) -> SchemaNode {
    SchemaNode::Item(ShapeKind::Primitive(kind, vec![]), Some(vec![]))
}

fn empty_collection() -> SchemaCollection {
    SchemaCollection::new()
}

fn collection_with(names: &[&str]) -> SchemaCollection {
    let mut coll = SchemaCollection::new();
    for name in names {
        coll.insert(
            String::from(*name),
            SchemaNode::Item(ShapeKind::ObjectType(vec![]), Some(vec![])),
        );
    }
    coll
}

#[test]
fn primitive_mapping_is_canonical() {
    let coll = empty_collection();
    assert_eq!(resolve(&prim(PrimitiveKind::Str), &coll).unwrap(), "string");
    assert_eq!(resolve(&prim(PrimitiveKind::Num), &coll).unwrap(), "number");
    assert_eq!(resolve(&prim(PrimitiveKind::Integer), &coll).unwrap(), "number");
    assert_eq!(resolve(&prim(PrimitiveKind::Boolean), &coll).unwrap(), "boolean");
}

#[test]
fn enumeration_takes_precedence_over_kind() {
    let coll = empty_collection();
    let enums = vec![
        EnumLiteral::Text(String::from("a")),
        EnumLiteral::Text(String::from("b")),
    ];
    let node = SchemaNode::Item(ShapeKind::Primitive(PrimitiveKind::Str, enums), Some(vec![]));
    assert_eq!(resolve(&node, &coll).unwrap(), "\"a\" | \"b\"");

    let enums = vec![
        EnumLiteral::Text(String::from("a")),
        EnumLiteral::Text(String::from("b")),
    ];
    let node = SchemaNode::Item(ShapeKind::Primitive(PrimitiveKind::Boolean, enums), None);
    assert_eq!(resolve(&node, &coll).unwrap(), "\"a\" | \"b\"");
}

#[test]
fn numeric_enumeration_renders_verbatim() {
    let coll = empty_collection();
    let enums = vec![
        EnumLiteral::Numeric(String::from("1")),
        EnumLiteral::Numeric(String::from("2.5")),
    ];
    let node = SchemaNode::Item(ShapeKind::Primitive(PrimitiveKind::Num, enums), None);
    assert_eq!(resolve(&node, &coll).unwrap(), "1 | 2.5");
}

#[test]
fn empty_numeric_literals_are_dropped() {
    let coll = empty_collection();
    let enums = vec![
        EnumLiteral::Numeric(String::new()),
        EnumLiteral::Numeric(String::from("5")),
    ];
    let node = SchemaNode::Item(ShapeKind::Primitive(PrimitiveKind::Num, enums), None);
    assert_eq!(resolve(&node, &coll).unwrap(), "5");
}

#[test]
fn all_empty_numeric_literals_fall_back_to_canonical() {
    let coll = empty_collection();
    let enums = vec![EnumLiteral::Numeric(String::new())];
    let node = SchemaNode::Item(ShapeKind::Primitive(PrimitiveKind::Num, enums), None);
    assert_eq!(resolve(&node, &coll).unwrap(), "number");
}

#[test]
fn get_enum_type_joins_with_infix_pipe() {
    assert_eq!(get_enum_type(&vec![]), None);
    let rendered = vec![String::from("\"a\""), String::from("\"b\"")];
    assert_eq!(get_enum_type(&rendered).unwrap(), "\"a\" | \"b\"");
    let one = vec![String::from("\"x\"")];
    assert_eq!(get_enum_type(&one).unwrap(), "\"x\"");
}

#[test]
fn array_of_reference_keeps_the_name() {
    let coll = collection_with(&["Widget"]);
    let node = SchemaNode::Item(
        ShapeKind::ArrayType(Box::new(SchemaNode::Reference(String::from("Widget")))),
        None,
    );
    assert_eq!(resolve(&node, &coll).unwrap(), "Widget[]");
}

#[test]
fn array_of_primitive_uses_canonical_suffix() {
    let coll = empty_collection();
    let node = SchemaNode::Item(
        ShapeKind::ArrayType(Box::new(prim(PrimitiveKind::Str))),
        None,
    );
    assert_eq!(resolve(&node, &coll).unwrap(), "string[]");
    let node = SchemaNode::Item(
        ShapeKind::ArrayType(Box::new(prim(PrimitiveKind::Integer))),
        None,
    );
    assert_eq!(resolve(&node, &coll).unwrap(), "number[]");
    let node = SchemaNode::Item(
        ShapeKind::ArrayType(Box::new(SchemaNode::Item(
            ShapeKind::ObjectType(vec![]),
            None,
        ))),
        None,
    );
    assert_eq!(resolve(&node, &coll).unwrap(), "Object[]");
}

#[test]
fn array_of_undeclared_reference_fails() {
    let coll = empty_collection();
    let node = SchemaNode::Item(
        ShapeKind::ArrayType(Box::new(SchemaNode::Reference(String::from("Ghostly")))),
        None,
    );
    assert_eq!(resolve(&node, &coll), Err(ResolveError::UndeclaredReference));
}

#[test]
fn union_and_intersection_tie_break() {
    let coll = collection_with(&["A", "B", "C"]);
    let members = || {
        vec![
            SchemaNode::Reference(String::from("A")),
            SchemaNode::Reference(String::from("B")),
            SchemaNode::Reference(String::from("C")),
        ]
    };
    let node = SchemaNode::Item(ShapeKind::Union(members()), None);
    assert_eq!(resolve(&node, &coll).unwrap(), "A | B | C");
    let node = SchemaNode::Item(ShapeKind::Intersection(members()), None);
    assert_eq!(resolve(&node, &coll).unwrap(), "A & B & C");
}

#[test]
fn union_member_shapes_degrade_to_object() {
    let coll = collection_with(&["A"]);
    let members = vec![
        SchemaNode::Reference(String::from("A")),
        SchemaNode::Item(ShapeKind::ObjectType(vec![]), None),
        prim(PrimitiveKind::Boolean),
    ];
    let node = SchemaNode::Item(ShapeKind::Union(members), None);
    assert_eq!(resolve(&node, &coll).unwrap(), "A | Object | boolean");
}

#[test]
fn get_item_type_is_restricted() {
    let coll = collection_with(&["A"]);
    let reference = SchemaNode::Reference(String::from("A"));
    assert_eq!(get_item_type(&reference, &coll).unwrap(), "A");
    let nested_array = SchemaNode::Item(
        ShapeKind::ArrayType(Box::new(prim(PrimitiveKind::Str))),
        None,
    );
    assert_eq!(get_item_type(&nested_array, &coll).unwrap(), "Object");
}

#[test]
fn get_prop_type_object_marker() {
    let coll = empty_collection();
    assert_eq!(
        get_prop_type(&ShapeKind::ObjectType(vec![]), &coll).unwrap(),
        "Object"
    );
}

#[test]
fn unsupported_degrades_without_failing() {
    let coll = empty_collection();
    let node = SchemaNode::Item(ShapeKind::Unsupported, None);
    assert_eq!(resolve(&node, &coll).unwrap(), "Object");
}

#[test]
fn undeclared_reference_fails() {
    let coll = collection_with(&["Known"]);
    let node = SchemaNode::Reference(String::from("Unknown"));
    assert_eq!(resolve(&node, &coll), Err(ResolveError::UndeclaredReference));
    let node = SchemaNode::Reference(String::from("Known"));
    assert_eq!(resolve(&node, &coll).unwrap(), "Known");
}

#[test]
fn generate_typedef_meeting_block() {
    let mut coll = SchemaCollection::new();
    let props = vec![
        Property {
            name: String::from("name"),
            node: prim(PrimitiveKind::Str),
        },
        Property {
            name: String::from("date"),
            node: prim(PrimitiveKind::Str),
        },
    ];
    coll.insert(
        String::from("Meeting"),
        SchemaNode::Item(
            ShapeKind::ObjectType(props),
            Some(vec![String::from("name"), String::from("date")]),
        ),
    );
    let block = generate_typedef(&coll, "Meeting").unwrap();
    let expected = "/**\n * @typedef {Object} Meeting\n * @property {string} name\n * @property {string} date\n */\n";
    assert_eq!(block, expected);
}

#[test]
fn generate_typedef_marks_optional_properties() {
    let mut coll = SchemaCollection::new();
    let props = vec![
        Property {
            name: String::from("id"),
            node: prim(PrimitiveKind::Num),
        },
        Property {
            name: String::from("note"),
            node: prim(PrimitiveKind::Str),
        },
    ];
    coll.insert(
        String::from("Record"),
        SchemaNode::Item(ShapeKind::ObjectType(props), Some(vec![String::from("id")])),
    );
    let block = generate_typedef(&coll, "Record").unwrap();
    let expected =
        "/**\n * @typedef {Object} Record\n * @property {number} id\n * @property {string} [note]\n */\n";
    assert_eq!(block, expected);
}

#[test]
fn generate_typedef_without_properties_has_no_property_lines() {
    let mut coll = SchemaCollection::new();
    coll.insert(
        String::from("Empty"),
        SchemaNode::Item(ShapeKind::ObjectType(vec![]), None),
    );
    let block = generate_typedef(&coll, "Empty").unwrap();
    assert_eq!(block, "/**\n * @typedef {Object} Empty\n */\n");
}

#[test]
fn generate_typedef_fails_on_undeclared_reference() {
    let mut coll = SchemaCollection::new();
    let props = vec![Property {
        name: String::from("part"),
        node: SchemaNode::Reference(String::from("Nowhere")),
    }];
    coll.insert(
        String::from("Whole"),
        SchemaNode::Item(ShapeKind::ObjectType(props), Some(vec![])),
    );
    assert_eq!(
        generate_typedef(&coll, "Whole"),
        Err(ResolveError::UndeclaredReference)
    );
}

#[test]
fn generate_typedef_fails_on_missing_required_set() {
    let mut coll = SchemaCollection::new();
    let props = vec![Property {
        name: String::from("id"),
        node: prim(PrimitiveKind::Num),
    }];
    coll.insert(
        String::from("Loose"),
        SchemaNode::Item(ShapeKind::ObjectType(props), None),
    );
    assert_eq!(
        generate_typedef(&coll, "Loose"),
        Err(ResolveError::MissingRequiredSet)
    );
}

#[test]
fn collection_lookup_finds_declared_names() {
    let coll = collection_with(&["A", "B"]);
    assert!(coll.contains("A"));
    assert!(coll.contains("B"));
    assert!(!coll.contains("C"));
    assert!(coll.get("A").is_some());
    assert!(coll.get("C").is_none());
}

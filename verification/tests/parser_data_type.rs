use schema_compiler::ast::DataType;
use schema_compiler::ast::UserDefinedType;
use schema_compiler::parser::data_type::parse_primitive;
use schema_compiler::parser::data_type::parse_type;

#[test]
fn data_type_test_parse_type() {
    assert_eq!(parse_type(b"bool", 0), Some((DataType::Bool, 4)));
    assert_eq!(parse_type(b"uint32", 0), Some((DataType::Uint32, 6)));
    assert_eq!(parse_type(b"uint64", 0), Some((DataType::Uint64, 6)));
    assert_eq!(parse_type(b"int32", 0), Some((DataType::Int32, 5)));
    assert_eq!(parse_type(b"int64", 0), Some((DataType::Int64, 5)));
    assert_eq!(parse_type(b"sint32", 0), Some((DataType::SInt32, 6)));
    assert_eq!(parse_type(b"sint64", 0), Some((DataType::SInt64, 6)));
    assert_eq!(parse_type(b"fixed32", 0), Some((DataType::Fixed32, 7)));
    assert_eq!(parse_type(b"fixed64", 0), Some((DataType::Fixed64, 7)));
    assert_eq!(parse_type(b"sfixed32", 0), Some((DataType::SFixed32, 8)));
    assert_eq!(parse_type(b"sfixed64", 0), Some((DataType::SFixed64, 8)));
    assert_eq!(parse_type(b"float", 0), Some((DataType::Float, 5)));
    assert_eq!(parse_type(b"double", 0), Some((DataType::Double, 6)));
    assert_eq!(parse_type(b"string", 0), Some((DataType::String, 6)));
    assert_eq!(parse_type(b"bytes", 0), Some((DataType::Bytes, 5)));
    assert_eq!(parse_type(b"EntityId", 0), Some((DataType::EntityID, 8)));
    assert_eq!(parse_type(b"Entity", 0), Some((DataType::Entity, 6)));
    assert_eq!(
        parse_type(b"CustomComponent", 0),
        Some((
            DataType::UserDefined(UserDefinedType::Unresolved("CustomComponent".to_string())),
            15
        ))
    );
    assert_eq!(
        parse_type(b"map<float, bool>", 0),
        Some((
            DataType::Mapping(Box::new(DataType::Float), Box::new(DataType::Bool)),
            16
        ))
    );
    assert_eq!(
        parse_type(b"option<bool>", 0),
        Some((DataType::Option(Box::new(DataType::Bool)), 12))
    );
    assert_eq!(
        parse_type(b"list<bool>", 0),
        Some((DataType::List(Box::new(DataType::Bool)), 10))
    );
    assert!(parse_primitive(b"customComponent", 0).is_none());
}

#[test]
fn test_lowercase_type_rejected() {
    // a lowercase-leading token in type position is a parse failure
    assert!(parse_type(b"customComponent", 0).is_none());
}

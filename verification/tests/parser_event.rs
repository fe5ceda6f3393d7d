use schema_compiler::ast::DataType;
use schema_compiler::ast::Event;
use schema_compiler::parser::event::parse_event;

#[test]
fn test_parse_event() {
    assert_eq!(
        parse_event(b"event uint32 count_rabbits", 0),
        Some((
            Event {
                name: "count_rabbits".to_string(),
                r_type: DataType::Uint32
            },
            26
        ))
    );
}

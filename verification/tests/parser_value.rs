use schema_compiler::ast::Value;
use schema_compiler::parser::value::parse_value;

#[test]
fn value_test_parse_value() {
    assert_eq!(
        parse_value(b"RABBITS_COUNTER = 1", 0),
        Some((
            Value {
                comments: Vec::new(),
                name: "RABBITS_COUNTER".to_string(),
                id: 1
            },
            19
        ))
    );
    let input: &[u8] = b"// This action is a rabbit counter\nRABBITS_COUNTER = 1";
    assert_eq!(
        parse_value(input, 0),
        Some((
            Value {
                comments: vec![" This action is a rabbit counter".to_string()],
                name: "RABBITS_COUNTER".to_string(),
                id: 1
            },
            input.len()
        ))
    );
}

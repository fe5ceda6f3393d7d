use schema_compiler::ast::Variant;
use schema_compiler::parser::variant::parse_variant;

#[test]
fn variant_test_parse_value() {
    assert_eq!(
        parse_variant(b"RABBITS_COUNTER = 1", 0),
        Some((
            Variant {
                comments: Vec::new(),
                name: "RABBITS_COUNTER".to_string(),
                id: 1
            },
            19
        ))
    );
    let input: &[u8] = b"// This action is a rabbit counter\nRABBITS_COUNTER = 1";
    assert_eq!(
        parse_variant(input, 0),
        Some((
            Variant {
                comments: vec![" This action is a rabbit counter".to_string()],
                name: "RABBITS_COUNTER".to_string(),
                id: 1
            },
            input.len()
        ))
    );
}

use schema_compiler::ast::DataType;
use schema_compiler::ast::Member;
use schema_compiler::parser::member::parse_member;

#[test]
fn test_parse_member() {
    assert_eq!(
        parse_member(b"uint32 rabbits = 1", 0),
        Some((
            Member {
                comments: Vec::new(),
                name: "rabbits".to_string(),
                m_type: DataType::Uint32,
                id: 1
            },
            18
        ))
    );
    let input: &[u8] = b"// This is the number of rabbits\nuint32 rabbits = 1";
    assert_eq!(
        parse_member(input, 0),
        Some((
            Member {
                comments: vec![" This is the number of rabbits".to_string()],
                name: "rabbits".to_string(),
                m_type: DataType::Uint32,
                id: 1
            },
            input.len()
        ))
    );
}

use schema_compiler::ast::Enum;
use schema_compiler::ast::Variant;
use schema_compiler::parser::enum_decl::parse_enum;

#[test]
fn test_parse_enum() {
    let input: &[u8] = b"enum AnimalCounter {\n\tRABBITS_COUNTER = 1 ;\n\tPLATYPUS_COUNTER = 2;\n}";
    let (e, pos) = parse_enum(input, 0).unwrap();
    assert_eq!(pos, input.len());
    assert_eq!(
        e,
        Enum {
            comments: Vec::new(),
            name: "AnimalCounter".to_string(),
            variants: vec![
                Variant {
                    name: "RABBITS_COUNTER".to_owned(),
                    id: 1,
                    comments: vec![]
                },
                Variant {
                    name: "PLATYPUS_COUNTER".to_owned(),
                    id: 2,
                    comments: vec![]
                },
            ]
        }
    );
    let input: &[u8] = b"// This is used to count animals\nenum AnimalCounter {\n\t// This is used to count rabbits\n\tRABBITS_COUNTER = 1;\n\t// This is used to count platypus\n\tPLATYPUS_COUNTER = 2 ;\n}";
    let (e, pos) = parse_enum(input, 0).unwrap();
    assert_eq!(pos, input.len());
    assert_eq!(
        e,
        Enum {
            comments: vec![" This is used to count animals".to_owned()],
            name: "AnimalCounter".to_string(),
            variants: vec![
                Variant {
                    name: "RABBITS_COUNTER".to_owned(),
                    id: 1,
                    comments: vec![" This is used to count rabbits".to_owned()]
                },
                Variant {
                    name: "PLATYPUS_COUNTER".to_owned(),
                    id: 2,
                    comments: vec![" This is used to count platypus".to_owned()]
                },
            ]
        }
    );
}

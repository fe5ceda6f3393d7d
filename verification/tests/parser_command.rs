use schema_compiler::ast::Command;
use schema_compiler::ast::DataType;
use schema_compiler::parser::command::parse_command;

#[test]
fn test_parse_command() {
    // a command carries at least one argument, so an empty list fails
    assert!(parse_command(b"command uint32 count_rabbits()", 0).is_none());
    let input: &[u8] = b"command uint32 count_rabbits(bool)";
    assert_eq!(
        parse_command(input, 0),
        Some((
            Command {
                name: "count_rabbits".to_string(),
                args: vec![DataType::Bool],
                r_type: DataType::Uint32
            },
            input.len()
        ))
    );
}

use schema_compiler::parser::utils::camel_case_component;
use schema_compiler::parser::utils::parse_comment;
use schema_compiler::parser::utils::parse_comments;
use schema_compiler::parser::utils::parse_u32;
use schema_compiler::parser::utils::parse_usize;
use schema_compiler::parser::utils::snake_case;
use schema_compiler::parser::utils::upper_snake_case;
use schema_compiler::parser::utils::ws0;

#[test]
fn test_camel_case_component() {
    assert_eq!(camel_case_component(b"CamelCase", 0), Some(("Camel".to_string(), 5)));
}

#[test]
fn test_camel_case_component_end() {
    assert_eq!(camel_case_component(b"Camel", 0), Some(("Camel".to_string(), 5)));
}

#[test]
fn test_snake_case_tokens() {
    assert_eq!(snake_case(b"count_rabbits ", 0), Some(("count_rabbits".to_string(), 13)));
    assert_eq!(snake_case(b"a_", 0), Some(("a".to_string(), 1)));
    assert!(snake_case(b"_a", 0).is_none());
    assert_eq!(upper_snake_case(b"RABBITS_COUNTER = 1", 0), Some(("RABBITS_COUNTER".to_string(), 15)));
    assert!(upper_snake_case(b"rabbits", 0).is_none());
}

#[test]
fn test_numbers() {
    assert_eq!(parse_u32(b"601;", 0), Some((601, 3)));
    assert_eq!(parse_u32(b"4294967295", 0), Some((4294967295, 10)));
    // one past the largest 32-bit value fails the parse
    assert!(parse_u32(b"4294967296", 0).is_none());
    assert!(parse_u32(b"abc", 0).is_none());
    assert_eq!(parse_usize(b"0007", 0), Some((7, 4)));
}

#[test]
fn test_whitespace() {
    assert_eq!(ws0(b"  \t\n x", 0), 5);
    assert_eq!(ws0(b"x", 0), 0);
}

#[test]
fn test_comments() {
    let r = parse_comment(b"// hello\nrest", 0).unwrap();
    assert_eq!(r.0, Some(" hello".to_string()));
    assert_eq!(r.1, 8);
    // an empty comment consumes its slashes but captures nothing
    let r = parse_comment(b"//\nx", 0).unwrap();
    assert_eq!(r.0, None);
    // a comment ending the input fails
    assert!(parse_comment(b"//", 0).is_none());
    // quotes are escaped when comments are collected
    let (cs, p) = parse_comments(b"// say \"hi\"\nnext", 0);
    assert_eq!(cs, vec![" say \\\"hi\\\"".to_string()]);
    assert_eq!(p, 12);
    // unrelated content breaks attachment and consumes nothing
    let (cs, p) = parse_comments(b"  plain", 0);
    assert!(cs.is_empty());
    assert_eq!(p, 0);
}

#[test]
fn test_invalid_utf8_comment_fails() {
    // comment text that is not valid UTF-8 fails the comment parse
    let mut input: Vec<u8> = b"// bad ".to_vec();
    input.push(0xff);
    input.push(b'\n');
    assert!(parse_comment(&input, 0).is_none());
}

#[test]
fn test_blank_line_breaks_attachment() {
    // a blank line between the comment and the declaration discards it
    let (cs, p) = parse_comments(b"// c\n\nuint32 x = 1", 0);
    assert!(cs.is_empty());
    assert_eq!(p, 6);
    // a blank line inside a run keeps only the contiguous tail
    let (cs, _) = parse_comments(b"// a\n\n// b\nuint32 x = 1", 0);
    assert_eq!(cs, vec![" b".to_string()]);
    // without a blank line the whole run attaches, in order
    let (cs, _) = parse_comments(b"// a\n// b\nuint32 x = 1", 0);
    assert_eq!(cs, vec![" a".to_string(), " b".to_string()]);
    // carriage-return line endings count the same way
    let (cs, _) = parse_comments(b"// a\r\n\r\n// b\r\nuint32 x = 1", 0);
    assert_eq!(cs, vec![" b".to_string()]);
}

use schema_compiler::parser::package_name::parse_package_name;

#[test]
fn test_parse_package_name() {
    let input: &[u8] = b"package io.nebulis;";
    assert_eq!(
        parse_package_name(input, 0),
        Some((vec!["io".to_string(), "nebulis".to_string()], input.len()))
    );
}

use schema_compiler::ast::ASTNode;
use schema_compiler::ast::DataType;
use schema_compiler::ast::Member;
use schema_compiler::ast::PackageNode;
use schema_compiler::ast::SchemaFile;
use schema_compiler::ast::Type;
use schema_compiler::ast::UserDefinedType;
use schema_compiler::ast::Variant;
use schema_compiler::codegen::to_upper_camel_case;
use schema_compiler::codegen::u32_to_string;
use schema_compiler::codegen::usize_to_string;
use schema_compiler::codegen::Header;
use schema_compiler::kind::ResolvedTypeKind;
use schema_compiler::text::escape_quotes;

#[test]
fn test_numbers_render() {
    assert_eq!(u32_to_string(0), "0");
    assert_eq!(u32_to_string(601), "601");
    assert_eq!(u32_to_string(4294967295), "4294967295");
    assert_eq!(usize_to_string(54), "54");
}

#[test]
fn test_upper_camel_case() {
    assert_eq!(to_upper_camel_case("count_platypus"), "CountPlatypus");
    assert_eq!(to_upper_camel_case("damage"), "Damage");
    assert_eq!(to_upper_camel_case("A_B"), "AB");
}

#[test]
fn test_escape_quotes() {
    assert_eq!(escape_quotes("say \"hi\""), "say \\\"hi\\\"");
    assert_eq!(escape_quotes("plain"), "plain");
}

#[test]
fn test_rust_type_table() {
    assert_eq!(DataType::Bool.rust_type(), "bool");
    assert_eq!(DataType::Uint32.rust_type(), "u32");
    assert_eq!(DataType::Bytes.rust_type(), "Vec<u8>");
    assert_eq!(
        DataType::Mapping(Box::new(DataType::Uint32), Box::new(DataType::String)).rust_type(),
        "HashMap<u32, String>"
    );
    assert_eq!(
        DataType::List(Box::new(DataType::Bool)).rust_type(),
        "Vec<bool>"
    );
    assert_eq!(
        DataType::Option(Box::new(DataType::Double)).rust_type(),
        "Option<f64>"
    );
    assert_eq!(DataType::Entity.rust_type(), "uninmplemented()!");
    assert_eq!(
        DataType::UserDefined(UserDefinedType::Unresolved("Damage".to_owned())).rust_type(),
        "Damage"
    );
}

#[test]
fn test_spatial_type_table() {
    assert_eq!(DataType::Uint32.spatial_type(), "uint32");
    assert_eq!(
        DataType::Mapping(Box::new(DataType::Float), Box::new(DataType::Bool)).spatial_type(),
        "map<float,bool>"
    );
    assert_eq!(
        DataType::UserDefined(UserDefinedType::Resolved(
            "crate::gen::Damage".to_owned(),
            ResolvedTypeKind::Type
        ))
        .spatial_type(),
        "type"
    );
    assert_eq!(
        DataType::UserDefined(UserDefinedType::Resolved(
            "crate::gen::LifeState".to_owned(),
            ResolvedTypeKind::Enum
        ))
        .spatial_type(),
        "enum"
    );
}

#[test]
fn test_member_generation() {
    let m = Member {
        name: "hp".to_owned(),
        m_type: DataType::Uint32,
        id: 1,
        comments: vec![" health points".to_owned()],
    };
    assert_eq!(
        m.generate_one(),
        "#[doc = \" health points\"]\n#[field_id(1)]\n#[spatial_type(uint32)]\nhp: u32"
    );
}

#[test]
fn test_variant_generation() {
    let v = Variant {
        name: "RABBITS_COUNTER".to_owned(),
        id: 1,
        comments: vec![],
    };
    assert_eq!(v.generate_one(), "#[value(1)]\nRabbitsCounter");
}

#[test]
fn test_mod_rs_generation() {
    let nodes = vec![
        ASTNode::PackageNode(PackageNode {
            name: "nebulis".to_owned(),
            inner: vec![],
        }),
        ASTNode::SchemaNode(SchemaFile {
            package_name: vec!["io".to_owned()],
            name: "player".to_owned(),
            types: vec![Type {
                name: "Damage".to_owned(),
                members: vec![],
                comments: vec![],
                types: vec![],
                enums: vec![],
            }],
            enums: vec![],
            components: vec![],
        }),
    ];
    assert_eq!(
        ASTNode::generate_mod_rs(&nodes),
        "pub mod nebulis;\nmod player;\npub use player::Damage;\n"
    );
}

#[test]
fn test_header() {
    assert!(Header::generate().contains("use std::collections::HashMap;"));
}

#[test]
fn test_standard_library() {
    let ast = schema_compiler::standard_library::generate_standard_library();
    assert_eq!(ast.inner.len(), 1);
    match &ast.inner[0] {
        ASTNode::PackageNode(p) => {
            assert_eq!(p.name, "improbable");
            assert_eq!(p.inner.len(), 2);
        }
        _ => panic!("expected a package at the root"),
    }
}

#[test]
fn test_generate_checked() {
    // a resolved schema is emitted; an unresolved one yields nothing
    let resolved = SchemaFile {
        package_name: vec!["io".to_owned()],
        name: "ok".to_owned(),
        types: vec![Type {
            name: "Damage".to_owned(),
            members: vec![Member {
                name: "points".to_owned(),
                m_type: DataType::Uint32,
                id: 1,
                comments: vec![],
            }],
            comments: vec![],
            types: vec![],
            enums: vec![],
        }],
        enums: vec![],
        components: vec![],
    };
    let text = resolved.generate_checked().unwrap();
    assert!(text.contains("pub struct Damage"));
    assert!(text.contains("#[field_id(1)]"));
    let unresolved = SchemaFile {
        package_name: vec!["io".to_owned()],
        name: "bad".to_owned(),
        types: vec![Type {
            name: "Holder".to_owned(),
            members: vec![Member {
                name: "thing".to_owned(),
                m_type: DataType::UserDefined(UserDefinedType::Unresolved("Missing".to_owned())),
                id: 1,
                comments: vec![],
            }],
            comments: vec![],
            types: vec![],
            enums: vec![],
        }],
        enums: vec![],
        components: vec![],
    };
    assert!(unresolved.generate_checked().is_none());
}

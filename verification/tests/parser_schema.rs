use schema_compiler::ast::Command;
use schema_compiler::ast::Component;
use schema_compiler::ast::DataType;
use schema_compiler::ast::Enum;
use schema_compiler::ast::Event;
use schema_compiler::ast::Member;
use schema_compiler::ast::SchemaFile;
use schema_compiler::ast::Type;
use schema_compiler::ast::UserDefinedType;
use schema_compiler::ast::Variant;
use schema_compiler::parser::schema_file::parse_schema;
use schema_compiler::parser::schema_file::SchemaFileBuilder;

const SIMPLE_COMPONENT: &str = "
        package io.nebulis.player;

        enum LifeState {
            ALIVE = 0;
            DEAD = 1;
            RESPAWNING = 2;
        }
        
        
        type IsDead { }
        
        type Damage {
            uint32 points = 1;
        }
        
        type DamageResponse {}
        
        component Health {
            id = 601;
            uint32 hp = 1;
            uint32 max_hp = 2;
        
            event IsDead is_dead;
            event Damage took_damage;
            command DamageResponse damage(Damage);
        }
    ";

#[test]
fn test_parse_schema() {
    let schema_builder = parse_schema(SIMPLE_COMPONENT.as_bytes(), 0);
    assert!(schema_builder.is_some());
    let (schema_builder, rest) = schema_builder.unwrap();
    let schema = schema_builder.with_name("test".to_owned()).build();
    assert!(schema.is_ok());
    println!("{:?}", schema);
    assert_eq!(
        schema,
        Ok(SchemaFile {
            package_name: vec!["io".to_owned(), "nebulis".to_owned(), "player".to_owned()],
            name: "test".to_owned(),
            types: vec![
                Type {
                    name: "IsDead".to_owned(),
                    members: vec![],
                    comments: vec![],
                    types: vec![],
                    enums: vec![]
                },
                Type {
                    name: "Damage".to_owned(),
                    members: vec![Member {
                        comments: vec![],
                        name: "points".to_owned(),
                        m_type: DataType::Uint32,
                        id: 1
                    }],
                    comments: vec![],
                    types: vec![],
                    enums: vec![]
                },
                Type {
                    name: "DamageResponse".to_owned(),
                    members: vec![],
                    comments: vec![],
                    types: vec![],
                    enums: vec![]
                },
            ],
            enums: vec![Enum {
                comments: vec![],
                name: "LifeState".to_owned(),
                variants: vec![
                    Variant {
                        comments: vec![],
                        name: "ALIVE".to_owned(),
                        id: 0
                    },
                    Variant {
                        comments: vec![],
                        name: "DEAD".to_owned(),
                        id: 1,
                    },
                    Variant {
                        comments: vec![],
                        name: "RESPAWNING".to_owned(),
                        id: 2,
                    }
                ]
            }],
            components: vec![Component {
                id: 601,
                name: "Health".to_owned(),
                comments: vec![],
                members: vec![
                    Member {
                        comments: vec![],
                        name: "hp".to_owned(),
                        id: 1,
                        m_type: DataType::Uint32
                    },
                    Member {
                        comments: vec![],
                        name: "max_hp".to_owned(),
                        id: 2,
                        m_type: DataType::Uint32
                    }
                ],
                events: vec![
                    Event {
                        name: "is_dead".to_owned(),
                        r_type: DataType::UserDefined(UserDefinedType::Unresolved(
                            "IsDead".to_owned()
                        ))
                    },
                    Event {
                        name: "took_damage".to_owned(),
                        r_type: DataType::UserDefined(UserDefinedType::Unresolved(
                            "Damage".to_owned()
                        ))
                    }
                ],
                commands: vec![Command {
                    name: "damage".to_owned(),
                    r_type: DataType::UserDefined(UserDefinedType::Unresolved(
                        "DamageResponse".to_owned()
                    )),
                    args: vec![DataType::UserDefined(UserDefinedType::Unresolved(
                        "Damage".to_owned()
                    ))],
                }],
                enums: vec![],
                types: vec![]
            }]
        })
    );
    assert_eq!(rest, SIMPLE_COMPONENT.len());
}

#[test]
fn test_builder_errors() {
    // a builder that never received a name fails
    let b = SchemaFileBuilder::default();
    assert_eq!(b.build(), Err("Name could not be found"));
    // one with a name but no package path fails too
    let b = SchemaFileBuilder::default().with_name("test".to_owned());
    assert_eq!(b.build(), Err("Package Name could not be found"));
}

#[test]
fn test_from_source_errors() {
    // a file without its package header fails the parse
    assert_eq!(
        SchemaFile::from_source("bad".to_owned(), b"type Foo { }"),
        Err("Unable to parse data")
    );
    // trailing garbage after the declarations is tolerated, as the grammar
    // stops at the last thing it understands
    assert!(SchemaFile::from_source("odd".to_owned(), b"package io.a; %%%").is_ok());
}

#[test]
fn test_component_without_id_fails() {
    assert!(schema_compiler::parser::component::parse_component(b"component Health { uint32 hp = 1; }", 0).is_none());
}

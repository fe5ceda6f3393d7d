use schema_compiler::ast::Command;
use schema_compiler::ast::Component;
use schema_compiler::ast::DataType;
use schema_compiler::ast::Enum;
use schema_compiler::ast::Event;
use schema_compiler::ast::Member;
use schema_compiler::ast::Type;
use schema_compiler::ast::UserDefinedType;
use schema_compiler::ast::Variant;
use schema_compiler::parser::component::parse_component;

const SIMPLE_COMPONENT: &str = "
        component AnimalCounter {
            id = 1001;
            uint32 rabbits = 1;
            double platypus = 2;
            command uint32 count_platypus(Field);
            event Rabbit new_rabbit;
        }";

const COMMENTED_COMPONENT: &str = "
        // This is used to count animals
        component AnimalCounter {
            id = 1001;
            
            // This is used to count rabbits
            uint32 rabbits = 1;
            
            // This is used to count platypus
            double platypus = 2;

            command uint32 count_platypus(Field);
            event Rabbit new_rabbit;
        }";

const NESTED_COMPONENT: &str = "
        // This is used to count animals
        component AnimalCounter {
            id = 1001;
            
            // This is used to count rabbits
            uint32 rabbits = 1;
            
            // This is used to count platypus
            double platypus = 2;

            enum LifeState {
                ALIVE = 0;
                DEAD = 1;
            }

            type Rabbit {
                enum Gender {
                    MALE = 1;
                    FEMALE = 2;
                }
                
                string name = 1;
                LifeState life_state = 2;
                Gender gender = 3;

            }

            command uint32 count_platypus(Field);
            event Rabbit new_rabbit;
        }";

fn expected_members(commented: bool) -> Vec<Member> {
    vec![
        Member {
            m_type: DataType::Uint32,
            name: "rabbits".to_owned(),
            id: 1,
            comments: if commented {
                vec![" This is used to count rabbits".to_owned()]
            } else {
                vec![]
            },
        },
        Member {
            m_type: DataType::Double,
            name: "platypus".to_owned(),
            id: 2,
            comments: if commented {
                vec![" This is used to count platypus".to_owned()]
            } else {
                vec![]
            },
        },
    ]
}

fn expected_events() -> Vec<Event> {
    vec![Event {
        name: "new_rabbit".to_owned(),
        r_type: DataType::UserDefined(UserDefinedType::Unresolved("Rabbit".to_owned())),
    }]
}

fn expected_commands() -> Vec<Command> {
    vec![Command {
        name: "count_platypus".to_owned(),
        r_type: DataType::Uint32,
        args: vec![DataType::UserDefined(UserDefinedType::Unresolved(
            "Field".to_owned(),
        ))],
    }]
}

#[test]
fn test_parse_component() {
    let (c, _) = parse_component(SIMPLE_COMPONENT.as_bytes(), 0).unwrap();
    assert_eq!(
        c,
        Component {
            id: 1001,
            comments: Vec::new(),
            name: "AnimalCounter".to_string(),
            members: expected_members(false),
            events: expected_events(),
            commands: expected_commands(),
            enums: vec![],
            types: vec![]
        }
    );
    let (c, _) = parse_component(COMMENTED_COMPONENT.as_bytes(), 0).unwrap();
    assert_eq!(
        c,
        Component {
            id: 1001,
            comments: vec![" This is used to count animals".to_owned()],
            name: "AnimalCounter".to_string(),
            members: expected_members(true),
            events: expected_events(),
            commands: expected_commands(),
            enums: vec![],
            types: vec![]
        }
    );
    let (c, _) = parse_component(NESTED_COMPONENT.as_bytes(), 0).unwrap();
    assert_eq!(
        c,
        Component {
            comments: vec![" This is used to count animals".to_owned()],
            name: "AnimalCounter".to_string(),
            id: 1001,
            members: expected_members(true),
            events: expected_events(),
            commands: expected_commands(),
            enums: vec![Enum {
                comments: vec![],
                name: "LifeState".to_owned(),
                variants: vec![
                    Variant {
                        comments: vec![],
                        name: "ALIVE".to_owned(),
                        id: 0
                    },
                    Variant {
                        comments: vec![],
                        name: "DEAD".to_owned(),
                        id: 1
                    }
                ]
            }],
            types: vec![Type {
                comments: vec![],
                name: "Rabbit".to_owned(),
                members: vec![
                    Member {
                        comments: vec![],
                        m_type: DataType::String,
                        name: "name".to_owned(),
                        id: 1
                    },
                    Member {
                        comments: vec![],
                        m_type: DataType::UserDefined(UserDefinedType::Unresolved(
                            "LifeState".to_owned()
                        )),
                        name: "life_state".to_owned(),
                        id: 2
                    },
                    Member {
                        comments: vec![],
                        m_type: DataType::UserDefined(UserDefinedType::Unresolved(
                            "Gender".to_owned()
                        )),
                        name: "gender".to_owned(),
                        id: 3
                    }
                ],
                enums: vec![Enum {
                    comments: vec![],
                    name: "Gender".to_owned(),
                    variants: vec![
                        Variant {
                            comments: vec![],
                            name: "MALE".to_owned(),
                            id: 1
                        },
                        Variant {
                            comments: vec![],
                            name: "FEMALE".to_owned(),
                            id: 2
                        }
                    ]
                }],
                types: vec![]
            }]
        }
    );
}

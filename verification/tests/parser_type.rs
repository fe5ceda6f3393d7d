use schema_compiler::ast::DataType;
use schema_compiler::ast::Enum;
use schema_compiler::ast::Member;
use schema_compiler::ast::Type;
use schema_compiler::ast::UserDefinedType;
use schema_compiler::ast::Variant;
use schema_compiler::parser::type_decl::parse_type;

const EMPTY_TYPE: &str = "type AnimalCounter { }";

const SIMPLE_TYPE: &str = "
        type AnimalCounter {
            uint32 rabbits = 1;
            double platypus = 2;
        }";

const COMMENTED_TYPE: &str = "
        // This is used to count animals
        type AnimalCounter {
            // This is used to count rabbits
            uint32 rabbits = 1 ;
            // This is used to count platypus
            double platypus = 2;
        }";

const NESTED_TYPE: &str = "
        type Rabbit {

            type LifeState {
                uint32 health = 1;
            }

            enum Gender {
                MALE = 1;
                FEMALE = 2;
            }
            
            string name = 1;
            LifeState life_state = 2;
            Gender gender = 3;
        }";

#[test]
fn type_test_parse_type() {
    let (t, _) = parse_type(EMPTY_TYPE.as_bytes(), 0).unwrap();
    assert_eq!(
        t,
        Type {
            comments: Vec::new(),
            name: "AnimalCounter".to_string(),
            members: vec![],
            types: vec![],
            enums: vec![]
        }
    );
    let (t, _) = parse_type(SIMPLE_TYPE.as_bytes(), 0).unwrap();
    assert_eq!(
        t,
        Type {
            comments: Vec::new(),
            name: "AnimalCounter".to_string(),
            members: vec![
                Member {
                    m_type: DataType::Uint32,
                    name: "rabbits".to_owned(),
                    id: 1,
                    comments: vec![]
                },
                Member {
                    m_type: DataType::Double,
                    name: "platypus".to_owned(),
                    id: 2,
                    comments: vec![]
                },
            ],
            types: vec![],
            enums: vec![]
        }
    );
    let (t, _) = parse_type(COMMENTED_TYPE.as_bytes(), 0).unwrap();
    assert_eq!(
        t,
        Type {
            comments: vec![" This is used to count animals".to_owned()],
            name: "AnimalCounter".to_string(),
            members: vec![
                Member {
                    m_type: DataType::Uint32,
                    name: "rabbits".to_owned(),
                    id: 1,
                    comments: vec![" This is used to count rabbits".to_owned()]
                },
                Member {
                    m_type: DataType::Double,
                    name: "platypus".to_owned(),
                    id: 2,
                    comments: vec![" This is used to count platypus".to_owned()]
                },
            ],
            types: vec![],
            enums: vec![]
        }
    );
    let (t, _) = parse_type(NESTED_TYPE.as_bytes(), 0).unwrap();
    assert_eq!(
        t,
        Type {
            comments: vec![],
            name: "Rabbit".to_string(),
            members: vec![
                Member {
                    m_type: DataType::String,
                    name: "name".to_owned(),
                    id: 1,
                    comments: vec![]
                },
                Member {
                    m_type: DataType::UserDefined(UserDefinedType::Unresolved(
                        "LifeState".to_owned()
                    )),
                    name: "life_state".to_owned(),
                    id: 2,
                    comments: vec![]
                },
                Member {
                    m_type: DataType::UserDefined(UserDefinedType::Unresolved(
                        "Gender".to_owned()
                    )),
                    name: "gender".to_owned(),
                    id: 3,
                    comments: vec![]
                },
            ],
            types: vec![Type {
                comments: vec![],
                name: "LifeState".to_owned(),
                members: vec![Member {
                    m_type: DataType::Uint32,
                    name: "health".to_owned(),
                    id: 1,
                    comments: vec![],
                }],
                types: vec![],
                enums: vec![]
            }],
            enums: vec![Enum {
                comments: vec![],
                name: "Gender".to_owned(),
                variants: vec![
                    Variant {
                        name: "MALE".to_owned(),
                        id: 1,
                        comments: vec![]
                    },
                    Variant {
                        name: "FEMALE".to_owned(),
                        id: 2,
                        comments: vec![]
                    }
                ]
            }]
        }
    );
}

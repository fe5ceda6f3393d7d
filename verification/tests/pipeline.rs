use schema_compiler::ast::ASTNode;
use schema_compiler::ast::DataType;
use schema_compiler::ast::SchemaFile;
use schema_compiler::ast::UserDefinedType;
use schema_compiler::ast::AST;
use schema_compiler::kind::ResolvedTypeKind;
use schema_compiler::merge::MergeError;
use schema_compiler::resolver::resolve_types;
use schema_compiler::resolver::ResolveError;

const PLAYER_SCHEMA: &str = "
        package io.nebulis.player;

        enum LifeState {
            ALIVE = 0;
            DEAD = 1;
            RESPAWNING = 2;
        }

        type IsDead { }

        type Damage {
            uint32 points = 1;
        }

        type DamageResponse {}

        component Health {
            id = 601;
            uint32 hp = 1;
            uint32 max_hp = 2;

            event IsDead is_dead;
            event Damage took_damage;
            command DamageResponse damage(Damage);
        }
    ";

fn parse(name: &str, source: &str) -> SchemaFile {
    SchemaFile::from_source(name.to_owned(), source.as_bytes()).unwrap()
}

fn find_schema<'a>(nodes: &'a [ASTNode], path: &[&str], name: &str) -> Option<&'a SchemaFile> {
    if path.is_empty() {
        for node in nodes {
            if let ASTNode::SchemaNode(sf) = node {
                if sf.name == name {
                    return Some(sf);
                }
            }
        }
        None
    } else {
        for node in nodes {
            if let ASTNode::PackageNode(pn) = node {
                if pn.name == path[0] {
                    if let Some(found) = find_schema(&pn.inner, &path[1..], name) {
                        return Some(found);
                    }
                }
            }
        }
        None
    }
}

#[test]
fn test_merge_completeness() {
    // independently parsed schema files with disjoint package paths and
    // names all end up reachable at their own paths
    let a = parse("alpha", "package io.nebulis.player;\ntype IsDead { }");
    let b = parse("beta", "package io.nebulis.world;\ntype Terrain { }");
    let c = parse("gamma", "package io.nebulis.player;\ntype Damage { }");
    let ast = AST::default();
    let ast = ast.merge_schema(a).unwrap();
    let ast = ast.merge_schema(b).unwrap();
    let ast = ast.merge_schema(c).unwrap();
    assert!(find_schema(&ast.inner, &["io", "nebulis", "player"], "alpha").is_some());
    assert!(find_schema(&ast.inner, &["io", "nebulis", "world"], "beta").is_some());
    assert!(find_schema(&ast.inner, &["io", "nebulis", "player"], "gamma").is_some());
    // exactly one root package was created
    assert_eq!(ast.inner.len(), 1);
}

#[test]
fn test_merge_empty_package_rejected() {
    let sf = SchemaFile {
        package_name: vec![],
        name: "loose".to_owned(),
        types: vec![],
        enums: vec![],
        components: vec![],
    };
    assert_eq!(
        AST::default().merge_schema(sf),
        Err(MergeError::EmptyPackagePath)
    );
}

#[test]
fn test_end_to_end_resolution() {
    let sf = parse("test", PLAYER_SCHEMA);
    let ast = AST::default().merge_schema(sf).unwrap();
    let ast = resolve_types(ast, "gen").unwrap();
    let sf = find_schema(&ast.inner, &["io", "nebulis", "player"], "test").unwrap();
    let health = &sf.components[0];
    assert_eq!(health.name, "Health");
    assert_eq!(health.id, 601);
    assert_eq!(health.members.len(), 2);
    assert_eq!(health.members[0].name, "hp");
    assert_eq!(health.members[0].m_type, DataType::Uint32);
    assert_eq!(health.members[0].id, 1);
    assert_eq!(health.members[1].name, "max_hp");
    assert_eq!(health.members[1].m_type, DataType::Uint32);
    assert_eq!(health.members[1].id, 2);
    // both events resolve to the type kind
    for (event, target) in health.events.iter().zip(["IsDead", "Damage"]) {
        match &event.r_type {
            DataType::UserDefined(UserDefinedType::Resolved(path, kind)) => {
                assert_eq!(kind, &ResolvedTypeKind::Type);
                assert_eq!(
                    path,
                    &format!("crate::gen::io::nebulis::player::{}", target)
                );
            }
            other => panic!("event did not resolve: {:?}", other),
        }
    }
    // the command's argument and return type both resolve to the type kind
    let damage = &health.commands[0];
    assert_eq!(damage.name, "damage");
    match &damage.r_type {
        DataType::UserDefined(UserDefinedType::Resolved(_, kind)) => {
            assert_eq!(kind, &ResolvedTypeKind::Type)
        }
        other => panic!("return type did not resolve: {:?}", other),
    }
    match &damage.args[0] {
        DataType::UserDefined(UserDefinedType::Resolved(_, kind)) => {
            assert_eq!(kind, &ResolvedTypeKind::Type)
        }
        other => panic!("argument did not resolve: {:?}", other),
    }
}

#[test]
fn test_unknown_reference_fails() {
    let sf = parse("test", "package io.nebulis;\ntype Holder { Missing thing = 1; }");
    let ast = AST::default().merge_schema(sf).unwrap();
    assert_eq!(
        resolve_types(ast, "gen"),
        Err(ResolveError::UnknownType("Missing".to_owned()))
    );
}

#[test]
fn test_component_reference_rejected() {
    // a name registered as a component must not resolve in member position
    let sf = parse(
        "test",
        "package io.nebulis;\ncomponent Health { id = 1; }\ntype Holder { Health h = 1; }",
    );
    let ast = AST::default().merge_schema(sf).unwrap();
    assert_eq!(
        resolve_types(ast, "gen"),
        Err(ResolveError::ComponentInFieldPosition("Health".to_owned()))
    );
}

#[test]
fn test_component_event_payload_rejected() {
    // the same name is not silently accepted where a component reference is
    // disallowed in event position either
    let sf = parse(
        "test",
        "package io.nebulis;\ncomponent Health { id = 1; event Health h;\n}",
    );
    let ast = AST::default().merge_schema(sf).unwrap();
    assert_eq!(
        resolve_types(ast, "gen"),
        Err(ResolveError::InvalidEventPayload("Health".to_owned()))
    );
}

#[test]
fn test_end_to_end_generation() {
    let sf = parse("test", PLAYER_SCHEMA);
    let ast = AST::default().merge_schema(sf).unwrap();
    let ast = resolve_types(ast, "gen").unwrap();
    let sf = find_schema(&ast.inner, &["io", "nebulis", "player"], "test").unwrap();
    let text = sf.generate_checked().unwrap();
    assert!(text.contains("pub enum LifeState"));
    assert!(text.contains("pub struct Health"));
    assert!(text.contains("#[id(601)]"));
    assert!(text.contains("hp: u32"));
    assert!(text.contains("type HealthDamageRequest = crate::gen::io::nebulis::player::Damage;"));
    assert!(text.contains("damage: PhantomData<HealthDamage>"));
}

//! The built-in standard schema library: the well-known components and
//! types every compilation can rely on, assembled as a ready-made forest.
//! Each constructor's contract fixes the exact value it builds, and the
//! forest as a whole equals `spec_standard_library`.

use vstd::prelude::*;

verus! {

use crate::ast::AST;
use crate::ast::ASTNode;
use crate::ast::ASTNodeV;
use crate::ast::ASTV;
use crate::ast::Component;
use crate::ast::ComponentV;
use crate::ast::DataType;
use crate::ast::DataTypeV;
use crate::ast::Member;
use crate::ast::MemberV;
use crate::ast::PackageNode;
use crate::ast::PackageNodeV;
use crate::ast::SchemaFile;
use crate::ast::SchemaFileV;
use crate::ast::Type;
use crate::ast::TypeV;
use crate::ast::UserDefinedType;
use crate::ast::UserDefinedTypeV;
use crate::ast::view_data_type;
use crate::ast::view_members;
use crate::ast::view_strings;
use crate::ast::lemma_view_type_seq;
use crate::ast::lemma_view_ast_node_seq;

broadcast use vstd::seq::group_seq_axioms, vstd::std_specs::vec::group_vec_axioms;

// ---------------------------------------------------------------------------
// The forest's exact value
// ---------------------------------------------------------------------------

/// A plain member with no documentation.
pub open spec fn spec_std_member(name: Seq<char>, m_type: DataTypeV, id: u32) -> MemberV {
    MemberV { name, m_type, id, comments: Seq::empty() }
}

/// A component with members only.
pub open spec fn spec_std_component(name: Seq<char>, id: u32, members: Seq<MemberV>) -> ComponentV {
    ComponentV {
        name,
        id,
        members,
        events: Seq::empty(),
        commands: Seq::empty(),
        comments: Seq::empty(),
        enums: Seq::empty(),
        types: Seq::empty(),
    }
}

/// A flat type with members only.
pub open spec fn spec_std_type(name: Seq<char>, members: Seq<MemberV>) -> TypeV {
    TypeV { name, members, comments: Seq::empty(), types: Seq::empty(), enums: Seq::empty() }
}

pub open spec fn spec_unresolved(name: Seq<char>) -> DataTypeV {
    DataTypeV::UserDefined(UserDefinedTypeV::Unresolved(name))
}

pub open spec fn spec_position_component() -> ComponentV {
    spec_std_component(
        "Position"@,
        54,
        seq![spec_std_member("coords"@, spec_unresolved("Coordinates"@), 1)],
    )
}

pub open spec fn spec_coordinates_type() -> TypeV {
    spec_std_type(
        "Coordinates"@,
        seq![
            spec_std_member("x"@, DataTypeV::Double, 1),
            spec_std_member("y"@, DataTypeV::Double, 2),
            spec_std_member("z"@, DataTypeV::Double, 3),
        ],
    )
}

pub open spec fn spec_worker_attribute_set_type() -> TypeV {
    spec_std_type(
        "WorkerAttributeSet"@,
        seq![
            spec_std_member("attribute"@, DataTypeV::List(Box::new(DataTypeV::String)), 1),
        ],
    )
}

pub open spec fn spec_worker_requirement_set_type() -> TypeV {
    spec_std_type(
        "WorkerRequirementSet"@,
        seq![
            spec_std_member(
                "attribute"@,
                DataTypeV::List(Box::new(spec_unresolved("WorkerAttributeSet"@))),
                1,
            ),
        ],
    )
}

pub open spec fn spec_entity_acl_component() -> ComponentV {
    spec_std_component(
        "EntityAcl"@,
        50,
        seq![
            spec_std_member("read_acl"@, spec_unresolved("WorkerRequirementSet"@), 1),
            spec_std_member(
                "component_write_acl"@,
                DataTypeV::Mapping(
                    Box::new(DataTypeV::Uint32),
                    Box::new(spec_unresolved("WorkerRequirementSet"@)),
                ),
                1,
            ),
        ],
    )
}

pub open spec fn spec_persistence_component() -> ComponentV {
    spec_std_component("Persistence"@, 55, Seq::empty())
}

pub open spec fn spec_metadata_component() -> ComponentV {
    spec_std_component(
        "Metadata"@,
        53,
        seq![spec_std_member("entity_type"@, DataTypeV::String, 1)],
    )
}

pub open spec fn spec_system_component() -> ComponentV {
    spec_std_component("System"@, 59, Seq::empty())
}

pub open spec fn spec_player_identity_type() -> TypeV {
    spec_std_type(
        "PlayerIdentity"@,
        seq![
            spec_std_member("player_identifier"@, DataTypeV::String, 1),
            spec_std_member("provider"@, DataTypeV::String, 2),
            spec_std_member("metadata"@, DataTypeV::Bytes, 3),
        ],
    )
}

pub open spec fn spec_player_client_component() -> ComponentV {
    spec_std_component(
        "PlayerClient"@,
        61,
        seq![spec_std_member("player_identity"@, spec_unresolved("PlayerIdentity"@), 1)],
    )
}

pub open spec fn spec_improbable_restricted_schema_file() -> SchemaFileV {
    SchemaFileV {
        package_name: seq!["improbable"@, "restricted"@],
        name: "standard_library"@,
        types: seq![spec_player_identity_type()],
        enums: Seq::empty(),
        components: seq![spec_system_component(), spec_player_client_component()],
    }
}

pub open spec fn spec_improbable_schema_file() -> SchemaFileV {
    SchemaFileV {
        package_name: seq!["improbable"@],
        name: "standard_library"@,
        types: seq![
            spec_coordinates_type(),
            spec_worker_attribute_set_type(),
            spec_worker_requirement_set_type(),
        ],
        enums: Seq::empty(),
        components: seq![
            spec_position_component(),
            spec_entity_acl_component(),
            spec_persistence_component(),
            spec_metadata_component(),
        ],
    }
}

pub open spec fn spec_improbable_restricted_package() -> PackageNodeV {
    PackageNodeV {
        name: "restricted"@,
        inner: seq![ASTNodeV::SchemaNode(spec_improbable_restricted_schema_file())],
    }
}

pub open spec fn spec_improbable_package() -> PackageNodeV {
    PackageNodeV {
        name: "improbable"@,
        inner: seq![
            ASTNodeV::PackageNode(spec_improbable_restricted_package()),
            ASTNodeV::SchemaNode(spec_improbable_schema_file()),
        ],
    }
}

/// The whole standard library forest.
pub open spec fn spec_standard_library() -> ASTV {
    ASTV { inner: seq![ASTNodeV::PackageNode(spec_improbable_package())] }
}

// ---------------------------------------------------------------------------
// The constructors
// ---------------------------------------------------------------------------

fn member(name: &str, m_type: DataType, id: u32) -> (r: Member)
    ensures
        r@ == spec_std_member(name@, view_data_type(m_type), id),
{
    let r = Member { name: name.to_owned(), m_type, id, comments: Vec::new() };
    proof {
        assert(view_strings(r.comments) =~= Seq::<Seq<char>>::empty());
    }
    r
}

fn component(name: &str, id: u32, members: Vec<Member>) -> (r: Component)
    ensures
        r@ == spec_std_component(name@, id, view_members(members)),
{
    let r = Component {
        name: name.to_owned(),
        id,
        members,
        events: Vec::new(),
        commands: Vec::new(),
        comments: Vec::new(),
        enums: Vec::new(),
        types: Vec::new(),
    };
    proof {
        assert(crate::ast::view_events(r.events) =~= Seq::<crate::ast::EventV>::empty());
        assert(crate::ast::view_commands(r.commands) =~= Seq::<crate::ast::CommandV>::empty());
        assert(view_strings(r.comments) =~= Seq::<Seq<char>>::empty());
        assert(crate::ast::view_enums(r.enums) =~= Seq::<crate::ast::EnumV>::empty());
        assert(crate::ast::view_types(r.types) =~= Seq::<TypeV>::empty());
    }
    r
}

fn flat_type(name: &str, members: Vec<Member>) -> (r: Type)
    ensures
        r@ == spec_std_type(name@, view_members(members)),
{
    let r = Type {
        name: name.to_owned(),
        members,
        comments: Vec::new(),
        types: Vec::new(),
        enums: Vec::new(),
    };
    proof {
        assert(view_strings(r.comments) =~= Seq::<Seq<char>>::empty());
        assert(crate::ast::view_types(r.types) =~= Seq::<TypeV>::empty());
        assert(crate::ast::view_enums(r.enums) =~= Seq::<crate::ast::EnumV>::empty());
    }
    r
}

fn generate_position_component() -> (r: Component)
    ensures
        r@ == spec_position_component(),
{
    let mut members: Vec<Member> = Vec::new();
    members.push(
        member(
            "coords",
            DataType::UserDefined(UserDefinedType::Unresolved("Coordinates".to_owned())),
            1,
        ),
    );
    proof {
        assert(view_members(members) =~= spec_position_component().members);
    }
    component("Position", 54, members)
}

fn generate_coordinates_type() -> (r: Type)
    ensures
        r@ == spec_coordinates_type(),
{
    let mut members: Vec<Member> = Vec::new();
    members.push(member("x", DataType::Double, 1));
    members.push(member("y", DataType::Double, 2));
    members.push(member("z", DataType::Double, 3));
    proof {
        assert(view_members(members) =~= spec_coordinates_type().members);
    }
    flat_type("Coordinates", members)
}

fn generate_worker_attribute_set_type() -> (r: Type)
    ensures
        r@ == spec_worker_attribute_set_type(),
{
    let mut members: Vec<Member> = Vec::new();
    let dt = DataType::List(Box::new(DataType::String));
    proof {
        assert(view_data_type(DataType::String) == DataTypeV::String);
        assert(view_data_type(dt) == DataTypeV::List(Box::new(DataTypeV::String)));
    }
    members.push(member("attribute", dt, 1));
    proof {
        assert(view_members(members) =~= spec_worker_attribute_set_type().members);
    }
    flat_type("WorkerAttributeSet", members)
}

fn generate_worker_requirement_set_type() -> (r: Type)
    ensures
        r@ == spec_worker_requirement_set_type(),
{
    let mut members: Vec<Member> = Vec::new();
    let inner = DataType::UserDefined(UserDefinedType::Unresolved("WorkerAttributeSet".to_owned()));
    proof {
        assert(view_data_type(inner) == spec_unresolved("WorkerAttributeSet"@));
    }
    let ghost iv = view_data_type(inner);
    let dt = DataType::List(Box::new(inner));
    proof {
        assert(view_data_type(dt) == DataTypeV::List(Box::new(iv)));
    }
    members.push(member("attribute", dt, 1));
    proof {
        assert(view_members(members) =~= spec_worker_requirement_set_type().members);
    }
    flat_type("WorkerRequirementSet", members)
}

fn generate_entity_acl_component() -> (r: Component)
    ensures
        r@ == spec_entity_acl_component(),
{
    let mut members: Vec<Member> = Vec::new();
    members.push(
        member(
            "read_acl",
            DataType::UserDefined(UserDefinedType::Unresolved("WorkerRequirementSet".to_owned())),
            1,
        ),
    );
    let inner = DataType::UserDefined(
        UserDefinedType::Unresolved("WorkerRequirementSet".to_owned()),
    );
    proof {
        assert(view_data_type(inner) == spec_unresolved("WorkerRequirementSet"@));
    }
    let ghost iv = view_data_type(inner);
    let dt = DataType::Mapping(Box::new(DataType::Uint32), Box::new(inner));
    proof {
        assert(view_data_type(DataType::Uint32) == DataTypeV::Uint32);
        assert(view_data_type(dt) == DataTypeV::Mapping(
            Box::new(DataTypeV::Uint32),
            Box::new(iv),
        ));
    }
    members.push(member("component_write_acl", dt, 1));
    proof {
        assert(view_members(members) =~= spec_entity_acl_component().members);
    }
    component("EntityAcl", 50, members)
}

fn generate_persistence_component() -> (r: Component)
    ensures
        r@ == spec_persistence_component(),
{
    let members: Vec<Member> = Vec::new();
    proof {
        assert(view_members(members) =~= Seq::<MemberV>::empty());
    }
    component("Persistence", 55, members)
}

fn generate_metadata_component() -> (r: Component)
    ensures
        r@ == spec_metadata_component(),
{
    let mut members: Vec<Member> = Vec::new();
    members.push(member("entity_type", DataType::String, 1));
    proof {
        assert(view_members(members) =~= spec_metadata_component().members);
    }
    component("Metadata", 53, members)
}

fn generate_system_component() -> (r: Component)
    ensures
        r@ == spec_system_component(),
{
    let members: Vec<Member> = Vec::new();
    proof {
        assert(view_members(members) =~= Seq::<MemberV>::empty());
    }
    component("System", 59, members)
}

fn generate_player_identity_type() -> (r: Type)
    ensures
        r@ == spec_player_identity_type(),
{
    let mut members: Vec<Member> = Vec::new();
    members.push(member("player_identifier", DataType::String, 1));
    members.push(member("provider", DataType::String, 2));
    members.push(member("metadata", DataType::Bytes, 3));
    proof {
        assert(view_members(members) =~= spec_player_identity_type().members);
    }
    flat_type("PlayerIdentity", members)
}

fn generate_player_client_component() -> (r: Component)
    ensures
        r@ == spec_player_client_component(),
{
    let mut members: Vec<Member> = Vec::new();
    members.push(
        member(
            "player_identity",
            DataType::UserDefined(UserDefinedType::Unresolved("PlayerIdentity".to_owned())),
            1,
        ),
    );
    proof {
        assert(view_members(members) =~= spec_player_client_component().members);
    }
    component("PlayerClient", 61, members)
}

fn generate_improbable_restricted_schema_file() -> (r: SchemaFile)
    ensures
        r@ == spec_improbable_restricted_schema_file(),
{
    let mut package_name: Vec<String> = Vec::new();
    package_name.push("improbable".to_owned());
    package_name.push("restricted".to_owned());
    let mut components: Vec<Component> = Vec::new();
    components.push(generate_system_component());
    components.push(generate_player_client_component());
    let mut types: Vec<Type> = Vec::new();
    types.push(generate_player_identity_type());
    let r = SchemaFile {
        package_name,
        name: "standard_library".to_owned(),
        types,
        enums: Vec::new(),
        components,
    };
    proof {
        lemma_view_type_seq(r.types@);
        assert(view_strings(r.package_name) =~= seq!["improbable"@, "restricted"@]);
        assert(crate::ast::view_types(r.types) =~= seq![spec_player_identity_type()]);
        assert(crate::ast::view_enums(r.enums) =~= Seq::<crate::ast::EnumV>::empty());
        assert(crate::ast::view_components(r.components) =~= seq![
            spec_system_component(),
            spec_player_client_component(),
        ]);
    }
    r
}

fn generate_improbable_schema_file() -> (r: SchemaFile)
    ensures
        r@ == spec_improbable_schema_file(),
{
    let mut package_name: Vec<String> = Vec::new();
    package_name.push("improbable".to_owned());
    let mut components: Vec<Component> = Vec::new();
    components.push(generate_position_component());
    components.push(generate_entity_acl_component());
    components.push(generate_persistence_component());
    components.push(generate_metadata_component());
    let mut types: Vec<Type> = Vec::new();
    types.push(generate_coordinates_type());
    types.push(generate_worker_attribute_set_type());
    types.push(generate_worker_requirement_set_type());
    let r = SchemaFile {
        package_name,
        name: "standard_library".to_owned(),
        types,
        enums: Vec::new(),
        components,
    };
    proof {
        lemma_view_type_seq(r.types@);
        assert(view_strings(r.package_name) =~= seq!["improbable"@]);
        assert(crate::ast::view_types(r.types) =~= seq![
            spec_coordinates_type(),
            spec_worker_attribute_set_type(),
            spec_worker_requirement_set_type(),
        ]);
        assert(crate::ast::view_enums(r.enums) =~= Seq::<crate::ast::EnumV>::empty());
        assert(crate::ast::view_components(r.components) =~= seq![
            spec_position_component(),
            spec_entity_acl_component(),
            spec_persistence_component(),
            spec_metadata_component(),
        ]);
    }
    r
}

fn generate_improbable_restricted_package() -> (r: PackageNode)
    ensures
        r@ == spec_improbable_restricted_package(),
{
    let mut inner: Vec<ASTNode> = Vec::new();
    inner.push(ASTNode::SchemaNode(generate_improbable_restricted_schema_file()));
    let r = PackageNode { name: "restricted".to_owned(), inner };
    proof {
        lemma_view_ast_node_seq(r.inner@);
        assert(crate::ast::view_ast_nodes(r.inner) =~= spec_improbable_restricted_package().inner);
    }
    r
}

fn generate_improbable_package() -> (r: PackageNode)
    ensures
        r@ == spec_improbable_package(),
{
    let mut inner: Vec<ASTNode> = Vec::new();
    inner.push(ASTNode::PackageNode(generate_improbable_restricted_package()));
    inner.push(ASTNode::SchemaNode(generate_improbable_schema_file()));
    let r = PackageNode { name: "improbable".to_owned(), inner };
    proof {
        lemma_view_ast_node_seq(r.inner@);
        assert(crate::ast::view_ast_nodes(r.inner) =~= spec_improbable_package().inner);
    }
    r
}

/// The standard library forest: one root package holding the restricted
/// sub-package and the common schema file, with exactly the declarations and
/// identifiers of `spec_standard_library`.
pub fn generate_standard_library() -> (r: AST)
    ensures
        r@ == spec_standard_library(),
{
    let mut inner: Vec<ASTNode> = Vec::new();
    inner.push(ASTNode::PackageNode(generate_improbable_package()));
    let r = AST { inner };
    proof {
        lemma_view_ast_node_seq(r.inner@);
        assert(crate::ast::view_ast_nodes(r.inner) =~= spec_standard_library().inner);
    }
    r
}

} // verus!

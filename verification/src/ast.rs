//! The schema data model: declarations as parsed from schema files, and the
//! package forest that merged files live in.
//!
//! Every executable type has a ghost view (`@`) built from `Seq` and `int`,
//! which the contracts of the parser, the merge, the resolver and the
//! generator speak about.

use vstd::prelude::*;

verus! {

use crate::kind::ResolvedTypeKind;

broadcast use vstd::seq::group_seq_axioms, vstd::std_specs::vec::group_vec_axioms;

// ---------------------------------------------------------------------------
// Ghost views
// ---------------------------------------------------------------------------

pub ghost enum UserDefinedTypeV {
    Unresolved(Seq<char>),
    Resolved(Seq<char>, ResolvedTypeKind),
}

pub ghost enum DataTypeV {
    Bool,
    Uint32,
    Uint64,
    Int32,
    Int64,
    SInt32,
    SInt64,
    Fixed32,
    Fixed64,
    SFixed32,
    SFixed64,
    Float,
    Double,
    String,
    Bytes,
    EntityID,
    Entity,
    Mapping(Box<DataTypeV>, Box<DataTypeV>),
    List(Box<DataTypeV>),
    Option(Box<DataTypeV>),
    UserDefined(UserDefinedTypeV),
}

pub ghost struct MemberV {
    pub name: Seq<char>,
    pub m_type: DataTypeV,
    pub id: u32,
    pub comments: Seq<Seq<char>>,
}

pub ghost struct VariantV {
    pub name: Seq<char>,
    pub id: u32,
    pub comments: Seq<Seq<char>>,
}

pub ghost struct ValueV {
    pub name: Seq<char>,
    pub id: usize,
    pub comments: Seq<Seq<char>>,
}

pub ghost struct CommandV {
    pub name: Seq<char>,
    pub r_type: DataTypeV,
    pub args: Seq<DataTypeV>,
}

pub ghost struct EventV {
    pub name: Seq<char>,
    pub r_type: DataTypeV,
}

pub ghost struct EnumV {
    pub name: Seq<char>,
    pub variants: Seq<VariantV>,
    pub comments: Seq<Seq<char>>,
}

pub ghost struct TypeV {
    pub name: Seq<char>,
    pub members: Seq<MemberV>,
    pub comments: Seq<Seq<char>>,
    pub types: Seq<TypeV>,
    pub enums: Seq<EnumV>,
}

pub ghost struct ComponentV {
    pub name: Seq<char>,
    pub id: u32,
    pub members: Seq<MemberV>,
    pub events: Seq<EventV>,
    pub commands: Seq<CommandV>,
    pub comments: Seq<Seq<char>>,
    pub enums: Seq<EnumV>,
    pub types: Seq<TypeV>,
}

pub ghost struct SchemaFileV {
    pub package_name: Seq<Seq<char>>,
    pub name: Seq<char>,
    pub types: Seq<TypeV>,
    pub enums: Seq<EnumV>,
    pub components: Seq<ComponentV>,
}

pub ghost enum ASTNodeV {
    PackageNode(PackageNodeV),
    SchemaNode(SchemaFileV),
}

pub ghost struct PackageNodeV {
    pub name: Seq<char>,
    pub inner: Seq<ASTNodeV>,
}

pub ghost struct ASTV {
    pub inner: Seq<ASTNodeV>,
}

// ---------------------------------------------------------------------------
// Executable types
// ---------------------------------------------------------------------------

/// A user-written type reference: the bare name as written by the author, or,
/// after resolution, the fully qualified path with the declaration's kind.
#[derive(Debug, PartialEq, Eq)]
pub enum UserDefinedType {
    Unresolved(String),
    Resolved(String, ResolvedTypeKind),
}

/// The closed algebra of member, event and command types.
#[derive(Debug, PartialEq, Eq)]
pub enum DataType {
    Bool,
    Uint32,
    Uint64,
    Int32,
    Int64,
    SInt32,
    SInt64,
    Fixed32,
    Fixed64,
    SFixed32,
    SFixed64,
    Float,
    Double,
    String,
    Bytes,
    EntityID,
    Entity,
    Mapping(Box<DataType>, Box<DataType>),
    List(Box<DataType>),
    Option(Box<DataType>),
    UserDefined(UserDefinedType),
}

/// A field of a type or component, with its stable numeric identifier.
#[derive(Debug, PartialEq, Eq)]
pub struct Member {
    pub name: String,
    pub m_type: DataType,
    pub id: u32,
    pub comments: Vec<String>,
}

/// One case of an enum declaration.
#[derive(Debug, PartialEq, Eq)]
pub struct Variant {
    pub name: String,
    pub id: u32,
    pub comments: Vec<String>,
}

/// One case of an enum declaration, with a machine-word identifier.
#[derive(Debug, PartialEq, Eq)]
pub struct Value {
    pub name: String,
    pub id: usize,
    pub comments: Vec<String>,
}

/// A command: a return type, a name, and argument types.
#[derive(Debug, PartialEq, Eq)]
pub struct Command {
    pub name: String,
    pub r_type: DataType,
    pub args: Vec<DataType>,
}

/// An event: a payload type and a name.
#[derive(Debug, PartialEq, Eq)]
pub struct Event {
    pub name: String,
    pub r_type: DataType,
}

/// An enum declaration.
#[derive(Debug, PartialEq, Eq)]
pub struct Enum {
    pub name: String,
    pub variants: Vec<Variant>,
    pub comments: Vec<String>,
}

/// A type declaration; types may nest arbitrarily deep.
#[derive(Debug, PartialEq, Eq)]
pub struct Type {
    pub name: String,
    pub members: Vec<Member>,
    pub comments: Vec<String>,
    pub types: Vec<Type>,
    pub enums: Vec<Enum>,
}

/// A component declaration, with its system-wide numeric identifier.
#[derive(Debug, PartialEq, Eq)]
pub struct Component {
    pub name: String,
    pub id: u32,
    pub members: Vec<Member>,
    pub events: Vec<Event>,
    pub commands: Vec<Command>,
    pub comments: Vec<String>,
    pub enums: Vec<Enum>,
    pub types: Vec<Type>,
}

/// One parsed schema source file: its package path and top-level declarations.
#[derive(Debug, PartialEq, Eq)]
pub struct SchemaFile {
    pub package_name: Vec<String>,
    pub name: String,
    pub types: Vec<Type>,
    pub enums: Vec<Enum>,
    pub components: Vec<Component>,
}

/// A node of the package forest: an inner package level, or a schema leaf.
#[derive(Debug, PartialEq, Eq)]
pub enum ASTNode {
    PackageNode(PackageNode),
    SchemaNode(SchemaFile),
}

/// One level of the package hierarchy.
#[derive(Debug, PartialEq, Eq)]
pub struct PackageNode {
    pub name: String,
    pub inner: Vec<ASTNode>,
}

/// The merged forest of package trees.
#[derive(Debug, PartialEq, Eq)]
pub struct AST {
    pub inner: Vec<ASTNode>,
}

// ---------------------------------------------------------------------------
// View functions
// ---------------------------------------------------------------------------

pub open spec fn view_strings(v: Vec<String>) -> Seq<Seq<char>> {
    Seq::new(v@.len(), |i: int| v@[i]@)
}

pub open spec fn view_udt(u: UserDefinedType) -> UserDefinedTypeV {
    match u {
        UserDefinedType::Unresolved(n) => UserDefinedTypeV::Unresolved(n@),
        UserDefinedType::Resolved(n, k) => UserDefinedTypeV::Resolved(n@, k),
    }
}

pub open spec fn view_data_type(d: DataType) -> DataTypeV
    decreases d,
{
    match d {
        DataType::Bool => DataTypeV::Bool,
        DataType::Uint32 => DataTypeV::Uint32,
        DataType::Uint64 => DataTypeV::Uint64,
        DataType::Int32 => DataTypeV::Int32,
        DataType::Int64 => DataTypeV::Int64,
        DataType::SInt32 => DataTypeV::SInt32,
        DataType::SInt64 => DataTypeV::SInt64,
        DataType::Fixed32 => DataTypeV::Fixed32,
        DataType::Fixed64 => DataTypeV::Fixed64,
        DataType::SFixed32 => DataTypeV::SFixed32,
        DataType::SFixed64 => DataTypeV::SFixed64,
        DataType::Float => DataTypeV::Float,
        DataType::Double => DataTypeV::Double,
        DataType::String => DataTypeV::String,
        DataType::Bytes => DataTypeV::Bytes,
        DataType::EntityID => DataTypeV::EntityID,
        DataType::Entity => DataTypeV::Entity,
        DataType::Mapping(k, v) => DataTypeV::Mapping(
            Box::new(view_data_type(*k)),
            Box::new(view_data_type(*v)),
        ),
        DataType::List(t) => DataTypeV::List(Box::new(view_data_type(*t))),
        DataType::Option(t) => DataTypeV::Option(Box::new(view_data_type(*t))),
        DataType::UserDefined(u) => DataTypeV::UserDefined(view_udt(u)),
    }
}

pub open spec fn view_member(m: Member) -> MemberV {
    MemberV {
        name: m.name@,
        m_type: view_data_type(m.m_type),
        id: m.id,
        comments: view_strings(m.comments),
    }
}

pub open spec fn view_members(ms: Vec<Member>) -> Seq<MemberV> {
    Seq::new(ms@.len(), |i: int| view_member(ms@[i]))
}

pub open spec fn view_variant(v: Variant) -> VariantV {
    VariantV { name: v.name@, id: v.id, comments: view_strings(v.comments) }
}

pub open spec fn view_variants(vs: Vec<Variant>) -> Seq<VariantV> {
    Seq::new(vs@.len(), |i: int| view_variant(vs@[i]))
}

pub open spec fn view_value(v: Value) -> ValueV {
    ValueV { name: v.name@, id: v.id, comments: view_strings(v.comments) }
}

pub open spec fn view_data_types(ds: Vec<DataType>) -> Seq<DataTypeV> {
    Seq::new(ds@.len(), |i: int| view_data_type(ds@[i]))
}

pub open spec fn view_command(c: Command) -> CommandV {
    CommandV { name: c.name@, r_type: view_data_type(c.r_type), args: view_data_types(c.args) }
}

pub open spec fn view_commands(cs: Vec<Command>) -> Seq<CommandV> {
    Seq::new(cs@.len(), |i: int| view_command(cs@[i]))
}

pub open spec fn view_event(e: Event) -> EventV {
    EventV { name: e.name@, r_type: view_data_type(e.r_type) }
}

pub open spec fn view_events(es: Vec<Event>) -> Seq<EventV> {
    Seq::new(es@.len(), |i: int| view_event(es@[i]))
}

pub open spec fn view_enum(e: Enum) -> EnumV {
    EnumV { name: e.name@, variants: view_variants(e.variants), comments: view_strings(e.comments) }
}

pub open spec fn view_enums(es: Vec<Enum>) -> Seq<EnumV> {
    Seq::new(es@.len(), |i: int| view_enum(es@[i]))
}

pub open spec fn view_type(t: Type) -> TypeV
    decreases t, 1int,
    via view_type_decreases
{
    TypeV {
        name: t.name@,
        members: view_members(t.members),
        comments: view_strings(t.comments),
        types: view_type_seq(t.types@),
        enums: view_enums(t.enums),
    }
}

pub open spec fn view_type_seq(ts: Seq<Type>) -> Seq<TypeV>
    decreases ts, 0int,
    via view_type_seq_decreases
{
    if ts.len() == 0 {
        Seq::empty()
    } else {
        seq![view_type(ts[0])] + view_type_seq(ts.skip(1))
    }
}

#[via_fn]
proof fn view_type_decreases(t: Type) {
    assert(decreases_to!(t => t.types));
    assert(decreases_to!(t.types => t.types@));
}

#[via_fn]
proof fn view_type_seq_decreases(ts: Seq<Type>) {
    if ts.len() != 0 {
        assert(decreases_to!(ts => ts[0]));
        assert(decreases_to!(ts => ts.skip(1)));
    }
}

/// Element-wise reading of `view_type_seq`.
pub proof fn lemma_view_type_seq(ts: Seq<Type>)
    ensures
        view_type_seq(ts).len() == ts.len(),
        forall|i: int| 0 <= i < ts.len() ==> #[trigger] view_type_seq(ts)[i] == view_type(ts[i]),
    decreases ts.len(),
{
    if ts.len() != 0 {
        lemma_view_type_seq(ts.skip(1));
    }
}

pub open spec fn view_types(ts: Vec<Type>) -> Seq<TypeV> {
    view_type_seq(ts@)
}

pub open spec fn view_component(c: Component) -> ComponentV {
    ComponentV {
        name: c.name@,
        id: c.id,
        members: view_members(c.members),
        events: view_events(c.events),
        commands: view_commands(c.commands),
        comments: view_strings(c.comments),
        enums: view_enums(c.enums),
        types: view_types(c.types),
    }
}

pub open spec fn view_components(cs: Vec<Component>) -> Seq<ComponentV> {
    Seq::new(cs@.len(), |i: int| view_component(cs@[i]))
}

pub open spec fn view_schema_file(s: SchemaFile) -> SchemaFileV {
    SchemaFileV {
        package_name: view_strings(s.package_name),
        name: s.name@,
        types: view_types(s.types),
        enums: view_enums(s.enums),
        components: view_components(s.components),
    }
}

pub open spec fn view_ast_node(n: ASTNode) -> ASTNodeV
    decreases n, 1int,
    via view_ast_node_decreases
{
    match n {
        ASTNode::PackageNode(p) => ASTNodeV::PackageNode(
            PackageNodeV { name: p.name@, inner: view_ast_node_seq(p.inner@) },
        ),
        ASTNode::SchemaNode(s) => ASTNodeV::SchemaNode(view_schema_file(s)),
    }
}

pub open spec fn view_ast_node_seq(ns: Seq<ASTNode>) -> Seq<ASTNodeV>
    decreases ns, 0int,
    via view_ast_node_seq_decreases
{
    if ns.len() == 0 {
        Seq::empty()
    } else {
        seq![view_ast_node(ns[0])] + view_ast_node_seq(ns.skip(1))
    }
}

#[via_fn]
proof fn view_ast_node_decreases(n: ASTNode) {
    if let ASTNode::PackageNode(p) = n {
        assert(decreases_to!(n => p.inner));
        assert(decreases_to!(p.inner => p.inner@));
    }
}

#[via_fn]
proof fn view_ast_node_seq_decreases(ns: Seq<ASTNode>) {
    if ns.len() != 0 {
        assert(decreases_to!(ns => ns[0]));
        assert(decreases_to!(ns => ns.skip(1)));
    }
}

/// Element-wise reading of `view_ast_node_seq`.
pub proof fn lemma_view_ast_node_seq(ns: Seq<ASTNode>)
    ensures
        view_ast_node_seq(ns).len() == ns.len(),
        forall|i: int| 0 <= i < ns.len() ==> #[trigger] view_ast_node_seq(ns)[i]
            == view_ast_node(ns[i]),
    decreases ns.len(),
{
    if ns.len() != 0 {
        lemma_view_ast_node_seq(ns.skip(1));
    }
}

pub open spec fn view_ast_nodes(ns: Vec<ASTNode>) -> Seq<ASTNodeV> {
    view_ast_node_seq(ns@)
}

impl View for UserDefinedType {
    type V = UserDefinedTypeV;

    open spec fn view(&self) -> UserDefinedTypeV {
        view_udt(*self)
    }
}

impl View for DataType {
    type V = DataTypeV;

    open spec fn view(&self) -> DataTypeV {
        view_data_type(*self)
    }
}

impl View for Member {
    type V = MemberV;

    open spec fn view(&self) -> MemberV {
        view_member(*self)
    }
}

impl View for Variant {
    type V = VariantV;

    open spec fn view(&self) -> VariantV {
        view_variant(*self)
    }
}

impl View for Value {
    type V = ValueV;

    open spec fn view(&self) -> ValueV {
        view_value(*self)
    }
}

impl View for Command {
    type V = CommandV;

    open spec fn view(&self) -> CommandV {
        view_command(*self)
    }
}

impl View for Event {
    type V = EventV;

    open spec fn view(&self) -> EventV {
        view_event(*self)
    }
}

impl View for Enum {
    type V = EnumV;

    open spec fn view(&self) -> EnumV {
        view_enum(*self)
    }
}

impl View for Type {
    type V = TypeV;

    open spec fn view(&self) -> TypeV {
        view_type(*self)
    }
}

impl View for Component {
    type V = ComponentV;

    open spec fn view(&self) -> ComponentV {
        view_component(*self)
    }
}

impl View for SchemaFile {
    type V = SchemaFileV;

    open spec fn view(&self) -> SchemaFileV {
        view_schema_file(*self)
    }
}

impl View for ASTNode {
    type V = ASTNodeV;

    open spec fn view(&self) -> ASTNodeV {
        view_ast_node(*self)
    }
}

impl View for PackageNode {
    type V = PackageNodeV;

    open spec fn view(&self) -> PackageNodeV {
        PackageNodeV { name: self.name@, inner: view_ast_nodes(self.inner) }
    }
}

impl View for AST {
    type V = ASTV;

    open spec fn view(&self) -> ASTV {
        ASTV { inner: view_ast_nodes(self.inner) }
    }
}

impl Default for AST {
    /// An empty forest.
    fn default() -> (r: AST)
        ensures
            r@.inner == Seq::<ASTNodeV>::empty(),
    {
        AST { inner: Vec::new() }
    }
}

impl Default for ASTBuilder {
    /// A builder with no input directories yet.
    fn default() -> (r: ASTBuilder)
        ensures
            r@ == Seq::<Seq<char>>::empty(),
    {
        ASTBuilder { directories: Vec::new() }
    }
}

/// Collects the input directories that schema files will be read from.
/// Walking those directories and reading the files is I/O and happens in the
/// caller; the builder itself only accumulates the ordered directory list.
#[derive(Debug, PartialEq, Eq, Clone)]
pub struct ASTBuilder {
    pub directories: Vec<String>,
}

impl View for ASTBuilder {
    type V = Seq<Seq<char>>;

    open spec fn view(&self) -> Seq<Seq<char>> {
        view_strings(self.directories)
    }
}

impl ASTBuilder {
    /// Appends one directory to the ordered list of inputs.
    pub fn with_directory(self, path: String) -> (r: Self)
        ensures
            r@ == self@.push(path@),
    {
        let mut directories = self.directories;
        directories.push(path);
        let r = ASTBuilder { directories };
        proof {
            assert(r@ =~= self@.push(path@));
        }
        r
    }
}

} // verus!

//! The two-pass symbol resolver.
//!
//! A registration pass walks the merged forest and maps every declared bare
//! name to its fully qualified path and kind; a rewrite pass then replaces
//! every unresolved reference with the registered path and kind, or fails
//! naming the first offending identifier.  Name resolution is global and
//! flat: a bare name must be unique across the whole compiled universe.

use vstd::prelude::*;

verus! {

use crate::ast::AST;
use crate::ast::ASTNode;
use crate::ast::ASTNodeV;
use crate::ast::ASTV;
use crate::ast::Command;
use crate::ast::CommandV;
use crate::ast::Component;
use crate::ast::ComponentV;
use crate::ast::DataType;
use crate::ast::DataTypeV;
use crate::ast::Enum;
use crate::ast::EnumV;
use crate::ast::Event;
use crate::ast::EventV;
use crate::ast::Member;
use crate::ast::MemberV;
use crate::ast::PackageNode;
use crate::ast::PackageNodeV;
use crate::ast::SchemaFile;
use crate::ast::SchemaFileV;
use crate::ast::Type;
use crate::ast::TypeV;
use crate::ast::UserDefinedType;
use crate::ast::UserDefinedTypeV;
use crate::ast::view_ast_node;
use crate::ast::view_ast_nodes;
use crate::ast::view_command;
use crate::ast::view_commands;
use crate::ast::view_component;
use crate::ast::view_components;
use crate::ast::view_data_type;
use crate::ast::view_data_types;
use crate::ast::view_enums;
use crate::ast::view_event;
use crate::ast::view_events;
use crate::ast::view_member;
use crate::ast::view_members;
use crate::ast::view_schema_file;
use crate::ast::view_type;
use crate::ast::view_types;
use crate::ast::lemma_view_type_seq;
use crate::ast::lemma_view_ast_node_seq;
use crate::kind::ResolvedTypeKind;
use crate::text::push_char;

broadcast use vstd::seq::group_seq_axioms, vstd::std_specs::vec::group_vec_axioms;

// ---------------------------------------------------------------------------
// Errors
// ---------------------------------------------------------------------------

pub ghost enum ResolveErrorV {
    /// No declaration with this bare name is registered.
    UnknownType(Seq<char>),
    /// A component was referenced where a field type is required.
    ComponentInFieldPosition(Seq<char>),
    /// An event payload resolved to something other than a type.
    InvalidEventPayload(Seq<char>),
}

/// Why resolution failed, naming the offending identifier.
#[derive(Debug, PartialEq, Eq)]
pub enum ResolveError {
    UnknownType(String),
    ComponentInFieldPosition(String),
    InvalidEventPayload(String),
}

impl View for ResolveError {
    type V = ResolveErrorV;

    open spec fn view(&self) -> ResolveErrorV {
        match self {
            ResolveError::UnknownType(n) => ResolveErrorV::UnknownType(n@),
            ResolveError::ComponentInFieldPosition(n) => ResolveErrorV::ComponentInFieldPosition(
                n@,
            ),
            ResolveError::InvalidEventPayload(n) => ResolveErrorV::InvalidEventPayload(n@),
        }
    }
}

// ---------------------------------------------------------------------------
// The symbol table
// ---------------------------------------------------------------------------

/// One registration: a bare name mapped to its fully qualified path and the
/// kind of its declaration.
pub type SymbolEntry = (String, (String, ResolvedTypeKind));

pub ghost struct SymbolEntryV {
    pub name: Seq<char>,
    pub path: Seq<char>,
    pub kind: ResolvedTypeKind,
}

pub open spec fn view_symbols(v: Vec<SymbolEntry>) -> Seq<SymbolEntryV> {
    Seq::new(v@.len(), |i: int| SymbolEntryV {
        name: v@[i].0@,
        path: v@[i].1.0@,
        kind: v@[i].1.1,
    })
}

/// The registration that wins for a bare name: the latest one.
pub open spec fn spec_lookup(tbl: Seq<SymbolEntryV>, name: Seq<char>) -> Option<(
    Seq<char>,
    ResolvedTypeKind,
)>
    decreases tbl.len(),
{
    if tbl.len() == 0 {
        None
    } else if tbl.last().name == name {
        Some((tbl.last().path, tbl.last().kind))
    } else {
        spec_lookup(tbl.drop_last(), name)
    }
}

/// Looks a bare name up in the symbol table; the latest registration wins.
fn lookup(tbl: &Vec<SymbolEntry>, name: &String) -> (r: Option<(String, ResolvedTypeKind)>)
    ensures
        r is Some <==> spec_lookup(view_symbols(*tbl), name@) is Some,
        r is Some ==> r->Some_0.0@ == spec_lookup(view_symbols(*tbl), name@)->Some_0.0,
        r is Some ==> r->Some_0.1 == spec_lookup(view_symbols(*tbl), name@)->Some_0.1,
{
    let ghost tv = view_symbols(*tbl);
    let mut k: usize = tbl.len();
    proof {
        assert(tv.take(tbl@.len() as int) =~= tv);
    }
    while k > 0
        invariant
            0 <= k <= tbl@.len(),
            tv == view_symbols(*tbl),
            tv.len() == tbl@.len(),
            spec_lookup(tv, name@) == spec_lookup(tv.take(k as int), name@),
        decreases k,
    {
        k = k - 1;
        let entry_name = &tbl[k].0;
        if entry_name.eq(name) {
            let path = tbl[k].1.0.clone();
            let kind = tbl[k].1.1;
            proof {
                assert(tv.take(k as int + 1).last() == tv[k as int]);
                assert(tv[k as int].name == name@);
            }
            return Some((path, kind));
        }
        proof {
            assert(tv.take(k as int + 1).last() == tv[k as int]);
            assert(tv.take(k as int + 1).drop_last() =~= tv.take(k as int));
        }
    }
    proof {
        assert(tv.take(0) =~= Seq::<SymbolEntryV>::empty());
    }
    None
}

// ---------------------------------------------------------------------------
// Registration pass
// ---------------------------------------------------------------------------

/// `path::name`.
pub open spec fn spec_join(path: Seq<char>, name: Seq<char>) -> Seq<char> {
    path + seq![':', ':'] + name
}

/// Builds `path::name`.
fn join_path(path: &String, name: &String) -> (r: String)
    ensures
        r@ == spec_join(path@, name@),
{
    let mut r = path.clone();
    push_char(&mut r, ':');
    push_char(&mut r, ':');
    r.append(name.as_str());
    proof {
        assert(r@ =~= spec_join(path@, name@));
    }
    r
}

/// The registrations of a type declaration: the type itself, then its nested
/// types and enums, each under the fully qualified path of its parent.
pub open spec fn spec_register_type(path: Seq<char>, t: TypeV) -> Seq<SymbolEntryV>
    decreases t, 1int,
{
    seq![
        SymbolEntryV {
            name: t.name,
            path: spec_join(path, t.name),
            kind: ResolvedTypeKind::Type,
        },
    ] + spec_register_types(spec_join(path, t.name), t.types) + spec_register_enums(
        spec_join(path, t.name),
        t.enums,
    )
}

pub open spec fn spec_register_types(path: Seq<char>, ts: Seq<TypeV>) -> Seq<SymbolEntryV>
    decreases ts, 0int,
{
    if ts.len() == 0 {
        Seq::empty()
    } else {
        spec_register_types(path, ts.drop_last()) + spec_register_type(path, ts.last())
    }
}

pub open spec fn spec_register_enums(path: Seq<char>, es: Seq<EnumV>) -> Seq<SymbolEntryV> {
    Seq::new(es.len(), |i: int| SymbolEntryV {
        name: es[i].name,
        path: spec_join(path, es[i].name),
        kind: ResolvedTypeKind::Enum,
    })
}

/// The registrations of a component: the component itself, then its nested
/// types and enums under the component's fully qualified path.
pub open spec fn spec_register_component(path: Seq<char>, c: ComponentV) -> Seq<SymbolEntryV> {
    seq![
        SymbolEntryV {
            name: c.name,
            path: spec_join(path, c.name),
            kind: ResolvedTypeKind::Component,
        },
    ] + spec_register_types(spec_join(path, c.name), c.types) + spec_register_enums(
        spec_join(path, c.name),
        c.enums,
    )
}

pub open spec fn spec_register_components(path: Seq<char>, cs: Seq<ComponentV>) -> Seq<
    SymbolEntryV,
>
    decreases cs.len(),
{
    if cs.len() == 0 {
        Seq::empty()
    } else {
        spec_register_components(path, cs.drop_last()) + spec_register_component(path, cs.last())
    }
}

/// The registrations of one schema file: its components, then its types,
/// then its enums.
pub open spec fn spec_register_schema(path: Seq<char>, sf: SchemaFileV) -> Seq<SymbolEntryV> {
    spec_register_components(path, sf.components) + spec_register_types(path, sf.types)
        + spec_register_enums(path, sf.enums)
}

/// The registrations below one forest node; descending into a package
/// appends `::` and the package's name to the path.
pub open spec fn spec_register_node(path: Seq<char>, n: ASTNodeV) -> Seq<SymbolEntryV>
    decreases n, 1int,
{
    match n {
        ASTNodeV::SchemaNode(sf) => spec_register_schema(path, sf),
        ASTNodeV::PackageNode(p) => spec_register_nodes(spec_join(path, p.name), p.inner),
    }
}

pub open spec fn spec_register_nodes(path: Seq<char>, ns: Seq<ASTNodeV>) -> Seq<SymbolEntryV>
    decreases ns, 0int,
{
    if ns.len() == 0 {
        Seq::empty()
    } else {
        spec_register_nodes(path, ns.drop_last()) + spec_register_node(path, ns.last())
    }
}

/// Registers one enum list.
fn register_enums(path: &String, es: &Vec<Enum>, out: &mut Vec<SymbolEntry>)
    ensures
        view_symbols(*final(out)) == view_symbols(*old(out)) + spec_register_enums(
            path@,
            view_enums(*es),
        ),
{
    let ghost base = view_symbols(*out);
    let ghost evs = view_enums(*es);
    let n = es.len();
    let mut k: usize = 0;
    while k < n
        invariant
            0 <= k <= n,
            n == es@.len(),
            evs == view_enums(*es),
            evs.len() == n,
            view_symbols(*out) == base + spec_register_enums(path@, evs.take(k as int)),
        decreases n - k,
    {
        let fq = join_path(path, &es[k].name);
        let ghost before = view_symbols(*out);
        out.push((es[k].name.clone(), (fq, ResolvedTypeKind::Enum)));
        k = k + 1;
        proof {
            assert(view_symbols(*out) =~= before.push(
                SymbolEntryV {
                    name: evs[k - 1].name,
                    path: spec_join(path@, evs[k - 1].name),
                    kind: ResolvedTypeKind::Enum,
                },
            ));
            assert(view_symbols(*out) =~= base + spec_register_enums(path@, evs.take(k as int)));
        }
    }
    proof {
        assert(evs.take(n as int) =~= evs);
    }
}

/// Registers a type declaration and, under its path, its nested types and
/// enums.
fn register_type_entries(path: &String, ty: &Type, out: &mut Vec<SymbolEntry>)
    ensures
        view_symbols(*final(out)) == view_symbols(*old(out)) + spec_register_type(
            path@,
            view_type(*ty),
        ),
    decreases *ty,
{
    let ghost base = view_symbols(*out);
    let ghost tv = view_type(*ty);
    let fq = join_path(path, &ty.name);
    let ghost before = view_symbols(*out);
    out.push((ty.name.clone(), (fq.clone(), ResolvedTypeKind::Type)));
    proof {
        assert(view_symbols(*out) =~= base + seq![
            SymbolEntryV { name: tv.name, path: spec_join(path@, tv.name), kind: ResolvedTypeKind::Type },
        ]);
    }
    let ghost tvs = view_types(ty.types);
    proof {
        lemma_view_type_seq(ty.types@);
    }
    let n = ty.types.len();
    let mut k: usize = 0;
    while k < n
        invariant
            0 <= k <= n,
            n == ty.types@.len(),
            tvs == view_types(ty.types),
            tvs.len() == n,
            fq@ == spec_join(path@, tv.name),
            tv == view_type(*ty),
            forall|m: int| 0 <= m < n ==> tvs[m] == view_type(ty.types@[m]),
            view_symbols(*out) == base + seq![
                SymbolEntryV { name: tv.name, path: spec_join(path@, tv.name), kind: ResolvedTypeKind::Type },
            ] + spec_register_types(fq@, tvs.take(k as int)),
        decreases n - k,
    {
        proof {
            assert(decreases_to!(*ty => ty.types));
            assert(decreases_to!(ty.types => ty.types@));
            assert(decreases_to!(ty.types@ => ty.types@[k as int]));
        }
        let ghost mid = view_symbols(*out);
        register_type_entries(&fq, &ty.types[k], out);
        k = k + 1;
        proof {
            assert(tvs.take(k as int).drop_last() =~= tvs.take(k - 1));
            assert(tvs.take(k as int).last() == tvs[k - 1]);
            assert(view_symbols(*out) =~= base + seq![
                SymbolEntryV { name: tv.name, path: spec_join(path@, tv.name), kind: ResolvedTypeKind::Type },
            ] + spec_register_types(fq@, tvs.take(k as int)));
        }
    }
    proof {
        assert(tvs.take(n as int) =~= tvs);
    }
    register_enums(&fq, &ty.enums, out);
    proof {
        assert(view_symbols(*out) =~= base + spec_register_type(path@, tv));
    }
}

/// Registers a component and, under its path, its nested types and enums.
fn register_component_entries(path: &String, c: &Component, out: &mut Vec<SymbolEntry>)
    ensures
        view_symbols(*final(out)) == view_symbols(*old(out)) + spec_register_component(
            path@,
            view_component(*c),
        ),
{
    let ghost base = view_symbols(*out);
    let ghost cv = view_component(*c);
    let fq = join_path(path, &c.name);
    out.push((c.name.clone(), (fq.clone(), ResolvedTypeKind::Component)));
    proof {
        assert(view_symbols(*out) =~= base + seq![
            SymbolEntryV {
                name: cv.name,
                path: spec_join(path@, cv.name),
                kind: ResolvedTypeKind::Component,
            },
        ]);
    }
    let ghost tvs = view_types(c.types);
    proof {
        lemma_view_type_seq(c.types@);
    }
    let n = c.types.len();
    let mut k: usize = 0;
    while k < n
        invariant
            0 <= k <= n,
            n == c.types@.len(),
            tvs == view_types(c.types),
            tvs.len() == n,
            fq@ == spec_join(path@, cv.name),
            cv == view_component(*c),
            forall|m: int| 0 <= m < n ==> tvs[m] == view_type(c.types@[m]),
            view_symbols(*out) == base + seq![
                SymbolEntryV {
                    name: cv.name,
                    path: spec_join(path@, cv.name),
                    kind: ResolvedTypeKind::Component,
                },
            ] + spec_register_types(fq@, tvs.take(k as int)),
        decreases n - k,
    {
        register_type_entries(&fq, &c.types[k], out);
        k = k + 1;
        proof {
            assert(tvs.take(k as int).drop_last() =~= tvs.take(k - 1));
            assert(tvs.take(k as int).last() == tvs[k - 1]);
            assert(view_symbols(*out) =~= base + seq![
                SymbolEntryV {
                    name: cv.name,
                    path: spec_join(path@, cv.name),
                    kind: ResolvedTypeKind::Component,
                },
            ] + spec_register_types(fq@, tvs.take(k as int)));
        }
    }
    proof {
        assert(tvs.take(n as int) =~= tvs);
    }
    register_enums(&fq, &c.enums, out);
    proof {
        assert(view_symbols(*out) =~= base + spec_register_component(path@, cv));
    }
}

/// Registers every declaration of one schema file: components, then types,
/// then enums.
fn register_schema_entries(path: &String, sf: &SchemaFile, out: &mut Vec<SymbolEntry>)
    ensures
        view_symbols(*final(out)) == view_symbols(*old(out)) + spec_register_schema(
            path@,
            view_schema_file(*sf),
        ),
{
    let ghost base = view_symbols(*out);
    let ghost sv = view_schema_file(*sf);
    let ghost cvs = view_components(sf.components);
    let n = sf.components.len();
    let mut k: usize = 0;
    while k < n
        invariant
            0 <= k <= n,
            n == sf.components@.len(),
            cvs == view_components(sf.components),
            cvs.len() == n,
            forall|m: int| 0 <= m < n ==> cvs[m] == view_component(sf.components@[m]),
            view_symbols(*out) == base + spec_register_components(path@, cvs.take(k as int)),
        decreases n - k,
    {
        register_component_entries(path, &sf.components[k], out);
        k = k + 1;
        proof {
            assert(cvs.take(k as int).drop_last() =~= cvs.take(k - 1));
            assert(cvs.take(k as int).last() == cvs[k - 1]);
            assert(view_symbols(*out) =~= base + spec_register_components(
                path@,
                cvs.take(k as int),
            ));
        }
    }
    proof {
        assert(cvs.take(n as int) =~= cvs);
    }
    let ghost tvs = view_types(sf.types);
    proof {
        lemma_view_type_seq(sf.types@);
    }
    let tn = sf.types.len();
    let mut k2: usize = 0;
    while k2 < tn
        invariant
            0 <= k2 <= tn,
            tn == sf.types@.len(),
            tvs == view_types(sf.types),
            tvs.len() == tn,
            cvs == view_components(sf.components),
            forall|m: int| 0 <= m < tn ==> tvs[m] == view_type(sf.types@[m]),
            view_symbols(*out) == base + spec_register_components(path@, cvs)
                + spec_register_types(path@, tvs.take(k2 as int)),
        decreases tn - k2,
    {
        register_type_entries(path, &sf.types[k2], out);
        k2 = k2 + 1;
        proof {
            assert(tvs.take(k2 as int).drop_last() =~= tvs.take(k2 - 1));
            assert(tvs.take(k2 as int).last() == tvs[k2 - 1]);
            assert(view_symbols(*out) =~= base + spec_register_components(path@, cvs)
                + spec_register_types(path@, tvs.take(k2 as int)));
        }
    }
    proof {
        assert(tvs.take(tn as int) =~= tvs);
    }
    register_enums(path, &sf.enums, out);
    proof {
        assert(view_symbols(*out) =~= base + spec_register_schema(path@, sv));
    }
}

/// Registers everything below one forest node.
fn register_node_entries(path: &String, node: &ASTNode, out: &mut Vec<SymbolEntry>)
    ensures
        view_symbols(*final(out)) == view_symbols(*old(out)) + spec_register_node(
            path@,
            view_ast_node(*node),
        ),
    decreases *node,
{
    let ghost base = view_symbols(*out);
    let ghost nv = view_ast_node(*node);
    match node {
        ASTNode::SchemaNode(sf) => {
            register_schema_entries(path, sf, out);
        },
        ASTNode::PackageNode(p) => {
            let fq = join_path(path, &p.name);
            let ghost ivs = view_ast_nodes(p.inner);
            proof {
                lemma_view_ast_node_seq(p.inner@);
            }
            let n = p.inner.len();
            let mut k: usize = 0;
            while k < n
                invariant
                    0 <= k <= n,
                    n == p.inner@.len(),
                    ivs == view_ast_nodes(p.inner),
                    ivs.len() == n,
                    fq@ == spec_join(path@, p.name@),
                    *node == ASTNode::PackageNode(*p),
                    forall|m: int| 0 <= m < n ==> ivs[m] == view_ast_node(p.inner@[m]),
                    view_symbols(*out) == base + spec_register_nodes(fq@, ivs.take(k as int)),
                decreases n - k,
            {
                proof {
                    assert(*node == ASTNode::PackageNode(*p));
                    assert(node->PackageNode_0.inner == p.inner);
                    assert(decreases_to!(*node => node->PackageNode_0.inner));
                    assert(decreases_to!(*node => p.inner));
                    assert(decreases_to!(p.inner => p.inner@));
                    assert(decreases_to!(p.inner@ => p.inner@[k as int]));
                }
                register_node_entries(&fq, &p.inner[k], out);
                k = k + 1;
                proof {
                    assert(ivs.take(k as int).drop_last() =~= ivs.take(k - 1));
                    assert(ivs.take(k as int).last() == ivs[k - 1]);
                    assert(view_symbols(*out) =~= base + spec_register_nodes(
                        fq@,
                        ivs.take(k as int),
                    ));
                }
            }
            proof {
                assert(ivs.take(n as int) =~= ivs);
            }
        },
    }
}

// ---------------------------------------------------------------------------
// Rewrite pass: specification
// ---------------------------------------------------------------------------

/// Rewrites one field-position type: unresolved references are replaced by
/// their registered path and kind; a missing registration, or a component
/// reference, fails.
pub open spec fn spec_resolve_field_type(tbl: Seq<SymbolEntryV>, d: DataTypeV) -> Result<
    DataTypeV,
    ResolveErrorV,
>
    decreases d,
{
    match d {
        DataTypeV::UserDefined(u) => match u {
            UserDefinedTypeV::Unresolved(n) => match spec_lookup(tbl, n) {
                None => Err(ResolveErrorV::UnknownType(n)),
                Some((p, k)) => {
                    if k is Component {
                        Err(ResolveErrorV::ComponentInFieldPosition(n))
                    } else {
                        Ok(DataTypeV::UserDefined(UserDefinedTypeV::Resolved(p, k)))
                    }
                },
            },
            UserDefinedTypeV::Resolved(p, k) => Ok(
                DataTypeV::UserDefined(UserDefinedTypeV::Resolved(p, k)),
            ),
        },
        DataTypeV::Mapping(k, v) => match spec_resolve_field_type(tbl, *k) {
            Err(e) => Err(e),
            Ok(rk) => match spec_resolve_field_type(tbl, *v) {
                Err(e) => Err(e),
                Ok(rv) => Ok(DataTypeV::Mapping(Box::new(rk), Box::new(rv))),
            },
        },
        DataTypeV::List(t) => match spec_resolve_field_type(tbl, *t) {
            Err(e) => Err(e),
            Ok(rt) => Ok(DataTypeV::List(Box::new(rt))),
        },
        DataTypeV::Option(t) => match spec_resolve_field_type(tbl, *t) {
            Err(e) => Err(e),
            Ok(rt) => Ok(DataTypeV::Option(Box::new(rt))),
        },
        _ => Ok(d),
    }
}

/// Rewrites one event payload type: every user-defined reference in it must
/// resolve to a type declaration.
pub open spec fn spec_resolve_event_type(tbl: Seq<SymbolEntryV>, d: DataTypeV) -> Result<
    DataTypeV,
    ResolveErrorV,
>
    decreases d,
{
    match d {
        DataTypeV::UserDefined(u) => match u {
            UserDefinedTypeV::Unresolved(n) => match spec_lookup(tbl, n) {
                None => Err(ResolveErrorV::UnknownType(n)),
                Some((p, k)) => {
                    if k is Type {
                        Ok(DataTypeV::UserDefined(UserDefinedTypeV::Resolved(p, k)))
                    } else {
                        Err(ResolveErrorV::InvalidEventPayload(n))
                    }
                },
            },
            UserDefinedTypeV::Resolved(p, k) => Ok(
                DataTypeV::UserDefined(UserDefinedTypeV::Resolved(p, k)),
            ),
        },
        DataTypeV::Mapping(k, v) => match spec_resolve_event_type(tbl, *k) {
            Err(e) => Err(e),
            Ok(rk) => match spec_resolve_event_type(tbl, *v) {
                Err(e) => Err(e),
                Ok(rv) => Ok(DataTypeV::Mapping(Box::new(rk), Box::new(rv))),
            },
        },
        DataTypeV::List(t) => match spec_resolve_event_type(tbl, *t) {
            Err(e) => Err(e),
            Ok(rt) => Ok(DataTypeV::List(Box::new(rt))),
        },
        DataTypeV::Option(t) => match spec_resolve_event_type(tbl, *t) {
            Err(e) => Err(e),
            Ok(rt) => Ok(DataTypeV::Option(Box::new(rt))),
        },
        _ => Ok(d),
    }
}

pub open spec fn spec_resolve_args(tbl: Seq<SymbolEntryV>, ds: Seq<DataTypeV>) -> Result<
    Seq<DataTypeV>,
    ResolveErrorV,
>
    decreases ds.len(),
{
    if ds.len() == 0 {
        Ok(Seq::empty())
    } else {
        match spec_resolve_field_type(tbl, ds[0]) {
            Err(e) => Err(e),
            Ok(d) => match spec_resolve_args(tbl, ds.skip(1)) {
                Err(e) => Err(e),
                Ok(rest) => Ok(seq![d] + rest),
            },
        }
    }
}

pub open spec fn spec_resolve_member(tbl: Seq<SymbolEntryV>, m: MemberV) -> Result<
    MemberV,
    ResolveErrorV,
> {
    match spec_resolve_field_type(tbl, m.m_type) {
        Err(e) => Err(e),
        Ok(t) => Ok(MemberV { m_type: t, ..m }),
    }
}

pub open spec fn spec_resolve_members(tbl: Seq<SymbolEntryV>, ms: Seq<MemberV>) -> Result<
    Seq<MemberV>,
    ResolveErrorV,
>
    decreases ms.len(),
{
    if ms.len() == 0 {
        Ok(Seq::empty())
    } else {
        match spec_resolve_member(tbl, ms[0]) {
            Err(e) => Err(e),
            Ok(m) => match spec_resolve_members(tbl, ms.skip(1)) {
                Err(e) => Err(e),
                Ok(rest) => Ok(seq![m] + rest),
            },
        }
    }
}

pub open spec fn spec_resolve_event(tbl: Seq<SymbolEntryV>, e: EventV) -> Result<
    EventV,
    ResolveErrorV,
> {
    match spec_resolve_event_type(tbl, e.r_type) {
        Err(er) => Err(er),
        Ok(t) => Ok(EventV { r_type: t, ..e }),
    }
}

pub open spec fn spec_resolve_events(tbl: Seq<SymbolEntryV>, es: Seq<EventV>) -> Result<
    Seq<EventV>,
    ResolveErrorV,
>
    decreases es.len(),
{
    if es.len() == 0 {
        Ok(Seq::empty())
    } else {
        match spec_resolve_event(tbl, es[0]) {
            Err(e) => Err(e),
            Ok(ev) => match spec_resolve_events(tbl, es.skip(1)) {
                Err(e) => Err(e),
                Ok(rest) => Ok(seq![ev] + rest),
            },
        }
    }
}

pub open spec fn spec_resolve_command(tbl: Seq<SymbolEntryV>, c: CommandV) -> Result<
    CommandV,
    ResolveErrorV,
> {
    match spec_resolve_field_type(tbl, c.r_type) {
        Err(e) => Err(e),
        Ok(rt) => match spec_resolve_args(tbl, c.args) {
            Err(e) => Err(e),
            Ok(args) => Ok(CommandV { r_type: rt, args, ..c }),
        },
    }
}

pub open spec fn spec_resolve_commands(tbl: Seq<SymbolEntryV>, cs: Seq<CommandV>) -> Result<
    Seq<CommandV>,
    ResolveErrorV,
>
    decreases cs.len(),
{
    if cs.len() == 0 {
        Ok(Seq::empty())
    } else {
        match spec_resolve_command(tbl, cs[0]) {
            Err(e) => Err(e),
            Ok(c) => match spec_resolve_commands(tbl, cs.skip(1)) {
                Err(e) => Err(e),
                Ok(rest) => Ok(seq![c] + rest),
            },
        }
    }
}

/// The structural size of a type declaration, used as a recursion measure.
pub open spec fn height_type(t: TypeV) -> nat
    decreases t, 1int,
{
    1 + height_type_list(t.types)
}

pub open spec fn height_type_list(ts: Seq<TypeV>) -> nat
    decreases ts, 0int,
{
    if ts.len() == 0 {
        0
    } else {
        1 + height_type(ts[0]) + height_type_list(ts.skip(1))
    }
}

/// Rewrites a type declaration: its members, then its nested types.
pub open spec fn spec_resolve_type_decl(tbl: Seq<SymbolEntryV>, t: TypeV) -> Result<
    TypeV,
    ResolveErrorV,
>
    decreases height_type(t), 1int,
{
    match spec_resolve_members(tbl, t.members) {
        Err(e) => Err(e),
        Ok(ms) => match spec_resolve_type_list(tbl, t.types) {
            Err(e) => Err(e),
            Ok(ts) => Ok(TypeV { members: ms, types: ts, ..t }),
        },
    }
}

pub open spec fn spec_resolve_type_list(tbl: Seq<SymbolEntryV>, ts: Seq<TypeV>) -> Result<
    Seq<TypeV>,
    ResolveErrorV,
>
    decreases height_type_list(ts), 0int,
{
    if ts.len() == 0 {
        Ok(Seq::empty())
    } else {
        match spec_resolve_type_decl(tbl, ts[0]) {
            Err(e) => Err(e),
            Ok(t) => match spec_resolve_type_list(tbl, ts.skip(1)) {
                Err(e) => Err(e),
                Ok(rest) => Ok(seq![t] + rest),
            },
        }
    }
}

/// Rewrites a component: its members, events and commands, then its nested
/// types.
pub open spec fn spec_resolve_component(tbl: Seq<SymbolEntryV>, c: ComponentV) -> Result<
    ComponentV,
    ResolveErrorV,
> {
    match spec_resolve_members(tbl, c.members) {
        Err(e) => Err(e),
        Ok(ms) => match spec_resolve_events(tbl, c.events) {
            Err(e) => Err(e),
            Ok(evs) => match spec_resolve_commands(tbl, c.commands) {
                Err(e) => Err(e),
                Ok(cds) => match spec_resolve_type_list(tbl, c.types) {
                    Err(e) => Err(e),
                    Ok(ts) => Ok(
                        ComponentV { members: ms, events: evs, commands: cds, types: ts, ..c },
                    ),
                },
            },
        },
    }
}

pub open spec fn spec_resolve_components(tbl: Seq<SymbolEntryV>, cs: Seq<ComponentV>) -> Result<
    Seq<ComponentV>,
    ResolveErrorV,
>
    decreases cs.len(),
{
    if cs.len() == 0 {
        Ok(Seq::empty())
    } else {
        match spec_resolve_component(tbl, cs[0]) {
            Err(e) => Err(e),
            Ok(c) => match spec_resolve_components(tbl, cs.skip(1)) {
                Err(e) => Err(e),
                Ok(rest) => Ok(seq![c] + rest),
            },
        }
    }
}

/// Rewrites one schema file: its components, then its types.
pub open spec fn spec_resolve_schema(tbl: Seq<SymbolEntryV>, sf: SchemaFileV) -> Result<
    SchemaFileV,
    ResolveErrorV,
> {
    match spec_resolve_components(tbl, sf.components) {
        Err(e) => Err(e),
        Ok(cs) => match spec_resolve_type_list(tbl, sf.types) {
            Err(e) => Err(e),
            Ok(ts) => Ok(SchemaFileV { components: cs, types: ts, ..sf }),
        },
    }
}

/// The structural size of a forest node, used as a recursion measure.
pub open spec fn height_node(n: ASTNodeV) -> nat
    decreases n, 1int,
{
    match n {
        ASTNodeV::SchemaNode(_) => 1,
        ASTNodeV::PackageNode(p) => 1 + height_node_list(p.inner),
    }
}

pub open spec fn height_node_list(ns: Seq<ASTNodeV>) -> nat
    decreases ns, 0int,
{
    if ns.len() == 0 {
        0
    } else {
        1 + height_node(ns[0]) + height_node_list(ns.skip(1))
    }
}

pub open spec fn spec_resolve_node(tbl: Seq<SymbolEntryV>, n: ASTNodeV) -> Result<
    ASTNodeV,
    ResolveErrorV,
>
    decreases height_node(n), 1int,
{
    match n {
        ASTNodeV::SchemaNode(sf) => match spec_resolve_schema(tbl, sf) {
            Err(e) => Err(e),
            Ok(r) => Ok(ASTNodeV::SchemaNode(r)),
        },
        ASTNodeV::PackageNode(p) => match spec_resolve_node_list(tbl, p.inner) {
            Err(e) => Err(e),
            Ok(inner) => Ok(ASTNodeV::PackageNode(PackageNodeV { inner, ..p })),
        },
    }
}

pub open spec fn spec_resolve_node_list(tbl: Seq<SymbolEntryV>, ns: Seq<ASTNodeV>) -> Result<
    Seq<ASTNodeV>,
    ResolveErrorV,
>
    decreases height_node_list(ns), 0int,
{
    if ns.len() == 0 {
        Ok(Seq::empty())
    } else {
        match spec_resolve_node(tbl, ns[0]) {
            Err(e) => Err(e),
            Ok(n) => match spec_resolve_node_list(tbl, ns.skip(1)) {
                Err(e) => Err(e),
                Ok(rest) => Ok(seq![n] + rest),
            },
        }
    }
}

// ---------------------------------------------------------------------------
// Rewrite pass: executable
// ---------------------------------------------------------------------------

/// Rewrites one field-position type.
fn resolve_field_type(tbl: &Vec<SymbolEntry>, d: DataType) -> (r: Result<DataType, ResolveError>)
    ensures
        r is Ok <==> spec_resolve_field_type(view_symbols(*tbl), view_data_type(d)) is Ok,
        r is Ok ==> view_data_type(r->Ok_0) == spec_resolve_field_type(
            view_symbols(*tbl),
            view_data_type(d),
        )->Ok_0,
        r is Err ==> r->Err_0@ == spec_resolve_field_type(
            view_symbols(*tbl),
            view_data_type(d),
        )->Err_0,
    decreases d,
{
    match d {
        DataType::UserDefined(u) => match u {
            UserDefinedType::Unresolved(n) => match lookup(tbl, &n) {
                None => Err(ResolveError::UnknownType(n)),
                Some((p, k)) => match k {
                    ResolvedTypeKind::Component => Err(ResolveError::ComponentInFieldPosition(n)),
                    _ => Ok(DataType::UserDefined(UserDefinedType::Resolved(p, k))),
                },
            },
            UserDefinedType::Resolved(p, k) => Ok(
                DataType::UserDefined(UserDefinedType::Resolved(p, k)),
            ),
        },
        DataType::Mapping(k, v) => match resolve_field_type(tbl, *k) {
            Err(e) => Err(e),
            Ok(rk) => match resolve_field_type(tbl, *v) {
                Err(e) => Err(e),
                Ok(rv) => Ok(DataType::Mapping(Box::new(rk), Box::new(rv))),
            },
        },
        DataType::List(t) => match resolve_field_type(tbl, *t) {
            Err(e) => Err(e),
            Ok(rt) => Ok(DataType::List(Box::new(rt))),
        },
        DataType::Option(t) => match resolve_field_type(tbl, *t) {
            Err(e) => Err(e),
            Ok(rt) => Ok(DataType::Option(Box::new(rt))),
        },
        other => Ok(other),
    }
}

/// Rewrites one event payload type.
fn resolve_event_type(tbl: &Vec<SymbolEntry>, d: DataType) -> (r: Result<DataType, ResolveError>)
    ensures
        r is Ok <==> spec_resolve_event_type(view_symbols(*tbl), view_data_type(d)) is Ok,
        r is Ok ==> view_data_type(r->Ok_0) == spec_resolve_event_type(
            view_symbols(*tbl),
            view_data_type(d),
        )->Ok_0,
        r is Err ==> r->Err_0@ == spec_resolve_event_type(
            view_symbols(*tbl),
            view_data_type(d),
        )->Err_0,
    decreases d,
{
    match d {
        DataType::UserDefined(u) => match u {
            UserDefinedType::Unresolved(n) => match lookup(tbl, &n) {
                None => Err(ResolveError::UnknownType(n)),
                Some((p, k)) => match k {
                    ResolvedTypeKind::Type => Ok(
                        DataType::UserDefined(UserDefinedType::Resolved(p, k)),
                    ),
                    _ => Err(ResolveError::InvalidEventPayload(n)),
                },
            },
            UserDefinedType::Resolved(p, k) => Ok(
                DataType::UserDefined(UserDefinedType::Resolved(p, k)),
            ),
        },
        DataType::Mapping(k, v) => match resolve_event_type(tbl, *k) {
            Err(e) => Err(e),
            Ok(rk) => match resolve_event_type(tbl, *v) {
                Err(e) => Err(e),
                Ok(rv) => Ok(DataType::Mapping(Box::new(rk), Box::new(rv))),
            },
        },
        DataType::List(t) => match resolve_event_type(tbl, *t) {
            Err(e) => Err(e),
            Ok(rt) => Ok(DataType::List(Box::new(rt))),
        },
        DataType::Option(t) => match resolve_event_type(tbl, *t) {
            Err(e) => Err(e),
            Ok(rt) => Ok(DataType::Option(Box::new(rt))),
        },
        other => Ok(other),
    }
}

/// Rewrites a command argument list.
fn resolve_args(tbl: &Vec<SymbolEntry>, ds: Vec<DataType>) -> (r: Result<
    Vec<DataType>,
    ResolveError,
>)
    ensures
        r is Ok <==> spec_resolve_args(view_symbols(*tbl), view_data_types(ds)) is Ok,
        r is Ok ==> view_data_types(r->Ok_0) == spec_resolve_args(
            view_symbols(*tbl),
            view_data_types(ds),
        )->Ok_0,
        r is Err ==> r->Err_0@ == spec_resolve_args(
            view_symbols(*tbl),
            view_data_types(ds),
        )->Err_0,
    decreases ds@.len(),
{
    let ghost dvs = view_data_types(ds);
    let mut ds = ds;
    if ds.len() == 0 {
        proof {
            assert(view_data_types(ds) =~= Seq::<DataTypeV>::empty());
        }
        Ok(ds)
    } else {
        let head = ds.remove(0);
        proof {
            assert(view_data_types(ds) =~= dvs.skip(1));
        }
        match resolve_field_type(tbl, head) {
            Err(e) => Err(e),
            Ok(d) => match resolve_args(tbl, ds) {
                Err(e) => Err(e),
                Ok(rest) => {
                    let mut out = rest;
                    out.insert(0, d);
                    proof {
                        assert(view_data_types(out) =~= seq![view_data_type(d)]
                            + spec_resolve_args(view_symbols(*tbl), dvs.skip(1))->Ok_0);
                    }
                    Ok(out)
                },
            },
        }
    }
}

/// Rewrites one member.
fn resolve_member(tbl: &Vec<SymbolEntry>, m: Member) -> (r: Result<Member, ResolveError>)
    ensures
        r is Ok <==> spec_resolve_member(view_symbols(*tbl), view_member(m)) is Ok,
        r is Ok ==> view_member(r->Ok_0) == spec_resolve_member(
            view_symbols(*tbl),
            view_member(m),
        )->Ok_0,
        r is Err ==> r->Err_0@ == spec_resolve_member(view_symbols(*tbl), view_member(m))->Err_0,
{
    let Member { name, m_type, id, comments } = m;
    match resolve_field_type(tbl, m_type) {
        Err(e) => Err(e),
        Ok(t) => Ok(Member { name, m_type: t, id, comments }),
    }
}

/// Rewrites a member list.
fn resolve_members(tbl: &Vec<SymbolEntry>, ms: Vec<Member>) -> (r: Result<Vec<Member>, ResolveError>)
    ensures
        r is Ok <==> spec_resolve_members(view_symbols(*tbl), view_members(ms)) is Ok,
        r is Ok ==> view_members(r->Ok_0) == spec_resolve_members(
            view_symbols(*tbl),
            view_members(ms),
        )->Ok_0,
        r is Err ==> r->Err_0@ == spec_resolve_members(
            view_symbols(*tbl),
            view_members(ms),
        )->Err_0,
    decreases ms@.len(),
{
    let ghost mvs = view_members(ms);
    let mut ms = ms;
    if ms.len() == 0 {
        proof {
            assert(view_members(ms) =~= Seq::<MemberV>::empty());
        }
        Ok(ms)
    } else {
        let head = ms.remove(0);
        proof {
            assert(view_members(ms) =~= mvs.skip(1));
        }
        match resolve_member(tbl, head) {
            Err(e) => Err(e),
            Ok(m) => match resolve_members(tbl, ms) {
                Err(e) => Err(e),
                Ok(rest) => {
                    let mut out = rest;
                    out.insert(0, m);
                    proof {
                        assert(view_members(out) =~= seq![view_member(m)] + spec_resolve_members(
                            view_symbols(*tbl),
                            mvs.skip(1),
                        )->Ok_0);
                    }
                    Ok(out)
                },
            },
        }
    }
}

/// Rewrites one event.
fn resolve_event(tbl: &Vec<SymbolEntry>, e: Event) -> (r: Result<Event, ResolveError>)
    ensures
        r is Ok <==> spec_resolve_event(view_symbols(*tbl), view_event(e)) is Ok,
        r is Ok ==> view_event(r->Ok_0) == spec_resolve_event(
            view_symbols(*tbl),
            view_event(e),
        )->Ok_0,
        r is Err ==> r->Err_0@ == spec_resolve_event(view_symbols(*tbl), view_event(e))->Err_0,
{
    let Event { name, r_type } = e;
    match resolve_event_type(tbl, r_type) {
        Err(er) => Err(er),
        Ok(t) => Ok(Event { name, r_type: t }),
    }
}

/// Rewrites an event list.
fn resolve_events(tbl: &Vec<SymbolEntry>, es: Vec<Event>) -> (r: Result<Vec<Event>, ResolveError>)
    ensures
        r is Ok <==> spec_resolve_events(view_symbols(*tbl), view_events(es)) is Ok,
        r is Ok ==> view_events(r->Ok_0) == spec_resolve_events(
            view_symbols(*tbl),
            view_events(es),
        )->Ok_0,
        r is Err ==> r->Err_0@ == spec_resolve_events(view_symbols(*tbl), view_events(es))->Err_0,
    decreases es@.len(),
{
    let ghost evs = view_events(es);
    let mut es = es;
    if es.len() == 0 {
        proof {
            assert(view_events(es) =~= Seq::<EventV>::empty());
        }
        Ok(es)
    } else {
        let head = es.remove(0);
        proof {
            assert(view_events(es) =~= evs.skip(1));
        }
        match resolve_event(tbl, head) {
            Err(e) => Err(e),
            Ok(ev) => match resolve_events(tbl, es) {
                Err(e) => Err(e),
                Ok(rest) => {
                    let mut out = rest;
                    out.insert(0, ev);
                    proof {
                        assert(view_events(out) =~= seq![view_event(ev)] + spec_resolve_events(
                            view_symbols(*tbl),
                            evs.skip(1),
                        )->Ok_0);
                    }
                    Ok(out)
                },
            },
        }
    }
}

/// Rewrites one command.
fn resolve_command(tbl: &Vec<SymbolEntry>, c: Command) -> (r: Result<Command, ResolveError>)
    ensures
        r is Ok <==> spec_resolve_command(view_symbols(*tbl), view_command(c)) is Ok,
        r is Ok ==> view_command(r->Ok_0) == spec_resolve_command(
            view_symbols(*tbl),
            view_command(c),
        )->Ok_0,
        r is Err ==> r->Err_0@ == spec_resolve_command(view_symbols(*tbl), view_command(c))->Err_0,
{
    let Command { name, r_type, args } = c;
    match resolve_field_type(tbl, r_type) {
        Err(e) => Err(e),
        Ok(rt) => match resolve_args(tbl, args) {
            Err(e) => Err(e),
            Ok(rargs) => Ok(Command { name, r_type: rt, args: rargs }),
        },
    }
}

/// Rewrites a command list.
fn resolve_commands(tbl: &Vec<SymbolEntry>, cs: Vec<Command>) -> (r: Result<
    Vec<Command>,
    ResolveError,
>)
    ensures
        r is Ok <==> spec_resolve_commands(view_symbols(*tbl), view_commands(cs)) is Ok,
        r is Ok ==> view_commands(r->Ok_0) == spec_resolve_commands(
            view_symbols(*tbl),
            view_commands(cs),
        )->Ok_0,
        r is Err ==> r->Err_0@ == spec_resolve_commands(
            view_symbols(*tbl),
            view_commands(cs),
        )->Err_0,
    decreases cs@.len(),
{
    let ghost cvs = view_commands(cs);
    let mut cs = cs;
    if cs.len() == 0 {
        proof {
            assert(view_commands(cs) =~= Seq::<CommandV>::empty());
        }
        Ok(cs)
    } else {
        let head = cs.remove(0);
        proof {
            assert(view_commands(cs) =~= cvs.skip(1));
        }
        match resolve_command(tbl, head) {
            Err(e) => Err(e),
            Ok(c) => match resolve_commands(tbl, cs) {
                Err(e) => Err(e),
                Ok(rest) => {
                    let mut out = rest;
                    out.insert(0, c);
                    proof {
                        assert(view_commands(out) =~= seq![view_command(c)]
                            + spec_resolve_commands(view_symbols(*tbl), cvs.skip(1))->Ok_0);
                    }
                    Ok(out)
                },
            },
        }
    }
}

/// Rewrites a type declaration.
fn resolve_type_decl(tbl: &Vec<SymbolEntry>, t: Type) -> (r: Result<Type, ResolveError>)
    ensures
        r is Ok <==> spec_resolve_type_decl(view_symbols(*tbl), view_type(t)) is Ok,
        r is Ok ==> view_type(r->Ok_0) == spec_resolve_type_decl(
            view_symbols(*tbl),
            view_type(t),
        )->Ok_0,
        r is Err ==> r->Err_0@ == spec_resolve_type_decl(view_symbols(*tbl), view_type(t))->Err_0,
    decreases height_type(view_type(t)), 1int,
{
    let ghost tv = view_type(t);
    let Type { name, members, comments, types, enums } = t;
    match resolve_members(tbl, members) {
        Err(e) => Err(e),
        Ok(ms) => {
            match resolve_type_list(tbl, types) {
                Err(e) => Err(e),
                Ok(ts) => {
                    let out = Type { name, members: ms, comments, types: ts, enums };
                    Ok(out)
                },
            }
        },
    }
}

/// Rewrites a list of type declarations.
fn resolve_type_list(tbl: &Vec<SymbolEntry>, ts: Vec<Type>) -> (r: Result<Vec<Type>, ResolveError>)
    ensures
        r is Ok <==> spec_resolve_type_list(view_symbols(*tbl), view_types(ts)) is Ok,
        r is Ok ==> view_types(r->Ok_0) == spec_resolve_type_list(
            view_symbols(*tbl),
            view_types(ts),
        )->Ok_0,
        r is Err ==> r->Err_0@ == spec_resolve_type_list(
            view_symbols(*tbl),
            view_types(ts),
        )->Err_0,
    decreases height_type_list(view_types(ts)), 0int,
{
    let ghost tvs = view_types(ts);
    proof {
        lemma_view_type_seq(ts@);
    }
    let mut ts = ts;
    if ts.len() == 0 {
        proof {
            assert(view_types(ts) =~= Seq::<TypeV>::empty());
        }
        Ok(ts)
    } else {
        let head = ts.remove(0);
        proof {
            lemma_view_type_seq(ts@);
            assert(view_types(ts) =~= tvs.skip(1));
            assert(view_type(head) == tvs[0]);
        }
        match resolve_type_decl(tbl, head) {
            Err(e) => Err(e),
            Ok(t) => match resolve_type_list(tbl, ts) {
                Err(e) => Err(e),
                Ok(rest) => {
                    let ghost rest_seq = rest@;
                    let ghost rv = view_types(rest);
                    let mut out = rest;
                    let ghost tv = view_type(t);
                    out.insert(0, t);
                    proof {
                        lemma_view_type_seq(rest_seq);
                        lemma_view_type_seq(out@);
                        assert(out@ =~= rest_seq.insert(0, t));
                        assert forall|i: int| 0 <= i < out@.len() implies #[trigger] view_types(
                            out,
                        )[i] == (seq![tv] + rv)[i] by {
                            if i > 0 {
                                assert(out@[i] == rest_seq[i - 1]);
                            }
                        }
                        assert(view_types(out) =~= seq![tv] + spec_resolve_type_list(
                            view_symbols(*tbl),
                            tvs.skip(1),
                        )->Ok_0);
                    }
                    Ok(out)
                },
            },
        }
    }
}

/// Rewrites one component.
fn resolve_component(tbl: &Vec<SymbolEntry>, c: Component) -> (r: Result<Component, ResolveError>)
    ensures
        r is Ok <==> spec_resolve_component(view_symbols(*tbl), view_component(c)) is Ok,
        r is Ok ==> view_component(r->Ok_0) == spec_resolve_component(
            view_symbols(*tbl),
            view_component(c),
        )->Ok_0,
        r is Err ==> r->Err_0@ == spec_resolve_component(
            view_symbols(*tbl),
            view_component(c),
        )->Err_0,
{
    let Component { name, id, members, events, commands, comments, enums, types } = c;
    match resolve_members(tbl, members) {
        Err(e) => Err(e),
        Ok(ms) => match resolve_events(tbl, events) {
            Err(e) => Err(e),
            Ok(evs) => match resolve_commands(tbl, commands) {
                Err(e) => Err(e),
                Ok(cds) => match resolve_type_list(tbl, types) {
                    Err(e) => Err(e),
                    Ok(ts) => Ok(
                        Component {
                            name,
                            id,
                            members: ms,
                            events: evs,
                            commands: cds,
                            comments,
                            enums,
                            types: ts,
                        },
                    ),
                },
            },
        },
    }
}

/// Rewrites a component list.
fn resolve_components(tbl: &Vec<SymbolEntry>, cs: Vec<Component>) -> (r: Result<
    Vec<Component>,
    ResolveError,
>)
    ensures
        r is Ok <==> spec_resolve_components(view_symbols(*tbl), view_components(cs)) is Ok,
        r is Ok ==> view_components(r->Ok_0) == spec_resolve_components(
            view_symbols(*tbl),
            view_components(cs),
        )->Ok_0,
        r is Err ==> r->Err_0@ == spec_resolve_components(
            view_symbols(*tbl),
            view_components(cs),
        )->Err_0,
    decreases cs@.len(),
{
    let ghost cvs = view_components(cs);
    let mut cs = cs;
    if cs.len() == 0 {
        proof {
            assert(view_components(cs) =~= Seq::<ComponentV>::empty());
        }
        Ok(cs)
    } else {
        let head = cs.remove(0);
        proof {
            assert(view_components(cs) =~= cvs.skip(1));
        }
        match resolve_component(tbl, head) {
            Err(e) => Err(e),
            Ok(c) => match resolve_components(tbl, cs) {
                Err(e) => Err(e),
                Ok(rest) => {
                    let mut out = rest;
                    let ghost cv = view_component(c);
                    out.insert(0, c);
                    proof {
                        assert(view_components(out) =~= seq![cv] + spec_resolve_components(
                            view_symbols(*tbl),
                            cvs.skip(1),
                        )->Ok_0);
                    }
                    Ok(out)
                },
            },
        }
    }
}

/// Rewrites one schema file.
fn resolve_schema(tbl: &Vec<SymbolEntry>, sf: SchemaFile) -> (r: Result<SchemaFile, ResolveError>)
    ensures
        r is Ok <==> spec_resolve_schema(view_symbols(*tbl), view_schema_file(sf)) is Ok,
        r is Ok ==> view_schema_file(r->Ok_0) == spec_resolve_schema(
            view_symbols(*tbl),
            view_schema_file(sf),
        )->Ok_0,
        r is Err ==> r->Err_0@ == spec_resolve_schema(
            view_symbols(*tbl),
            view_schema_file(sf),
        )->Err_0,
{
    let SchemaFile { package_name, name, types, enums, components } = sf;
    match resolve_components(tbl, components) {
        Err(e) => Err(e),
        Ok(cs) => match resolve_type_list(tbl, types) {
            Err(e) => Err(e),
            Ok(ts) => Ok(SchemaFile { package_name, name, types: ts, enums, components: cs }),
        },
    }
}

/// Rewrites one forest node.
fn resolve_node(tbl: &Vec<SymbolEntry>, n: ASTNode) -> (r: Result<ASTNode, ResolveError>)
    ensures
        r is Ok <==> spec_resolve_node(view_symbols(*tbl), view_ast_node(n)) is Ok,
        r is Ok ==> view_ast_node(r->Ok_0) == spec_resolve_node(
            view_symbols(*tbl),
            view_ast_node(n),
        )->Ok_0,
        r is Err ==> r->Err_0@ == spec_resolve_node(view_symbols(*tbl), view_ast_node(n))->Err_0,
    decreases height_node(view_ast_node(n)), 1int,
{
    match n {
        ASTNode::SchemaNode(sf) => match resolve_schema(tbl, sf) {
            Err(e) => Err(e),
            Ok(r) => Ok(ASTNode::SchemaNode(r)),
        },
        ASTNode::PackageNode(p) => {
            let PackageNode { name, inner } = p;
            match resolve_node_list(tbl, inner) {
                Err(e) => Err(e),
                Ok(rinner) => Ok(ASTNode::PackageNode(PackageNode { name, inner: rinner })),
            }
        },
    }
}

/// Rewrites a list of forest nodes.
fn resolve_node_list(tbl: &Vec<SymbolEntry>, ns: Vec<ASTNode>) -> (r: Result<
    Vec<ASTNode>,
    ResolveError,
>)
    ensures
        r is Ok <==> spec_resolve_node_list(view_symbols(*tbl), view_ast_nodes(ns)) is Ok,
        r is Ok ==> view_ast_nodes(r->Ok_0) == spec_resolve_node_list(
            view_symbols(*tbl),
            view_ast_nodes(ns),
        )->Ok_0,
        r is Err ==> r->Err_0@ == spec_resolve_node_list(
            view_symbols(*tbl),
            view_ast_nodes(ns),
        )->Err_0,
    decreases height_node_list(view_ast_nodes(ns)), 0int,
{
    let ghost nvs = view_ast_nodes(ns);
    proof {
        lemma_view_ast_node_seq(ns@);
    }
    let mut ns = ns;
    if ns.len() == 0 {
        proof {
            assert(view_ast_nodes(ns) =~= Seq::<ASTNodeV>::empty());
        }
        Ok(ns)
    } else {
        let head = ns.remove(0);
        proof {
            lemma_view_ast_node_seq(ns@);
            assert(view_ast_nodes(ns) =~= nvs.skip(1));
            assert(view_ast_node(head) == nvs[0]);
        }
        match resolve_node(tbl, head) {
            Err(e) => Err(e),
            Ok(n) => match resolve_node_list(tbl, ns) {
                Err(e) => Err(e),
                Ok(rest) => {
                    let ghost rest_seq = rest@;
                    let ghost rv = view_ast_nodes(rest);
                    let mut out = rest;
                    let ghost nv = view_ast_node(n);
                    out.insert(0, n);
                    proof {
                        lemma_view_ast_node_seq(rest_seq);
                        lemma_view_ast_node_seq(out@);
                        assert(out@ =~= rest_seq.insert(0, n));
                        assert forall|i: int| 0 <= i < out@.len() implies #[trigger] view_ast_nodes(
                            out,
                        )[i] == (seq![nv] + rv)[i] by {
                            if i > 0 {
                                assert(out@[i] == rest_seq[i - 1]);
                            }
                        }
                        assert(view_ast_nodes(out) =~= seq![nv] + spec_resolve_node_list(
                            view_symbols(*tbl),
                            nvs.skip(1),
                        )->Ok_0);
                    }
                    Ok(out)
                },
            },
        }
    }
}

/// The symbol table of a whole forest, rooted at `crate::<module>`.
pub open spec fn spec_symbol_table(module: Seq<char>, ast: ASTV) -> Seq<SymbolEntryV> {
    spec_register_nodes("crate::"@ + module, ast.inner)
}

/// Resolves every type reference in the forest, or fails naming the first
/// identifier that is unknown or used in an illegal position.
pub fn resolve_types(ast: AST, module: &str) -> (r: Result<AST, ResolveError>)
    ensures
        r is Ok <==> spec_resolve_node_list(
            spec_symbol_table(module@, ast@),
            ast@.inner,
        ) is Ok,
        r is Ok ==> r->Ok_0@.inner == spec_resolve_node_list(
            spec_symbol_table(module@, ast@),
            ast@.inner,
        )->Ok_0,
        r is Err ==> r->Err_0@ == spec_resolve_node_list(
            spec_symbol_table(module@, ast@),
            ast@.inner,
        )->Err_0,
        // after a successful pass no unresolved reference remains in the forest
        r is Ok ==> spec_node_list_resolved(r->Ok_0@.inner),
{
    proof {
        lemma_node_list_total(spec_symbol_table(module@, ast@), ast@.inner);
    }
    let mut root = "crate::".to_owned();
    root.append(module);
    let ghost nvs = view_ast_nodes(ast.inner);
    proof {
        lemma_view_ast_node_seq(ast.inner@);
    }
    let mut tbl: Vec<SymbolEntry> = Vec::new();
    let n = ast.inner.len();
    let mut k: usize = 0;
    proof {
        assert(view_symbols(tbl) =~= Seq::<SymbolEntryV>::empty());
        assert(nvs.take(0) =~= Seq::<ASTNodeV>::empty());
    }
    while k < n
        invariant
            0 <= k <= n,
            n == ast.inner@.len(),
            nvs == view_ast_nodes(ast.inner),
            nvs.len() == n,
            root@ == "crate::"@ + module@,
            forall|m: int| 0 <= m < n ==> nvs[m] == view_ast_node(ast.inner@[m]),
            view_symbols(tbl) == spec_register_nodes(root@, nvs.take(k as int)),
        decreases n - k,
    {
        register_node_entries(&root, &ast.inner[k], &mut tbl);
        k = k + 1;
        proof {
            assert(nvs.take(k as int).drop_last() =~= nvs.take(k - 1));
            assert(nvs.take(k as int).last() == nvs[k - 1]);
            assert(view_symbols(tbl) =~= spec_register_nodes(root@, nvs.take(k as int)));
        }
    }
    proof {
        assert(nvs.take(n as int) =~= nvs);
    }
    let AST { inner } = ast;
    match resolve_node_list(&tbl, inner) {
        Err(e) => Err(e),
        Ok(rinner) => Ok(AST { inner: rinner }),
    }
}

// ---------------------------------------------------------------------------
// Resolution laws
// ---------------------------------------------------------------------------

/// No unresolved reference remains in this data type.
pub open spec fn spec_dt_resolved(d: DataTypeV) -> bool
    decreases d,
{
    match d {
        DataTypeV::UserDefined(u) => u is Resolved,
        DataTypeV::Mapping(k, v) => spec_dt_resolved(*k) && spec_dt_resolved(*v),
        DataTypeV::List(t) => spec_dt_resolved(*t),
        DataTypeV::Option(t) => spec_dt_resolved(*t),
        _ => true,
    }
}

pub open spec fn spec_members_resolved(ms: Seq<MemberV>) -> bool {
    forall|i: int| 0 <= i < ms.len() ==> spec_dt_resolved(#[trigger] ms[i].m_type)
}

pub open spec fn spec_events_resolved(es: Seq<EventV>) -> bool {
    forall|i: int| 0 <= i < es.len() ==> spec_dt_resolved(#[trigger] es[i].r_type)
}

pub open spec fn spec_commands_resolved(cs: Seq<CommandV>) -> bool {
    forall|i: int|
        0 <= i < cs.len() ==> spec_dt_resolved(#[trigger] cs[i].r_type) && (forall|j: int|
            0 <= j < cs[i].args.len() ==> spec_dt_resolved(#[trigger] cs[i].args[j]))
}

pub open spec fn spec_type_resolved(t: TypeV) -> bool
    decreases height_type(t), 1int,
{
    spec_members_resolved(t.members) && spec_type_list_resolved(t.types)
}

pub open spec fn spec_type_list_resolved(ts: Seq<TypeV>) -> bool
    decreases height_type_list(ts), 0int,
{
    if ts.len() == 0 {
        true
    } else {
        spec_type_resolved(ts[0]) && spec_type_list_resolved(ts.skip(1))
    }
}

pub open spec fn spec_component_resolved(c: ComponentV) -> bool {
    spec_members_resolved(c.members) && spec_events_resolved(c.events) && spec_commands_resolved(
        c.commands,
    ) && spec_type_list_resolved(c.types)
}

pub open spec fn spec_schema_resolved(sf: SchemaFileV) -> bool {
    (forall|i: int|
        0 <= i < sf.components.len() ==> spec_component_resolved(#[trigger] sf.components[i]))
        && spec_type_list_resolved(sf.types)
}

/// No unresolved reference remains anywhere below this node.
pub open spec fn spec_node_resolved(n: ASTNodeV) -> bool
    decreases height_node(n), 1int,
{
    match n {
        ASTNodeV::SchemaNode(sf) => spec_schema_resolved(sf),
        ASTNodeV::PackageNode(p) => spec_node_list_resolved(p.inner),
    }
}

pub open spec fn spec_node_list_resolved(ns: Seq<ASTNodeV>) -> bool
    decreases height_node_list(ns), 0int,
{
    if ns.len() == 0 {
        true
    } else {
        spec_node_resolved(ns[0]) && spec_node_list_resolved(ns.skip(1))
    }
}

proof fn lemma_field_type_total(tbl: Seq<SymbolEntryV>, d: DataTypeV)
    ensures
        spec_resolve_field_type(tbl, d) is Ok ==> spec_dt_resolved(
            spec_resolve_field_type(tbl, d)->Ok_0,
        ),
    decreases d,
{
    match d {
        DataTypeV::Mapping(k, v) => {
            lemma_field_type_total(tbl, *k);
            lemma_field_type_total(tbl, *v);
        },
        DataTypeV::List(t) => {
            lemma_field_type_total(tbl, *t);
        },
        DataTypeV::Option(t) => {
            lemma_field_type_total(tbl, *t);
        },
        _ => {},
    }
}

proof fn lemma_event_type_total(tbl: Seq<SymbolEntryV>, d: DataTypeV)
    ensures
        spec_resolve_event_type(tbl, d) is Ok ==> spec_dt_resolved(
            spec_resolve_event_type(tbl, d)->Ok_0,
        ),
    decreases d,
{
    match d {
        DataTypeV::Mapping(k, v) => {
            lemma_event_type_total(tbl, *k);
            lemma_event_type_total(tbl, *v);
        },
        DataTypeV::List(t) => {
            lemma_event_type_total(tbl, *t);
        },
        DataTypeV::Option(t) => {
            lemma_event_type_total(tbl, *t);
        },
        _ => {},
    }
}

proof fn lemma_members_total(tbl: Seq<SymbolEntryV>, ms: Seq<MemberV>)
    ensures
        spec_resolve_members(tbl, ms) is Ok ==> spec_members_resolved(
            spec_resolve_members(tbl, ms)->Ok_0,
        ),
    decreases ms.len(),
{
    if ms.len() > 0 {
        lemma_field_type_total(tbl, ms[0].m_type);
        lemma_members_total(tbl, ms.skip(1));
    }
}

proof fn lemma_events_total(tbl: Seq<SymbolEntryV>, es: Seq<EventV>)
    ensures
        spec_resolve_events(tbl, es) is Ok ==> spec_events_resolved(
            spec_resolve_events(tbl, es)->Ok_0,
        ),
    decreases es.len(),
{
    if es.len() > 0 {
        lemma_event_type_total(tbl, es[0].r_type);
        lemma_events_total(tbl, es.skip(1));
    }
}

proof fn lemma_args_total(tbl: Seq<SymbolEntryV>, ds: Seq<DataTypeV>)
    ensures
        spec_resolve_args(tbl, ds) is Ok ==> forall|j: int|
            0 <= j < spec_resolve_args(tbl, ds)->Ok_0.len() ==> spec_dt_resolved(
                #[trigger] spec_resolve_args(tbl, ds)->Ok_0[j],
            ),
    decreases ds.len(),
{
    if ds.len() > 0 {
        lemma_field_type_total(tbl, ds[0]);
        lemma_args_total(tbl, ds.skip(1));
    }
}

proof fn lemma_commands_total(tbl: Seq<SymbolEntryV>, cs: Seq<CommandV>)
    ensures
        spec_resolve_commands(tbl, cs) is Ok ==> spec_commands_resolved(
            spec_resolve_commands(tbl, cs)->Ok_0,
        ),
    decreases cs.len(),
{
    if cs.len() > 0 {
        lemma_field_type_total(tbl, cs[0].r_type);
        lemma_args_total(tbl, cs[0].args);
        lemma_commands_total(tbl, cs.skip(1));
    }
}

proof fn lemma_type_total(tbl: Seq<SymbolEntryV>, t: TypeV)
    ensures
        spec_resolve_type_decl(tbl, t) is Ok ==> spec_type_resolved(
            spec_resolve_type_decl(tbl, t)->Ok_0,
        ),
    decreases height_type(t), 1int,
{
    lemma_members_total(tbl, t.members);
    lemma_type_list_total(tbl, t.types);
}

proof fn lemma_type_list_total(tbl: Seq<SymbolEntryV>, ts: Seq<TypeV>)
    ensures
        spec_resolve_type_list(tbl, ts) is Ok ==> spec_type_list_resolved(
            spec_resolve_type_list(tbl, ts)->Ok_0,
        ),
    decreases height_type_list(ts), 0int,
{
    if ts.len() > 0 {
        lemma_type_total(tbl, ts[0]);
        lemma_type_list_total(tbl, ts.skip(1));
        if spec_resolve_type_list(tbl, ts) is Ok {
            let whole = spec_resolve_type_list(tbl, ts)->Ok_0;
            let rest = spec_resolve_type_list(tbl, ts.skip(1))->Ok_0;
            assert(whole.skip(1) =~= rest);
        }
    }
}

proof fn lemma_component_total(tbl: Seq<SymbolEntryV>, c: ComponentV)
    ensures
        spec_resolve_component(tbl, c) is Ok ==> spec_component_resolved(
            spec_resolve_component(tbl, c)->Ok_0,
        ),
{
    lemma_members_total(tbl, c.members);
    lemma_events_total(tbl, c.events);
    lemma_commands_total(tbl, c.commands);
    lemma_type_list_total(tbl, c.types);
}

proof fn lemma_schema_total(tbl: Seq<SymbolEntryV>, sf: SchemaFileV)
    ensures
        spec_resolve_schema(tbl, sf) is Ok ==> spec_schema_resolved(
            spec_resolve_schema(tbl, sf)->Ok_0,
        ),
{
    lemma_components_total(tbl, sf.components);
    lemma_type_list_total(tbl, sf.types);
}

proof fn lemma_components_total(tbl: Seq<SymbolEntryV>, cs: Seq<ComponentV>)
    ensures
        spec_resolve_components(tbl, cs) is Ok ==> forall|i: int|
            0 <= i < spec_resolve_components(tbl, cs)->Ok_0.len() ==> spec_component_resolved(
                #[trigger] spec_resolve_components(tbl, cs)->Ok_0[i],
            ),
    decreases cs.len(),
{
    if cs.len() > 0 {
        lemma_component_total(tbl, cs[0]);
        lemma_components_total(tbl, cs.skip(1));
    }
}

proof fn lemma_node_total(tbl: Seq<SymbolEntryV>, n: ASTNodeV)
    ensures
        spec_resolve_node(tbl, n) is Ok ==> spec_node_resolved(spec_resolve_node(tbl, n)->Ok_0),
    decreases height_node(n), 1int,
{
    match n {
        ASTNodeV::SchemaNode(sf) => {
            lemma_schema_total(tbl, sf);
        },
        ASTNodeV::PackageNode(p) => {
            lemma_node_list_total(tbl, p.inner);
        },
    }
}

/// After a successful resolution pass, no unresolved reference remains
/// reachable anywhere in the forest.
pub proof fn lemma_node_list_total(tbl: Seq<SymbolEntryV>, ns: Seq<ASTNodeV>)
    ensures
        spec_resolve_node_list(tbl, ns) is Ok ==> spec_node_list_resolved(
            spec_resolve_node_list(tbl, ns)->Ok_0,
        ),
    decreases height_node_list(ns), 0int,
{
    if ns.len() > 0 {
        lemma_node_total(tbl, ns[0]);
        lemma_node_list_total(tbl, ns.skip(1));
        if spec_resolve_node_list(tbl, ns) is Ok {
            let whole = spec_resolve_node_list(tbl, ns)->Ok_0;
            let rest = spec_resolve_node_list(tbl, ns.skip(1))->Ok_0;
            assert(whole.skip(1) =~= rest);
        }
    }
}

// A bare name occurring as an unresolved leaf of a member type, anywhere in
// a structure, forest-wide.

pub open spec fn spec_dt_references(d: DataTypeV, n: Seq<char>) -> bool
    decreases d,
{
    match d {
        DataTypeV::UserDefined(u) => u is Unresolved && u->Unresolved_0 == n,
        DataTypeV::Mapping(k, v) => spec_dt_references(*k, n) || spec_dt_references(*v, n),
        DataTypeV::List(t) => spec_dt_references(*t, n),
        DataTypeV::Option(t) => spec_dt_references(*t, n),
        _ => false,
    }
}

pub open spec fn spec_members_reference(ms: Seq<MemberV>, n: Seq<char>) -> bool {
    exists|i: int| 0 <= i < ms.len() && spec_dt_references(#[trigger] ms[i].m_type, n)
}

pub open spec fn spec_type_references(t: TypeV, n: Seq<char>) -> bool
    decreases height_type(t), 1int,
{
    spec_members_reference(t.members, n) || spec_type_list_references(t.types, n)
}

pub open spec fn spec_type_list_references(ts: Seq<TypeV>, n: Seq<char>) -> bool
    decreases height_type_list(ts), 0int,
{
    if ts.len() == 0 {
        false
    } else {
        spec_type_references(ts[0], n) || spec_type_list_references(ts.skip(1), n)
    }
}

pub open spec fn spec_component_references(c: ComponentV, n: Seq<char>) -> bool {
    spec_members_reference(c.members, n) || spec_type_list_references(c.types, n)
}

pub open spec fn spec_schema_references(sf: SchemaFileV, n: Seq<char>) -> bool {
    (exists|i: int|
        0 <= i < sf.components.len() && spec_component_references(#[trigger] sf.components[i], n))
        || spec_type_list_references(sf.types, n)
}

pub open spec fn spec_node_references(node: ASTNodeV, n: Seq<char>) -> bool
    decreases height_node(node), 1int,
{
    match node {
        ASTNodeV::SchemaNode(sf) => spec_schema_references(sf, n),
        ASTNodeV::PackageNode(p) => spec_node_list_references(p.inner, n),
    }
}

pub open spec fn spec_node_list_references(ns: Seq<ASTNodeV>, n: Seq<char>) -> bool
    decreases height_node_list(ns), 0int,
{
    if ns.len() == 0 {
        false
    } else {
        spec_node_references(ns[0], n) || spec_node_list_references(ns.skip(1), n)
    }
}

proof fn lemma_dt_reference_fails(tbl: Seq<SymbolEntryV>, d: DataTypeV, n: Seq<char>)
    requires
        spec_dt_references(d, n),
        spec_lookup(tbl, n) is Some,
        spec_lookup(tbl, n)->Some_0.1 == ResolvedTypeKind::Component,
    ensures
        spec_resolve_field_type(tbl, d) is Err,
    decreases d,
{
    match d {
        DataTypeV::Mapping(k, v) => {
            if spec_dt_references(*k, n) {
                lemma_dt_reference_fails(tbl, *k, n);
            } else {
                lemma_dt_reference_fails(tbl, *v, n);
            }
        },
        DataTypeV::List(t) => {
            lemma_dt_reference_fails(tbl, *t, n);
        },
        DataTypeV::Option(t) => {
            lemma_dt_reference_fails(tbl, *t, n);
        },
        _ => {},
    }
}

proof fn lemma_members_reference_fails(tbl: Seq<SymbolEntryV>, ms: Seq<MemberV>, n: Seq<char>)
    requires
        spec_members_reference(ms, n),
        spec_lookup(tbl, n) is Some,
        spec_lookup(tbl, n)->Some_0.1 == ResolvedTypeKind::Component,
    ensures
        spec_resolve_members(tbl, ms) is Err,
    decreases ms.len(),
{
    if spec_dt_references(ms[0].m_type, n) {
        lemma_dt_reference_fails(tbl, ms[0].m_type, n);
    } else {
        let i = choose|i: int|
            0 <= i < ms.len() && spec_dt_references(#[trigger] ms[i].m_type, n);
        assert(ms.skip(1)[i - 1].m_type == ms[i].m_type);
        lemma_members_reference_fails(tbl, ms.skip(1), n);
    }
}

proof fn lemma_type_reference_fails(tbl: Seq<SymbolEntryV>, t: TypeV, n: Seq<char>)
    requires
        spec_type_references(t, n),
        spec_lookup(tbl, n) is Some,
        spec_lookup(tbl, n)->Some_0.1 == ResolvedTypeKind::Component,
    ensures
        spec_resolve_type_decl(tbl, t) is Err,
    decreases height_type(t), 1int,
{
    if spec_members_reference(t.members, n) {
        lemma_members_reference_fails(tbl, t.members, n);
    } else {
        lemma_type_list_reference_fails(tbl, t.types, n);
    }
}

proof fn lemma_type_list_reference_fails(tbl: Seq<SymbolEntryV>, ts: Seq<TypeV>, n: Seq<char>)
    requires
        spec_type_list_references(ts, n),
        spec_lookup(tbl, n) is Some,
        spec_lookup(tbl, n)->Some_0.1 == ResolvedTypeKind::Component,
    ensures
        spec_resolve_type_list(tbl, ts) is Err,
    decreases height_type_list(ts), 0int,
{
    if spec_type_references(ts[0], n) {
        lemma_type_reference_fails(tbl, ts[0], n);
    } else {
        lemma_type_list_reference_fails(tbl, ts.skip(1), n);
    }
}

proof fn lemma_component_reference_fails(tbl: Seq<SymbolEntryV>, c: ComponentV, n: Seq<char>)
    requires
        spec_component_references(c, n),
        spec_lookup(tbl, n) is Some,
        spec_lookup(tbl, n)->Some_0.1 == ResolvedTypeKind::Component,
    ensures
        spec_resolve_component(tbl, c) is Err,
{
    if spec_members_reference(c.members, n) {
        lemma_members_reference_fails(tbl, c.members, n);
    } else {
        lemma_type_list_reference_fails(tbl, c.types, n);
    }
}

proof fn lemma_components_reference_fails(
    tbl: Seq<SymbolEntryV>,
    cs: Seq<ComponentV>,
    n: Seq<char>,
    i: int,
)
    requires
        0 <= i < cs.len(),
        spec_component_references(cs[i], n),
        spec_lookup(tbl, n) is Some,
        spec_lookup(tbl, n)->Some_0.1 == ResolvedTypeKind::Component,
    ensures
        spec_resolve_components(tbl, cs) is Err,
    decreases i,
{
    if i == 0 {
        lemma_component_reference_fails(tbl, cs[0], n);
    } else {
        assert(cs.skip(1)[i - 1] == cs[i]);
        lemma_components_reference_fails(tbl, cs.skip(1), n, i - 1);
    }
}

proof fn lemma_schema_reference_fails(tbl: Seq<SymbolEntryV>, sf: SchemaFileV, n: Seq<char>)
    requires
        spec_schema_references(sf, n),
        spec_lookup(tbl, n) is Some,
        spec_lookup(tbl, n)->Some_0.1 == ResolvedTypeKind::Component,
    ensures
        spec_resolve_schema(tbl, sf) is Err,
{
    if exists|i: int|
        0 <= i < sf.components.len() && spec_component_references(
            #[trigger] sf.components[i],
            n,
        ) {
        let i = choose|i: int|
            0 <= i < sf.components.len() && spec_component_references(
                #[trigger] sf.components[i],
                n,
            );
        lemma_components_reference_fails(tbl, sf.components, n, i);
    } else {
        lemma_type_list_reference_fails(tbl, sf.types, n);
    }
}

proof fn lemma_node_reference_fails(tbl: Seq<SymbolEntryV>, node: ASTNodeV, n: Seq<char>)
    requires
        spec_node_references(node, n),
        spec_lookup(tbl, n) is Some,
        spec_lookup(tbl, n)->Some_0.1 == ResolvedTypeKind::Component,
    ensures
        spec_resolve_node(tbl, node) is Err,
    decreases height_node(node), 1int,
{
    match node {
        ASTNodeV::SchemaNode(sf) => {
            lemma_schema_reference_fails(tbl, sf, n);
        },
        ASTNodeV::PackageNode(p) => {
            lemma_node_list_reference_fails(tbl, p.inner, n);
        },
    }
}

/// Forest-wide resolver soundness: where any member's type anywhere in the
/// forest references a bare name registered as a component, the whole
/// resolution pass fails; it never hands back a silently resolved forest.
pub proof fn lemma_node_list_reference_fails(
    tbl: Seq<SymbolEntryV>,
    ns: Seq<ASTNodeV>,
    n: Seq<char>,
)
    requires
        spec_node_list_references(ns, n),
        spec_lookup(tbl, n) is Some,
        spec_lookup(tbl, n)->Some_0.1 == ResolvedTypeKind::Component,
    ensures
        spec_resolve_node_list(tbl, ns) is Err,
    decreases height_node_list(ns), 0int,
{
    if spec_node_references(ns[0], n) {
        lemma_node_reference_fails(tbl, ns[0], n);
    } else {
        lemma_node_list_reference_fails(tbl, ns.skip(1), n);
    }
}

/// The same, phrased against `resolve_types`' own contract: under the
/// forest's symbol table, a member referencing a component-kind name makes
/// the pass return an error.
pub proof fn lemma_resolver_soundness(ast: ASTV, module: Seq<char>, n: Seq<char>)
    requires
        spec_node_list_references(ast.inner, n),
        spec_lookup(spec_symbol_table(module, ast), n) is Some,
        spec_lookup(spec_symbol_table(module, ast), n)->Some_0.1 == ResolvedTypeKind::Component,
    ensures
        spec_resolve_node_list(spec_symbol_table(module, ast), ast.inner) is Err,
{
    lemma_node_list_reference_fails(spec_symbol_table(module, ast), ast.inner, n);
}

/// A reference to a name registered as a component never resolves in a
/// member-type position: it fails naming that identifier.
pub proof fn lemma_component_reference_rejected(
    tbl: Seq<SymbolEntryV>,
    m: MemberV,
    n: Seq<char>,
)
    requires
        m.m_type == DataTypeV::UserDefined(UserDefinedTypeV::Unresolved(n)),
        spec_lookup(tbl, n) is Some,
        spec_lookup(tbl, n)->Some_0.1 == ResolvedTypeKind::Component,
    ensures
        spec_resolve_member(tbl, m) is Err,
        spec_resolve_member(tbl, m)->Err_0 == ResolveErrorV::ComponentInFieldPosition(n),
{
}

} // verus!

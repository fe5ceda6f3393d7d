//! Whole schema files: the package header followed by any mix of type, enum
//! and component declarations.

use vstd::prelude::*;

verus! {

use crate::ast::Component;
use crate::ast::ComponentV;
use crate::ast::Enum;
use crate::ast::EnumV;
use crate::ast::SchemaFile;
use crate::ast::SchemaFileV;
use crate::ast::Type;
use crate::ast::TypeV;
use crate::ast::view_component;
use crate::ast::view_components;
use crate::ast::view_enum;
use crate::ast::view_enums;
use crate::ast::view_schema_file;
use crate::ast::view_strings;
use crate::ast::view_type;
use crate::ast::view_types;
use crate::parser::component::spec_parse_component;
use crate::parser::component::parse_component;
use crate::parser::enum_decl::spec_parse_enum;
use crate::parser::enum_decl::parse_enum;
use crate::parser::package_name::spec_parse_package_name;
use crate::parser::package_name::parse_package_name;
use crate::parser::type_decl::spec_parse_type;
use crate::parser::type_decl::parse_type;
use crate::parser::utils::ws_end;
use crate::parser::utils::ws0;

broadcast use vstd::seq::group_seq_axioms, vstd::std_specs::vec::group_vec_axioms;

// ---------------------------------------------------------------------------
// Top-level declarations
// ---------------------------------------------------------------------------

pub ghost enum SchemaModelV {
    Type(TypeV),
    Component(ComponentV),
    Enum(EnumV),
}

/// One top-level declaration of a schema file.
#[derive(Debug, PartialEq, Eq)]
pub enum SchemaModel {
    Type(Type),
    Component(Component),
    Enum(Enum),
}

pub open spec fn view_schema_model(m: SchemaModel) -> SchemaModelV {
    match m {
        SchemaModel::Type(t) => SchemaModelV::Type(view_type(t)),
        SchemaModel::Component(c) => SchemaModelV::Component(view_component(c)),
        SchemaModel::Enum(e) => SchemaModelV::Enum(view_enum(e)),
    }
}

impl View for SchemaModel {
    type V = SchemaModelV;

    open spec fn view(&self) -> SchemaModelV {
        view_schema_model(*self)
    }
}

/// Sorting the declarations into the type, enum and component lists, keeping
/// each kind's order.
pub open spec fn fold_schema_models(ms: Seq<SchemaModelV>) -> (
    Seq<TypeV>,
    Seq<EnumV>,
    Seq<ComponentV>,
)
    decreases ms.len(),
{
    if ms.len() == 0 {
        (Seq::empty(), Seq::empty(), Seq::empty())
    } else {
        let (ts, es, cs) = fold_schema_models(ms.drop_last());
        match ms.last() {
            SchemaModelV::Type(t) => (ts.push(t), es, cs),
            SchemaModelV::Enum(e) => (ts, es.push(e), cs),
            SchemaModelV::Component(c) => (ts, es, cs.push(c)),
        }
    }
}

// ---------------------------------------------------------------------------
// The builder
// ---------------------------------------------------------------------------

pub ghost struct SchemaFileBuilderV {
    pub package_name: Option<Seq<Seq<char>>>,
    pub name: Option<Seq<char>>,
    pub types: Seq<TypeV>,
    pub enums: Seq<EnumV>,
    pub components: Seq<ComponentV>,
}

/// Accumulates the pieces of a schema file while it is parsed; the file's
/// name is supplied by the caller afterwards.
#[derive(Debug, PartialEq, Eq)]
pub struct SchemaFileBuilder {
    pub package_name: Option<Vec<String>>,
    pub name: Option<String>,
    pub types: Vec<Type>,
    pub enums: Vec<Enum>,
    pub components: Vec<Component>,
}

impl View for SchemaFileBuilder {
    type V = SchemaFileBuilderV;

    open spec fn view(&self) -> SchemaFileBuilderV {
        SchemaFileBuilderV {
            package_name: match self.package_name {
                Some(p) => Some(view_strings(p)),
                None => None,
            },
            name: match self.name {
                Some(n) => Some(n@),
                None => None,
            },
            types: view_types(self.types),
            enums: view_enums(self.enums),
            components: view_components(self.components),
        }
    }
}

impl Default for SchemaFileBuilder {
    /// An empty builder with no package, no name and no declarations.
    fn default() -> (r: SchemaFileBuilder)
        ensures
            r@.package_name is None,
            r@.name is None,
            r@.types == Seq::<TypeV>::empty(),
            r@.enums == Seq::<EnumV>::empty(),
            r@.components == Seq::<ComponentV>::empty(),
    {
        let r = SchemaFileBuilder {
            package_name: None,
            name: None,
            types: Vec::new(),
            enums: Vec::new(),
            components: Vec::new(),
        };
        proof {
            assert(r@.types =~= Seq::<TypeV>::empty());
            assert(r@.enums =~= Seq::<EnumV>::empty());
            assert(r@.components =~= Seq::<ComponentV>::empty());
        }
        r
    }
}

impl SchemaFileBuilder {
    /// Files one declaration into the list for its kind.
    pub fn with_model(self, model: SchemaModel) -> (r: Self)
        ensures
            r@.package_name == self@.package_name,
            r@.name == self@.name,
            match model@ {
                SchemaModelV::Type(t) => r@.types == self@.types.push(t) && r@.enums == self@.enums
                    && r@.components == self@.components,
                SchemaModelV::Enum(e) => r@.types == self@.types && r@.enums == self@.enums.push(e)
                    && r@.components == self@.components,
                SchemaModelV::Component(c) => r@.types == self@.types && r@.enums == self@.enums
                    && r@.components == self@.components.push(c),
            },
    {
        let mut s = self;
        match model {
            SchemaModel::Type(t) => {
                let ghost tv = view_type(t);
                let ghost old_seq = s.types@;
                s.types.push(t);
                proof {
                    crate::ast::lemma_view_type_seq(old_seq);
                    crate::ast::lemma_view_type_seq(s.types@);
                    assert(view_types(s.types) =~= crate::ast::view_type_seq(old_seq).push(tv));
                }
            },
            SchemaModel::Enum(e) => {
                let ghost ev = view_enum(e);
                let ghost before = view_enums(s.enums);
                s.enums.push(e);
                proof {
                    assert(view_enums(s.enums) =~= before.push(ev));
                }
            },
            SchemaModel::Component(c) => {
                let ghost cv = view_component(c);
                let ghost before = view_components(s.components);
                s.components.push(c);
                proof {
                    assert(view_components(s.components) =~= before.push(cv));
                }
            },
        }
        s
    }

    /// Records the schema's file-derived name.
    pub fn with_name(self, name: String) -> (r: Self)
        ensures
            r@.name == Some(name@),
            r@.package_name == self@.package_name,
            r@.types == self@.types,
            r@.enums == self@.enums,
            r@.components == self@.components,
    {
        SchemaFileBuilder {
            package_name: self.package_name,
            name: Some(name),
            types: self.types,
            enums: self.enums,
            components: self.components,
        }
    }

    /// Records the schema's package path.
    pub fn with_package_name(self, package_name: Vec<String>) -> (r: Self)
        ensures
            r@.package_name == Some(view_strings(package_name)),
            r@.name == self@.name,
            r@.types == self@.types,
            r@.enums == self@.enums,
            r@.components == self@.components,
    {
        SchemaFileBuilder {
            package_name: Some(package_name),
            name: self.name,
            types: self.types,
            enums: self.enums,
            components: self.components,
        }
    }

    /// Finishes the schema file; a builder that never received a name or a
    /// package path fails.
    pub fn build(self) -> (r: Result<SchemaFile, &'static str>)
        ensures
            r is Ok <==> self@.name is Some && self@.package_name is Some,
            r is Ok ==> view_schema_file(r->Ok_0) == (SchemaFileV {
                package_name: self@.package_name->Some_0,
                name: self@.name->Some_0,
                types: self@.types,
                enums: self@.enums,
                components: self@.components,
            }),
            r is Err && self@.name is None ==> r->Err_0@ == "Name could not be found"@,
            r is Err && self@.name is Some ==> r->Err_0@ == "Package Name could not be found"@,
    {
        match self.name {
            Some(name) => {
                match self.package_name {
                    Some(package_name) => Ok(
                        SchemaFile {
                            package_name,
                            name,
                            types: self.types,
                            enums: self.enums,
                            components: self.components,
                        },
                    ),
                    None => Err("Package Name could not be found"),
                }
            },
            None => Err("Name could not be found"),
        }
    }
}

// ---------------------------------------------------------------------------
// The grammar
// ---------------------------------------------------------------------------

/// One top-level declaration: a type, a component or an enum.
pub open spec fn spec_parse_model(s: Seq<u8>, i: int) -> Option<(SchemaModelV, int)> {
    match spec_parse_type(s, i) {
        Some((t, p)) => Some((SchemaModelV::Type(t), p)),
        None => match spec_parse_component(s, i) {
            Some((c, p)) => Some((SchemaModelV::Component(c), p)),
            None => match spec_parse_enum(s, i) {
                Some((e, p)) => Some((SchemaModelV::Enum(e), p)),
                None => None,
            },
        },
    }
}

/// Parses one top-level declaration.
pub fn parse_model(s: &[u8], i: usize) -> (r: Option<(SchemaModel, usize)>)
    requires
        i <= s@.len(),
    ensures
        r is Some <==> spec_parse_model(s@, i as int) is Some,
        r is Some ==> r->Some_0.0@ == spec_parse_model(s@, i as int)->Some_0.0,
        r is Some ==> r->Some_0.1 as int == spec_parse_model(s@, i as int)->Some_0.1,
        r is Some ==> i <= r->Some_0.1 <= s@.len(),
{
    match parse_type(s, i) {
        Some((t, p)) => Some((SchemaModel::Type(t), p)),
        None => match parse_component(s, i) {
            Some((c, p)) => Some((SchemaModel::Component(c), p)),
            None => match parse_enum(s, i) {
                Some((e, p)) => Some((SchemaModel::Enum(e), p)),
                None => None,
            },
        },
    }
}

/// Zero or more top-level declarations, each surrounded by optional
/// whitespace; the list ends before the first thing that is not one.
pub open spec fn spec_parse_models(s: Seq<u8>, i: int) -> (Seq<SchemaModelV>, int)
    decreases s.len() - i when 0 <= i <= s.len()
{
    let a = ws_end(s, i);
    if !(i <= a <= s.len()) {
        (Seq::empty(), i)
    } else {
        match spec_parse_model(s, a) {
            Some((m, p)) => {
                if !(a <= p <= s.len()) {
                    (Seq::empty(), i)
                } else {
                    let z = ws_end(s, p);
                    if p <= z <= s.len() && i < z {
                        let (ms, k) = spec_parse_models(s, z);
                        (seq![m] + ms, k)
                    } else {
                        (Seq::empty(), i)
                    }
                }
            },
            None => (Seq::empty(), i),
        }
    }
}

/// Parses the top-level declarations.
pub fn parse_models(s: &[u8], i: usize) -> (r: (Vec<SchemaModel>, usize))
    requires
        i <= s@.len(),
    ensures
        r.1 as int == spec_parse_models(s@, i as int).1,
        r.0@.len() == spec_parse_models(s@, i as int).0.len(),
        forall|n: int| 0 <= n < r.0@.len() ==> r.0@[n]@ == spec_parse_models(s@, i as int).0[n],
        i <= r.1 <= s@.len(),
    decreases s@.len() - i,
{
    let a = ws0(s, i);
    match parse_model(s, a) {
        Some((m, p)) => {
            let z = ws0(s, p);
            if z > i {
                let (rest, k) = parse_models(s, z);
                let mut out = rest;
                out.insert(0, m);
                (out, k)
            } else {
                (Vec::new(), i)
            }
        },
        None => (Vec::new(), i),
    }
}

/// The whole file: the package header, then the declarations, surrounded by
/// optional whitespace.  The result still lacks the file-derived name.
pub open spec fn spec_parse_schema(s: Seq<u8>, i: int) -> Option<(SchemaFileBuilderV, int)> {
    if !(0 <= i <= s.len()) {
        None
    } else {
        let a0 = ws_end(s, i);
        if !(i <= a0 <= s.len()) {
            None
        } else {
            match spec_parse_package_name(s, a0) {
                Some((pkg, p1)) => {
                    if !(a0 <= p1 <= s.len()) {
                        None
                    } else {
                        let b = ws_end(s, p1);
                        if !(p1 <= b <= s.len()) {
                            None
                        } else {
                            let (ms, m_end) = spec_parse_models(s, b);
                            if !(b <= m_end <= s.len()) {
                                None
                            } else {
                                let c = ws_end(s, m_end);
                                if !(m_end <= c <= s.len()) {
                                    None
                                } else {
                                    let (ts, es, cs) = fold_schema_models(ms);
                                    Some(
                                        (
                                            SchemaFileBuilderV {
                                                package_name: Some(pkg),
                                                name: None,
                                                types: ts,
                                                enums: es,
                                                components: cs,
                                            },
                                            c,
                                        ),
                                    )
                                }
                            }
                        }
                    }
                },
                None => None,
            }
        }
    }
}

/// Parses one schema file into a builder awaiting its name.
pub fn parse_schema(s: &[u8], i: usize) -> (r: Option<(SchemaFileBuilder, usize)>)
    requires
        i <= s@.len(),
    ensures
        r is Some <==> spec_parse_schema(s@, i as int) is Some,
        r is Some ==> r->Some_0.0@ == spec_parse_schema(s@, i as int)->Some_0.0,
        r is Some ==> r->Some_0.1 as int == spec_parse_schema(s@, i as int)->Some_0.1,
        r is Some ==> i <= r->Some_0.1 <= s@.len(),
{
    let a0 = ws0(s, i);
    match parse_package_name(s, a0) {
        Some((pkg, p1)) => {
            let b = ws0(s, p1);
            let (models, m_end) = parse_models(s, b);
            let c = ws0(s, m_end);
            let ghost spec_ms = spec_parse_models(s@, b as int).0;
            let mut models = models;
            let mut builder = SchemaFileBuilder::default();
            let total0: usize = models.len();
            let ghost total = total0 as int;
            let mut done: usize = 0;
            while models.len() > 0
                invariant
                    total <= usize::MAX,
                    done + models@.len() == total,
                    total == spec_ms.len(),
                    forall|n: int| 0 <= n < models@.len() ==> models@[n]@ == spec_ms[done + n],
                    builder@.name is None,
                    builder@.package_name is None,
                    (builder@.types, builder@.enums, builder@.components) == fold_schema_models(
                        spec_ms.take(done as int),
                    ),
                decreases models@.len(),
            {
                let m = models.remove(0);
                builder = builder.with_model(m);
                done = done + 1;
                proof {
                    assert(spec_ms.take(done as int).drop_last() =~= spec_ms.take(done - 1));
                    assert(spec_ms.take(done as int).last() == spec_ms[done - 1]);
                }
            }
            proof {
                assert(spec_ms.take(total) =~= spec_ms);
            }
            let builder = builder.with_package_name(pkg);
            Some((builder, c))
        },
        None => None,
    }
}

impl SchemaFile {
    /// Parses one schema source into a schema file carrying the given
    /// file-derived name; a grammar mismatch is reported as an error.
    pub fn from_source(name: String, source: &[u8]) -> (r: Result<SchemaFile, &'static str>)
        ensures
            r is Ok <==> spec_parse_schema(source@, 0) is Some,
            r is Ok ==> view_schema_file(r->Ok_0) == (SchemaFileV {
                package_name: spec_parse_schema(source@, 0)->Some_0.0.package_name->Some_0,
                name: name@,
                types: spec_parse_schema(source@, 0)->Some_0.0.types,
                enums: spec_parse_schema(source@, 0)->Some_0.0.enums,
                components: spec_parse_schema(source@, 0)->Some_0.0.components,
            }),
            r is Err ==> r->Err_0@ == "Unable to parse data"@,
    {
        match parse_schema(source, 0) {
            Some((builder, _)) => match builder.with_name(name).build() {
                Ok(sf) => Ok(sf),
                Err(e) => {
                    proof {
                        assert(false);
                    }
                    Err("Unable to parse data")
                },
            },
            None => Err("Unable to parse data"),
        }
    }
}

} // verus!

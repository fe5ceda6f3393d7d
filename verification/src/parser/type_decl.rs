//! Type declarations: `type Name { <members | nested types | nested enums> }`.
//! Bodies are unordered mixes of member declarations and nested declarations,
//! and types nest arbitrarily deep.

use vstd::prelude::*;

verus! {

use crate::ast::Enum;
use crate::ast::EnumV;
use crate::ast::Member;
use crate::ast::MemberV;
use crate::ast::Type;
use crate::ast::TypeV;
use crate::ast::view_enums;
use crate::ast::view_members;
use crate::ast::view_strings;
use crate::ast::view_type;
use crate::ast::view_types;
use crate::ast::view_enum;
use crate::ast::view_member;
use crate::parser::data_type::ascii_bytes;
use crate::parser::data_type::match_at;
use crate::parser::data_type::match_keyword;
use crate::parser::enum_decl::spec_parse_enum;
use crate::parser::enum_decl::parse_enum;
use crate::parser::member::spec_parse_member;
use crate::parser::member::parse_member;
use crate::parser::utils::spec_parse_comments;
use crate::parser::utils::parse_comments;
use crate::parser::utils::spec_camel_case;
use crate::parser::utils::camel_case;
use crate::parser::utils::spec_ws1;
use crate::parser::utils::ws1;
use crate::parser::utils::ws_end;
use crate::parser::utils::ws0;

broadcast use vstd::seq::group_seq_axioms, vstd::std_specs::vec::group_vec_axioms;

// ---------------------------------------------------------------------------
// Properties of a type body
// ---------------------------------------------------------------------------

pub ghost enum TypePropertyV {
    Member(MemberV),
    Type(TypeV),
    Enum(EnumV),
}

/// One entry of a type body: a member declaration, a nested type, or a
/// nested enum.
#[derive(Debug, PartialEq, Eq)]
pub enum TypeProperty {
    Member(Member),
    Type(Type),
    Enum(Enum),
}

pub open spec fn view_type_property(p: TypeProperty) -> TypePropertyV {
    match p {
        TypeProperty::Member(m) => TypePropertyV::Member(view_member(m)),
        TypeProperty::Type(t) => TypePropertyV::Type(view_type(t)),
        TypeProperty::Enum(e) => TypePropertyV::Enum(view_enum(e)),
    }
}

impl View for TypeProperty {
    type V = TypePropertyV;

    open spec fn view(&self) -> TypePropertyV {
        view_type_property(*self)
    }
}

/// Sorting a property list into the member, nested-type and nested-enum
/// lists, keeping each kind's order.
pub open spec fn fold_type_props(ps: Seq<TypePropertyV>) -> (Seq<MemberV>, Seq<TypeV>, Seq<EnumV>)
    decreases ps.len(),
{
    if ps.len() == 0 {
        (Seq::empty(), Seq::empty(), Seq::empty())
    } else {
        let (ms, ts, es) = fold_type_props(ps.drop_last());
        match ps.last() {
            TypePropertyV::Member(m) => (ms.push(m), ts, es),
            TypePropertyV::Type(t) => (ms, ts.push(t), es),
            TypePropertyV::Enum(e) => (ms, ts, es.push(e)),
        }
    }
}

// ---------------------------------------------------------------------------
// The builder
// ---------------------------------------------------------------------------

pub ghost struct TypeBuilderV {
    pub name: Option<Seq<char>>,
    pub members: Seq<MemberV>,
    pub comments: Seq<Seq<char>>,
    pub types: Seq<TypeV>,
    pub enums: Seq<EnumV>,
}

/// Accumulates the pieces of a type declaration while its body is parsed.
#[derive(Debug, PartialEq, Eq)]
pub struct TypeBuilder {
    pub name: Option<String>,
    pub members: Vec<Member>,
    pub comments: Vec<String>,
    pub types: Vec<Type>,
    pub enums: Vec<Enum>,
}

impl View for TypeBuilder {
    type V = TypeBuilderV;

    open spec fn view(&self) -> TypeBuilderV {
        TypeBuilderV {
            name: match self.name {
                Some(n) => Some(n@),
                None => None,
            },
            members: view_members(self.members),
            comments: view_strings(self.comments),
            types: view_types(self.types),
            enums: view_enums(self.enums),
        }
    }
}

impl Default for TypeBuilder {
    /// An empty builder with no name and no declarations.
    fn default() -> (r: TypeBuilder)
        ensures
            r@.name is None,
            r@.members == Seq::<MemberV>::empty(),
            r@.comments == Seq::<Seq<char>>::empty(),
            r@.types == Seq::<TypeV>::empty(),
            r@.enums == Seq::<EnumV>::empty(),
    {
        let r = TypeBuilder {
            name: None,
            members: Vec::new(),
            comments: Vec::new(),
            types: Vec::new(),
            enums: Vec::new(),
        };
        proof {
            assert(r@.members =~= Seq::<MemberV>::empty());
            assert(r@.comments =~= Seq::<Seq<char>>::empty());
            assert(r@.types =~= Seq::<TypeV>::empty());
            assert(r@.enums =~= Seq::<EnumV>::empty());
        }
        r
    }
}

impl TypeBuilder {
    /// Files one body entry into the list for its kind.
    pub fn with_property(self, property: TypeProperty) -> (r: Self)
        ensures
            r@.name == self@.name,
            r@.comments == self@.comments,
            match property@ {
                TypePropertyV::Member(m) => r@.members == self@.members.push(m) && r@.types
                    == self@.types && r@.enums == self@.enums,
                TypePropertyV::Type(t) => r@.members == self@.members && r@.types
                    == self@.types.push(t) && r@.enums == self@.enums,
                TypePropertyV::Enum(e) => r@.members == self@.members && r@.types == self@.types
                    && r@.enums == self@.enums.push(e),
            },
    {
        let mut s = self;
        match property {
            TypeProperty::Member(m) => {
                let ghost mv = view_member(m);
                let ghost before = view_members(s.members);
                s.members.push(m);
                proof {
                    assert(view_members(s.members) =~= before.push(mv));
                }
            },
            TypeProperty::Type(t) => {
                let ghost tv = view_type(t);
                let ghost old_seq = s.types@;
                s.types.push(t);
                proof {
                    crate::ast::lemma_view_type_seq(old_seq);
                    crate::ast::lemma_view_type_seq(s.types@);
                    assert(view_types(s.types) =~= crate::ast::view_type_seq(old_seq).push(tv));
                }
            },
            TypeProperty::Enum(e) => {
                let ghost ev = view_enum(e);
                let ghost before = view_enums(s.enums);
                s.enums.push(e);
                proof {
                    assert(view_enums(s.enums) =~= before.push(ev));
                }
            },
        }
        s
    }

    /// Records the declaration's name.
    pub fn with_name(self, name: String) -> (r: Self)
        ensures
            r@.name == Some(name@),
            r@.members == self@.members,
            r@.comments == self@.comments,
            r@.types == self@.types,
            r@.enums == self@.enums,
    {
        TypeBuilder {
            name: Some(name),
            members: self.members,
            comments: self.comments,
            types: self.types,
            enums: self.enums,
        }
    }

    /// Records the declaration's documentation comments.
    pub fn with_comments(self, comments: Vec<String>) -> (r: Self)
        ensures
            r@.name == self@.name,
            r@.members == self@.members,
            r@.comments == view_strings(comments),
            r@.types == self@.types,
            r@.enums == self@.enums,
    {
        TypeBuilder {
            name: self.name,
            members: self.members,
            comments,
            types: self.types,
            enums: self.enums,
        }
    }

    /// Finishes the type; a builder that never received a name fails.
    pub fn build(self) -> (r: Result<Type, &'static str>)
        ensures
            r is Ok <==> self@.name is Some,
            r is Ok ==> view_type(r->Ok_0) == (TypeV {
                name: self@.name->Some_0,
                members: self@.members,
                comments: self@.comments,
                types: self@.types,
                enums: self@.enums,
            }),
            r is Err ==> r->Err_0@ == "Name could not be found"@,
    {
        match self.name {
            Some(name) => {
                let t = Type {
                    name,
                    members: self.members,
                    comments: self.comments,
                    types: self.types,
                    enums: self.enums,
                };
                Ok(t)
            },
            None => Err("Name could not be found"),
        }
    }
}

// ---------------------------------------------------------------------------
// The grammar
// ---------------------------------------------------------------------------

/// One body entry: a member declaration terminated by a semicolon, a nested
/// type declaration, or a nested enum declaration, each surrounded by
/// optional whitespace.
pub open spec fn spec_parse_type_property(s: Seq<u8>, i: int) -> Option<(TypePropertyV, int)>
    decreases s.len() - i, 2int when 0 <= i <= s.len()
{
    let a = ws_end(s, i);
    if !(i <= a <= s.len()) {
        None
    } else {
        let mr = spec_parse_member(s, a);
        if mr is Some && a <= mr->Some_0.1 <= s.len() && mr->Some_0.1 <= ws_end(s, mr->Some_0.1)
            && ws_end(s, mr->Some_0.1) < s.len() && s[ws_end(s, mr->Some_0.1)] == 59 {
            let q = ws_end(s, mr->Some_0.1);
            let z = ws_end(s, q + 1);
            if q + 1 <= z <= s.len() {
                Some((TypePropertyV::Member(mr->Some_0.0), z))
            } else {
                None
            }
        } else {
            match spec_parse_type(s, a) {
                Some((t, p)) => {
                    if !(a < p <= s.len()) {
                        None
                    } else {
                        let z = ws_end(s, p);
                        if p <= z <= s.len() {
                            Some((TypePropertyV::Type(t), z))
                        } else {
                            None
                        }
                    }
                },
                None => match spec_parse_enum(s, a) {
                    Some((e, p)) => {
                        if !(a < p <= s.len()) {
                            None
                        } else {
                            let z = ws_end(s, p);
                            if p <= z <= s.len() {
                                Some((TypePropertyV::Enum(e), z))
                            } else {
                                None
                            }
                        }
                    },
                    None => None,
                },
            }
        }
    }
}

/// Zero or more body entries; the list ends before the first thing that is
/// not a body entry.
pub open spec fn spec_parse_type_properties(s: Seq<u8>, i: int) -> (Seq<TypePropertyV>, int)
    decreases s.len() - i, 3int when 0 <= i <= s.len()
{
    match spec_parse_type_property(s, i) {
        Some((p, j)) => {
            if i < j <= s.len() {
                let (ps, k) = spec_parse_type_properties(s, j);
                (seq![p] + ps, k)
            } else {
                (Seq::empty(), i)
            }
        },
        None => (Seq::empty(), i),
    }
}

/// Leading documentation comments, the keyword `type`, the camel-case name
/// with mandatory whitespace around it, and the body in braces, all
/// surrounded by optional whitespace.
pub open spec fn spec_parse_type(s: Seq<u8>, i: int) -> Option<(TypeV, int)>
    decreases s.len() - i, 1int when 0 <= i <= s.len()
{
    let a0 = ws_end(s, i);
    if !(i <= a0 <= s.len()) {
        None
    } else {
        let (cs, a) = spec_parse_comments(s, a0);
        if !(a0 <= a <= s.len()) {
            None
        } else if match_at(s, a, ascii_bytes("type"@)) {
            match spec_ws1(s, a + 4) {
                Some(b) => {
                    if !(a + 4 < b && b <= s.len()) {
                        None
                    } else {
                        match spec_camel_case(s, b) {
                            Some((name, c)) => {
                                if !(b < c && c <= s.len()) {
                                    None
                                } else {
                                    match spec_ws1(s, c) {
                                        Some(d) => {
                                            if !(c < d && d <= s.len()) {
                                                None
                                            } else if d < s.len() && s[d] == 123 {
                                                let e = ws_end(s, d + 1);
                                                if !(d + 1 <= e <= s.len()) {
                                                    None
                                                } else {
                                                    let (props, f) = spec_parse_type_properties(
                                                        s,
                                                        e,
                                                    );
                                                    if !(e <= f <= s.len()) {
                                                        None
                                                    } else {
                                                        let g = ws_end(s, f);
                                                        if f <= g && g < s.len() && s[g] == 125 {
                                                            let h = ws_end(s, g + 1);
                                                            if g + 1 <= h <= s.len() {
                                                                let (ms, ts, es) =
                                                                    fold_type_props(props);
                                                                Some(
                                                                    (
                                                                        TypeV {
                                                                            name,
                                                                            members: ms,
                                                                            comments: cs,
                                                                            types: ts,
                                                                            enums: es,
                                                                        },
                                                                        h,
                                                                    ),
                                                                )
                                                            } else {
                                                                None
                                                            }
                                                        } else {
                                                            None
                                                        }
                                                    }
                                                }
                                            } else {
                                                None
                                            }
                                        },
                                        None => None,
                                    }
                                }
                            },
                            None => None,
                        }
                    }
                },
                None => None,
            }
        } else {
            None
        }
    }
}

/// Parses one body entry.
pub fn parse_type_property(s: &[u8], i: usize) -> (r: Option<(TypeProperty, usize)>)
    requires
        i <= s@.len(),
    ensures
        r is Some <==> spec_parse_type_property(s@, i as int) is Some,
        r is Some ==> r->Some_0.0@ == spec_parse_type_property(s@, i as int)->Some_0.0,
        r is Some ==> r->Some_0.1 as int == spec_parse_type_property(s@, i as int)->Some_0.1,
        r is Some ==> i <= r->Some_0.1 <= s@.len(),
    decreases s@.len() - i, 2int,
{
    let a = ws0(s, i);
    let probe = parse_member(s, a);
    let semi = match &probe {
        Some((_, p)) => {
            let q = ws0(s, *p);
            q < s.len() && s[q] == 59
        },
        None => false,
    };
    if semi {
        match probe {
            Some((m, p)) => {
                let q = ws0(s, p);
                let z = ws0(s, q + 1);
                Some((TypeProperty::Member(m), z))
            },
            None => None,
        }
    } else {
        match parse_type(s, a) {
            Some((t, p)) => {
                let z = ws0(s, p);
                Some((TypeProperty::Type(t), z))
            },
            None => match parse_enum(s, a) {
                Some((e, p)) => {
                    let z = ws0(s, p);
                    Some((TypeProperty::Enum(e), z))
                },
                None => None,
            },
        }
    }
}

/// Parses the body entries of a type declaration.
pub fn parse_type_properties(s: &[u8], i: usize) -> (r: (Vec<TypeProperty>, usize))
    requires
        i <= s@.len(),
    ensures
        r.1 as int == spec_parse_type_properties(s@, i as int).1,
        r.0@.len() == spec_parse_type_properties(s@, i as int).0.len(),
        forall|n: int| 0 <= n < r.0@.len() ==> r.0@[n]@ == spec_parse_type_properties(
            s@,
            i as int,
        ).0[n],
        i <= r.1 <= s@.len(),
    decreases s@.len() - i, 3int,
{
    match parse_type_property(s, i) {
        Some((p, j)) => {
            if j > i {
                let (rest, k) = parse_type_properties(s, j);
                let mut out = rest;
                out.insert(0, p);
                (out, k)
            } else {
                (Vec::new(), i)
            }
        },
        None => (Vec::new(), i),
    }
}

/// Parses one type declaration.
pub fn parse_type(s: &[u8], i: usize) -> (r: Option<(Type, usize)>)
    requires
        i <= s@.len(),
    ensures
        r is Some <==> spec_parse_type(s@, i as int) is Some,
        r is Some ==> r->Some_0.0@ == spec_parse_type(s@, i as int)->Some_0.0,
        r is Some ==> r->Some_0.1 as int == spec_parse_type(s@, i as int)->Some_0.1,
        r is Some ==> i <= r->Some_0.1 <= s@.len(),
    decreases s@.len() - i, 1int,
{
    proof {
        reveal_strlit("type");
    }
    let a0 = ws0(s, i);
    let (cs, a) = parse_comments(s, a0);
    if match_keyword(s, a, "type") {
        match ws1(s, a + 4) {
            Some(b) => {
                match camel_case(s, b) {
                    Some((name, c)) => {
                        match ws1(s, c) {
                            Some(d) => {
                                if d < s.len() && s[d] == 123 {
                                    let e = ws0(s, d + 1);
                                    let (props, f) = parse_type_properties(s, e);
                                    let g = ws0(s, f);
                                    if g < s.len() && s[g] == 125 {
                                        let h = ws0(s, g + 1);
                                        let ghost spec_props = spec_parse_type_properties(
                                            s@,
                                            e as int,
                                        ).0;
                                        let mut builder = TypeBuilder::default();
                                        let mut props = props;
                                        let total0: usize = props.len();
                                        let ghost total = total0 as int;
                                        let mut done: usize = 0;
                                        while props.len() > 0
                                            invariant
                                                total <= usize::MAX,
                                                done + props@.len() == total,
                                                total == spec_props.len(),
                                                forall|n: int| 0 <= n < props@.len()
                                                    ==> props@[n]@ == spec_props[done + n],
                                                builder@.name is None,
                                                builder@.comments == Seq::<Seq<char>>::empty(),
                                                (
                                                    builder@.members,
                                                    builder@.types,
                                                    builder@.enums,
                                                ) == fold_type_props(spec_props.take(done as int)),
                                            decreases props@.len(),
                                        {
                                            let p = props.remove(0);
                                            builder = builder.with_property(p);
                                            done = done + 1;
                                            proof {
                                                assert(spec_props.take(done as int).drop_last()
                                                    =~= spec_props.take(done - 1));
                                                assert(spec_props.take(done as int).last()
                                                    == spec_props[done - 1]);
                                            }
                                        }
                                        proof {
                                            assert(spec_props.take(total) =~= spec_props);
                                        }
                                        match builder.with_name(name).with_comments(cs).build() {
                                            Ok(t) => {
                                                proof {
                                                    assert(view_strings(t.comments)
                                                        =~= spec_parse_comments(s@, a0 as int).0);
                                                }
                                                Some((t, h))
                                            },
                                            Err(_) => {
                                                proof {
                                                    assert(false);
                                                }
                                                None
                                            },
                                        }
                                    } else {
                                        None
                                    }
                                } else {
                                    None
                                }
                            },
                            None => None,
                        }
                    },
                    None => None,
                }
            },
            None => None,
        }
    } else {
        None
    }
}

} // verus!

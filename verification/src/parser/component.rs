//! Component declarations: `component Name { id = N; <properties> }`.
//! A body mixes the mandatory numeric identifier, members, commands, events,
//! nested types and nested enums; at least one property is required, and a
//! component without its identifier fails.

use vstd::prelude::*;

verus! {

use crate::ast::Command;
use crate::ast::CommandV;
use crate::ast::Component;
use crate::ast::ComponentV;
use crate::ast::Enum;
use crate::ast::EnumV;
use crate::ast::Event;
use crate::ast::EventV;
use crate::ast::Member;
use crate::ast::MemberV;
use crate::ast::Type;
use crate::ast::TypeV;
use crate::ast::view_command;
use crate::ast::view_component;
use crate::ast::view_commands;
use crate::ast::view_enum;
use crate::ast::view_enums;
use crate::ast::view_event;
use crate::ast::view_events;
use crate::ast::view_member;
use crate::ast::view_members;
use crate::ast::view_strings;
use crate::ast::view_type;
use crate::ast::view_types;
use crate::parser::command::spec_parse_command;
use crate::parser::command::parse_command;
use crate::parser::data_type::ascii_bytes;
use crate::parser::data_type::match_at;
use crate::parser::data_type::match_keyword;
use crate::parser::enum_decl::spec_parse_enum;
use crate::parser::enum_decl::parse_enum;
use crate::parser::event::spec_parse_event;
use crate::parser::event::parse_event;
use crate::parser::member::spec_parse_member;
use crate::parser::member::parse_member;
use crate::parser::type_decl::spec_parse_type;
use crate::parser::type_decl::parse_type;
use crate::parser::utils::spec_parse_comments;
use crate::parser::utils::parse_comments;
use crate::parser::utils::spec_parse_u32;
use crate::parser::utils::parse_u32;
use crate::parser::utils::spec_camel_case;
use crate::parser::utils::camel_case;
use crate::parser::utils::spec_ws1;
use crate::parser::utils::ws1;
use crate::parser::utils::ws_end;
use crate::parser::utils::ws0;

broadcast use vstd::seq::group_seq_axioms, vstd::std_specs::vec::group_vec_axioms;

// ---------------------------------------------------------------------------
// Properties of a component body
// ---------------------------------------------------------------------------

pub ghost enum ComponentPropertyV {
    ID(u32),
    Member(MemberV),
    Command(CommandV),
    Event(EventV),
    Type(TypeV),
    Enum(EnumV),
}

/// One entry of a component body.
#[derive(Debug, PartialEq, Eq)]
pub enum ComponentProperty {
    ID(u32),
    Member(Member),
    Command(Command),
    Event(Event),
    Type(Type),
    Enum(Enum),
}

pub open spec fn view_component_property(p: ComponentProperty) -> ComponentPropertyV {
    match p {
        ComponentProperty::ID(v) => ComponentPropertyV::ID(v),
        ComponentProperty::Member(m) => ComponentPropertyV::Member(view_member(m)),
        ComponentProperty::Command(c) => ComponentPropertyV::Command(view_command(c)),
        ComponentProperty::Event(e) => ComponentPropertyV::Event(view_event(e)),
        ComponentProperty::Type(t) => ComponentPropertyV::Type(view_type(t)),
        ComponentProperty::Enum(e) => ComponentPropertyV::Enum(view_enum(e)),
    }
}

impl View for ComponentProperty {
    type V = ComponentPropertyV;

    open spec fn view(&self) -> ComponentPropertyV {
        view_component_property(*self)
    }
}

/// Sorting a property list into its kinds, keeping each kind's order; a
/// later identifier property overrides an earlier one.
pub open spec fn fold_component_props(ps: Seq<ComponentPropertyV>) -> (
    Option<u32>,
    Seq<MemberV>,
    Seq<EventV>,
    Seq<CommandV>,
    Seq<TypeV>,
    Seq<EnumV>,
)
    decreases ps.len(),
{
    if ps.len() == 0 {
        (None, Seq::empty(), Seq::empty(), Seq::empty(), Seq::empty(), Seq::empty())
    } else {
        let (id, ms, evs, cds, ts, es) = fold_component_props(ps.drop_last());
        match ps.last() {
            ComponentPropertyV::ID(v) => (Some(v), ms, evs, cds, ts, es),
            ComponentPropertyV::Member(m) => (id, ms.push(m), evs, cds, ts, es),
            ComponentPropertyV::Event(e) => (id, ms, evs.push(e), cds, ts, es),
            ComponentPropertyV::Command(c) => (id, ms, evs, cds.push(c), ts, es),
            ComponentPropertyV::Type(t) => (id, ms, evs, cds, ts.push(t), es),
            ComponentPropertyV::Enum(e) => (id, ms, evs, cds, ts, es.push(e)),
        }
    }
}

// ---------------------------------------------------------------------------
// The builder
// ---------------------------------------------------------------------------

pub ghost struct ComponentBuilderV {
    pub name: Option<Seq<char>>,
    pub id: Option<u32>,
    pub members: Seq<MemberV>,
    pub commands: Seq<CommandV>,
    pub events: Seq<EventV>,
    pub comments: Seq<Seq<char>>,
    pub types: Seq<TypeV>,
    pub enums: Seq<EnumV>,
}

/// Accumulates the pieces of a component declaration while its body is
/// parsed.
#[derive(Debug, PartialEq, Eq)]
pub struct ComponentBuilder {
    pub name: Option<String>,
    pub id: Option<u32>,
    pub members: Vec<Member>,
    pub commands: Vec<Command>,
    pub events: Vec<Event>,
    pub comments: Vec<String>,
    pub types: Vec<Type>,
    pub enums: Vec<Enum>,
}

impl View for ComponentBuilder {
    type V = ComponentBuilderV;

    open spec fn view(&self) -> ComponentBuilderV {
        ComponentBuilderV {
            name: match self.name {
                Some(n) => Some(n@),
                None => None,
            },
            id: self.id,
            members: view_members(self.members),
            commands: view_commands(self.commands),
            events: view_events(self.events),
            comments: view_strings(self.comments),
            types: view_types(self.types),
            enums: view_enums(self.enums),
        }
    }
}

impl Default for ComponentBuilder {
    /// An empty builder with no name, no identifier and no declarations.
    fn default() -> (r: ComponentBuilder)
        ensures
            r@.name is None,
            r@.id is None,
            r@.members == Seq::<MemberV>::empty(),
            r@.commands == Seq::<CommandV>::empty(),
            r@.events == Seq::<EventV>::empty(),
            r@.comments == Seq::<Seq<char>>::empty(),
            r@.types == Seq::<TypeV>::empty(),
            r@.enums == Seq::<EnumV>::empty(),
    {
        let r = ComponentBuilder {
            name: None,
            id: None,
            members: Vec::new(),
            commands: Vec::new(),
            events: Vec::new(),
            comments: Vec::new(),
            types: Vec::new(),
            enums: Vec::new(),
        };
        proof {
            assert(r@.members =~= Seq::<MemberV>::empty());
            assert(r@.commands =~= Seq::<CommandV>::empty());
            assert(r@.events =~= Seq::<EventV>::empty());
            assert(r@.comments =~= Seq::<Seq<char>>::empty());
            assert(r@.types =~= Seq::<TypeV>::empty());
            assert(r@.enums =~= Seq::<EnumV>::empty());
        }
        r
    }
}

impl ComponentBuilder {
    /// Files one body entry into the list for its kind; an identifier entry
    /// replaces any earlier one.
    pub fn with_property(self, property: ComponentProperty) -> (r: Self)
        ensures
            r@.name == self@.name,
            r@.comments == self@.comments,
            match property@ {
                ComponentPropertyV::ID(v) => r@ == (ComponentBuilderV { id: Some(v), ..self@ }),
                ComponentPropertyV::Member(m) => r@ == (ComponentBuilderV {
                    members: self@.members.push(m),
                    ..self@
                }),
                ComponentPropertyV::Event(e) => r@ == (ComponentBuilderV {
                    events: self@.events.push(e),
                    ..self@
                }),
                ComponentPropertyV::Command(c) => r@ == (ComponentBuilderV {
                    commands: self@.commands.push(c),
                    ..self@
                }),
                ComponentPropertyV::Type(t) => r@ == (ComponentBuilderV {
                    types: self@.types.push(t),
                    ..self@
                }),
                ComponentPropertyV::Enum(e) => r@ == (ComponentBuilderV {
                    enums: self@.enums.push(e),
                    ..self@
                }),
            },
    {
        let mut s = self;
        match property {
            ComponentProperty::ID(v) => {
                s.id = Some(v);
            },
            ComponentProperty::Member(m) => {
                let ghost mv = view_member(m);
                let ghost before = view_members(s.members);
                s.members.push(m);
                proof {
                    assert(view_members(s.members) =~= before.push(mv));
                }
            },
            ComponentProperty::Event(e) => {
                let ghost ev = view_event(e);
                let ghost before = view_events(s.events);
                s.events.push(e);
                proof {
                    assert(view_events(s.events) =~= before.push(ev));
                }
            },
            ComponentProperty::Command(c) => {
                let ghost cv = view_command(c);
                let ghost before = view_commands(s.commands);
                s.commands.push(c);
                proof {
                    assert(view_commands(s.commands) =~= before.push(cv));
                }
            },
            ComponentProperty::Type(t) => {
                let ghost tv = view_type(t);
                let ghost old_seq = s.types@;
                s.types.push(t);
                proof {
                    crate::ast::lemma_view_type_seq(old_seq);
                    crate::ast::lemma_view_type_seq(s.types@);
                    assert(view_types(s.types) =~= crate::ast::view_type_seq(old_seq).push(tv));
                }
            },
            ComponentProperty::Enum(e) => {
                let ghost ev = view_enum(e);
                let ghost before = view_enums(s.enums);
                s.enums.push(e);
                proof {
                    assert(view_enums(s.enums) =~= before.push(ev));
                }
            },
        }
        s
    }

    /// Records the declaration's name.
    pub fn with_name(self, name: String) -> (r: Self)
        ensures
            r@ == (ComponentBuilderV { name: Some(name@), ..self@ }),
    {
        ComponentBuilder { name: Some(name), ..self }
    }

    /// Records the declaration's documentation comments.
    pub fn with_comments(self, comments: Vec<String>) -> (r: Self)
        ensures
            r@ == (ComponentBuilderV { comments: view_strings(comments), ..self@ }),
    {
        ComponentBuilder { comments, ..self }
    }

    /// Finishes the component; a builder that never received a name or an
    /// identifier fails.
    pub fn build(self) -> (r: Result<Component, &'static str>)
        ensures
            r is Ok <==> self@.name is Some && self@.id is Some,
            r is Ok ==> view_component(r->Ok_0) == (ComponentV {
                name: self@.name->Some_0,
                id: self@.id->Some_0,
                members: self@.members,
                events: self@.events,
                commands: self@.commands,
                comments: self@.comments,
                enums: self@.enums,
                types: self@.types,
            }),
            r is Err && self@.name is None ==> r->Err_0@ == "Name could not be found"@,
            r is Err && self@.name is Some ==> r->Err_0@ == "ID could not be found"@,
    {
        match self.name {
            Some(name) => {
                match self.id {
                    Some(id) => Ok(
                        Component {
                            name,
                            id,
                            members: self.members,
                            events: self.events,
                            commands: self.commands,
                            comments: self.comments,
                            enums: self.enums,
                            types: self.types,
                        },
                    ),
                    None => Err("ID could not be found"),
                }
            },
            None => Err("Name could not be found"),
        }
    }
}

// ---------------------------------------------------------------------------
// The grammar
// ---------------------------------------------------------------------------

/// The identifier property: `id = N`.
pub open spec fn spec_parse_id(s: Seq<u8>, i: int) -> Option<(u32, int)> {
    if match_at(s, i, ascii_bytes("id"@)) {
        let a = ws_end(s, i + 2);
        if i + 2 <= a && a < s.len() && s[a] == 61 {
            let b = ws_end(s, a + 1);
            if a + 1 <= b && b <= s.len() {
                spec_parse_u32(s, b)
            } else {
                None
            }
        } else {
            None
        }
    } else {
        None
    }
}

/// Parses the identifier property.
pub fn parse_id(s: &[u8], i: usize) -> (r: Option<(u32, usize)>)
    requires
        i <= s@.len(),
    ensures
        r is Some <==> spec_parse_id(s@, i as int) is Some,
        r is Some ==> r->Some_0.0 == spec_parse_id(s@, i as int)->Some_0.0,
        r is Some ==> r->Some_0.1 as int == spec_parse_id(s@, i as int)->Some_0.1,
        r is Some ==> i < r->Some_0.1 <= s@.len(),
{
    proof {
        reveal_strlit("id");
    }
    if match_keyword(s, i, "id") {
        let a = ws0(s, i + 2);
        if a < s.len() && s[a] == 61 {
            let b = ws0(s, a + 1);
            parse_u32(s, b)
        } else {
            None
        }
    } else {
        None
    }
}

/// One direct property before its semicolon: the identifier, a member, a
/// command or an event.
pub open spec fn spec_parse_direct_inner(s: Seq<u8>, i: int) -> Option<(ComponentPropertyV, int)> {
    match spec_parse_id(s, i) {
        Some((v, p)) => Some((ComponentPropertyV::ID(v), p)),
        None => match spec_parse_member(s, i) {
            Some((m, p)) => Some((ComponentPropertyV::Member(m), p)),
            None => match spec_parse_command(s, i) {
                Some((c, p)) => Some((ComponentPropertyV::Command(c), p)),
                None => match spec_parse_event(s, i) {
                    Some((e, p)) => Some((ComponentPropertyV::Event(e), p)),
                    None => None,
                },
            },
        },
    }
}

fn parse_direct_inner(s: &[u8], i: usize) -> (r: Option<(ComponentProperty, usize)>)
    requires
        i <= s@.len(),
    ensures
        r is Some <==> spec_parse_direct_inner(s@, i as int) is Some,
        r is Some ==> r->Some_0.0@ == spec_parse_direct_inner(s@, i as int)->Some_0.0,
        r is Some ==> r->Some_0.1 as int == spec_parse_direct_inner(s@, i as int)->Some_0.1,
        r is Some ==> i < r->Some_0.1 <= s@.len(),
{
    match parse_id(s, i) {
        Some((v, p)) => Some((ComponentProperty::ID(v), p)),
        None => match parse_member(s, i) {
            Some((m, p)) => Some((ComponentProperty::Member(m), p)),
            None => match parse_command(s, i) {
                Some((c, p)) => Some((ComponentProperty::Command(c), p)),
                None => match parse_event(s, i) {
                    Some((e, p)) => Some((ComponentProperty::Event(e), p)),
                    None => None,
                },
            },
        },
    }
}

/// One body entry: a direct property terminated by a semicolon, a nested
/// type, or a nested enum, each surrounded by optional whitespace.
pub open spec fn spec_parse_component_property(s: Seq<u8>, i: int) -> Option<(
    ComponentPropertyV,
    int,
)> {
    if !(0 <= i <= s.len()) {
        None
    } else {
        let a = ws_end(s, i);
        if !(i <= a <= s.len()) {
            None
        } else {
            let dr = spec_parse_direct_inner(s, a);
            if dr is Some && a <= dr->Some_0.1 <= s.len() && dr->Some_0.1 <= ws_end(
                s,
                dr->Some_0.1,
            ) && ws_end(s, dr->Some_0.1) < s.len() && s[ws_end(s, dr->Some_0.1)] == 59 {
                let q = ws_end(s, dr->Some_0.1);
                let z = ws_end(s, q + 1);
                if q + 1 <= z <= s.len() {
                    Some((dr->Some_0.0, z))
                } else {
                    None
                }
            } else {
                match spec_parse_type(s, a) {
                    Some((t, p)) => {
                        if !(a < p <= s.len()) {
                            None
                        } else {
                            let z = ws_end(s, p);
                            if p <= z <= s.len() {
                                Some((ComponentPropertyV::Type(t), z))
                            } else {
                                None
                            }
                        }
                    },
                    None => match spec_parse_enum(s, a) {
                        Some((e, p)) => {
                            if !(a < p <= s.len()) {
                                None
                            } else {
                                let z = ws_end(s, p);
                                if p <= z <= s.len() {
                                    Some((ComponentPropertyV::Enum(e), z))
                                } else {
                                    None
                                }
                            }
                        },
                        None => None,
                    },
                }
            }
        }
    }
}

/// Parses one body entry.
pub fn parse_component_property(s: &[u8], i: usize) -> (r: Option<(ComponentProperty, usize)>)
    requires
        i <= s@.len(),
    ensures
        r is Some <==> spec_parse_component_property(s@, i as int) is Some,
        r is Some ==> r->Some_0.0@ == spec_parse_component_property(s@, i as int)->Some_0.0,
        r is Some ==> r->Some_0.1 as int == spec_parse_component_property(s@, i as int)->Some_0.1,
        r is Some ==> i <= r->Some_0.1 <= s@.len(),
{
    let a = ws0(s, i);
    let probe = parse_direct_inner(s, a);
    let semi = match &probe {
        Some((_, p)) => {
            let q = ws0(s, *p);
            q < s.len() && s[q] == 59
        },
        None => false,
    };
    if semi {
        match probe {
            Some((dp, p)) => {
                let q = ws0(s, p);
                let z = ws0(s, q + 1);
                Some((dp, z))
            },
            None => None,
        }
    } else {
        match parse_type(s, a) {
            Some((t, p)) => {
                let z = ws0(s, p);
                Some((ComponentProperty::Type(t), z))
            },
            None => match parse_enum(s, a) {
                Some((e, p)) => {
                    let z = ws0(s, p);
                    Some((ComponentProperty::Enum(e), z))
                },
                None => None,
            },
        }
    }
}

/// Further body entries after the first.
pub open spec fn spec_parse_component_properties(s: Seq<u8>, i: int) -> (
    Seq<ComponentPropertyV>,
    int,
)
    decreases s.len() - i when 0 <= i <= s.len()
{
    match spec_parse_component_property(s, i) {
        Some((p, j)) => {
            if i < j <= s.len() {
                let (ps, k) = spec_parse_component_properties(s, j);
                (seq![p] + ps, k)
            } else {
                (Seq::empty(), i)
            }
        },
        None => (Seq::empty(), i),
    }
}

/// Parses the body entries after the first.
pub fn parse_component_properties(s: &[u8], i: usize) -> (r: (Vec<ComponentProperty>, usize))
    requires
        i <= s@.len(),
    ensures
        r.1 as int == spec_parse_component_properties(s@, i as int).1,
        r.0@.len() == spec_parse_component_properties(s@, i as int).0.len(),
        forall|n: int| 0 <= n < r.0@.len() ==> r.0@[n]@ == spec_parse_component_properties(
            s@,
            i as int,
        ).0[n],
        i <= r.1 <= s@.len(),
    decreases s@.len() - i,
{
    match parse_component_property(s, i) {
        Some((p, j)) => {
            if j > i {
                let (rest, k) = parse_component_properties(s, j);
                let mut out = rest;
                out.insert(0, p);
                (out, k)
            } else {
                (Vec::new(), i)
            }
        },
        None => (Vec::new(), i),
    }
}

/// Leading documentation comments, the keyword `component`, the camel-case
/// name with mandatory whitespace around it, and the body in braces with at
/// least one entry and a mandatory identifier entry.
pub open spec fn spec_parse_component(s: Seq<u8>, i: int) -> Option<(ComponentV, int)> {
    if !(0 <= i <= s.len()) {
        None
    } else {
        let a0 = ws_end(s, i);
        if !(i <= a0 <= s.len()) {
            None
        } else {
            let (cs, a1) = spec_parse_comments(s, a0);
            if !(a0 <= a1 <= s.len()) {
                None
            } else {
                let a = ws_end(s, a1);
                if !(a1 <= a <= s.len()) {
                    None
                } else if match_at(s, a, ascii_bytes("component"@)) {
                    match spec_ws1(s, a + 9) {
                        Some(b) => {
                            if !(a + 9 < b && b <= s.len()) {
                                None
                            } else {
                                match spec_camel_case(s, b) {
                                    Some((name, c)) => {
                                        if !(b < c && c <= s.len()) {
                                            None
                                        } else {
                                            match spec_ws1(s, c) {
                                                Some(d) => {
                                                    if !(c < d && d <= s.len()) {
                                                        None
                                                    } else if d < s.len() && s[d] == 123 {
                                                        let e = ws_end(s, d + 1);
                                                        if !(d + 1 <= e <= s.len()) {
                                                            None
                                                        } else {
                                                            spec_parse_component_body(s, e, name, cs)
                                                        }
                                                    } else {
                                                        None
                                                    }
                                                },
                                                None => None,
                                            }
                                        }
                                    },
                                    None => None,
                                }
                            }
                        },
                        None => None,
                    }
                } else {
                    None
                }
            }
        }
    }
}

/// The body entries from the opening brace on, folded into the component.
pub open spec fn spec_parse_component_body(
    s: Seq<u8>,
    e: int,
    name: Seq<char>,
    cs: Seq<Seq<char>>,
) -> Option<(ComponentV, int)> {
    if !(0 <= e <= s.len()) {
        None
    } else {
        match spec_parse_component_property(s, e) {
            Some((p1, j)) => {
                if !(e < j <= s.len()) {
                    None
                } else {
                    let (ps, f) = spec_parse_component_properties(s, j);
                    if !(j <= f <= s.len()) {
                        None
                    } else {
                        let g = ws_end(s, f);
                        if f <= g && g < s.len() && s[g] == 125 {
                            let (id, ms, evs, cds, ts, es) = fold_component_props(seq![p1] + ps);
                            match id {
                                Some(idv) => Some(
                                    (
                                        ComponentV {
                                            name,
                                            id: idv,
                                            members: ms,
                                            events: evs,
                                            commands: cds,
                                            comments: cs,
                                            enums: es,
                                            types: ts,
                                        },
                                        g + 1,
                                    ),
                                ),
                                None => None,
                            }
                        } else {
                            None
                        }
                    }
                }
            },
            None => None,
        }
    }
}

/// Parses one component declaration.
#[verifier::rlimit(100)]
#[verifier::spinoff_prover]
pub fn parse_component(s: &[u8], i: usize) -> (r: Option<(Component, usize)>)
    requires
        i <= s@.len(),
    ensures
        r is Some <==> spec_parse_component(s@, i as int) is Some,
        r is Some ==> r->Some_0.0@ == spec_parse_component(s@, i as int)->Some_0.0,
        r is Some ==> r->Some_0.1 as int == spec_parse_component(s@, i as int)->Some_0.1,
        r is Some ==> i <= r->Some_0.1 <= s@.len(),
{
    proof {
        reveal_strlit("component");
    }
    let a0 = ws0(s, i);
    let (cs, a1) = parse_comments(s, a0);
    let a = ws0(s, a1);
    if match_keyword(s, a, "component") {
        match ws1(s, a + 9) {
            Some(b) => {
                match camel_case(s, b) {
                    Some((name, c)) => {
                        match ws1(s, c) {
                            Some(d) => {
                                if d < s.len() && s[d] == 123 {
                                    let e = ws0(s, d + 1);
                                    match parse_component_property(s, e) {
                                        Some((p1, j)) => {
                                            if j > e {
                                                let (ps, f) = parse_component_properties(s, j);
                                                let g = ws0(s, f);
                                                if g < s.len() && s[g] == 125 {
                                                    let ghost spec_props = seq![p1@]
                                                        + spec_parse_component_properties(
                                                        s@,
                                                        j as int,
                                                    ).0;
                                                    let mut props = ps;
                                                    props.insert(0, p1);
                                                    let mut builder = ComponentBuilder::default();
                                                    let total0: usize = props.len();
                                                    let ghost total = total0 as int;
                                                    let mut done: usize = 0;
                                                    while props.len() > 0
                                                        invariant
                                                            total <= usize::MAX,
                                                            done + props@.len() == total,
                                                            total == spec_props.len(),
                                                            forall|n: int|
                                                                0 <= n < props@.len()
                                                                    ==> props@[n]@ == spec_props[
                                                                    done + n
                                                                ],
                                                            builder@.name is None,
                                                            builder@.comments == Seq::<
                                                                Seq<char>,
                                                            >::empty(),
                                                            (
                                                                builder@.id,
                                                                builder@.members,
                                                                builder@.events,
                                                                builder@.commands,
                                                                builder@.types,
                                                                builder@.enums,
                                                            ) == fold_component_props(
                                                                spec_props.take(done as int),
                                                            ),
                                                        decreases props@.len(),
                                                    {
                                                        let p = props.remove(0);
                                                        builder = builder.with_property(p);
                                                        done = done + 1;
                                                        proof {
                                                            assert(spec_props.take(
                                                                done as int,
                                                            ).drop_last() =~= spec_props.take(
                                                                done - 1,
                                                            ));
                                                            assert(spec_props.take(
                                                                done as int,
                                                            ).last() == spec_props[done - 1]);
                                                        }
                                                    }
                                                    proof {
                                                        assert(spec_props.take(total)
                                                            =~= spec_props);
                                                    }
                                                    match builder.with_name(name).with_comments(
                                                        cs,
                                                    ).build() {
                                                        Ok(comp) => {
                                                            proof {
                                                                assert(view_strings(comp.comments)
                                                                    =~= spec_parse_comments(
                                                                    s@,
                                                                    a0 as int,
                                                                ).0);
                                                            }
                                                            Some((comp, g + 1))
                                                        },
                                                        Err(_) => None,
                                                    }
                                                } else {
                                                    None
                                                }
                                            } else {
                                                None
                                            }
                                        },
                                        None => None,
                                    }
                                } else {
                                    None
                                }
                            },
                            None => None,
                        }
                    },
                    None => None,
                }
            },
            None => None,
        }
    } else {
        None
    }
}

} // verus!

//! The emitter: maps the resolved schema algebra onto target-language source
//! text, with stable numeric identifiers preserved as attributes.

use vstd::prelude::*;

verus! {

use crate::ast::Command;
use crate::ast::CommandV;
use crate::ast::Component;
use crate::ast::ComponentV;
use crate::ast::DataType;
use crate::ast::Enum;
use crate::ast::EnumV;
use crate::ast::Member;
use crate::ast::MemberV;
use crate::ast::Type;
use crate::ast::TypeV;
use crate::ast::Value;
use crate::ast::Variant;
use crate::ast::VariantV;
use crate::ast::view_commands;
use crate::ast::view_component;
use crate::ast::view_components;
use crate::ast::view_data_types;
use crate::ast::view_enums;
use crate::ast::view_members;
use crate::ast::view_strings;
use crate::ast::view_type;
use crate::ast::view_types;
use crate::ast::view_variants;
use crate::ast::lemma_view_type_seq;
use crate::resolver::height_type;
use crate::resolver::height_type_list;
use crate::ast::DataTypeV;
use crate::ast::UserDefinedType;
use crate::ast::UserDefinedTypeV;
use crate::kind::ResolvedTypeKind;
use crate::text::push_char;

broadcast use vstd::seq::group_seq_axioms, vstd::std_specs::vec::group_vec_axioms;

// ---------------------------------------------------------------------------
// Decimal numbers
// ---------------------------------------------------------------------------

pub open spec fn spec_digit_char(d: int) -> char {
    ((48 + d) as u8) as char
}

/// The decimal digits of a number, most significant first.
pub open spec fn spec_dec(n: int) -> Seq<char>
    decreases n,
{
    if n < 10 {
        seq![spec_digit_char(if n < 0 { 0 } else { n % 10 })]
    } else {
        spec_dec(n / 10).push(spec_digit_char(n % 10))
    }
}

/// Renders a 32-bit number in decimal.
pub fn u32_to_string(n: u32) -> (r: String)
    ensures
        r@ == spec_dec(n as int),
    decreases n,
{
    if n < 10 {
        let mut s = String::new();
        push_char(&mut s, (48 + (n as u8)) as char);
        s
    } else {
        let mut s = u32_to_string(n / 10);
        push_char(&mut s, (48 + ((n % 10) as u8)) as char);
        s
    }
}

/// Renders a machine-word number in decimal.
pub fn usize_to_string(n: usize) -> (r: String)
    ensures
        r@ == spec_dec(n as int),
    decreases n,
{
    if n < 10 {
        let mut s = String::new();
        push_char(&mut s, (48 + (n as u8)) as char);
        s
    } else {
        let mut s = usize_to_string(n / 10);
        push_char(&mut s, (48 + ((n % 10) as u8)) as char);
        s
    }
}

// ---------------------------------------------------------------------------
// Case conversion
// ---------------------------------------------------------------------------

pub open spec fn spec_lower_char(c: char) -> char {
    if 'A' <= c <= 'Z' {
        (((c as u8) + 32) as u8) as char
    } else {
        c
    }
}

pub open spec fn spec_upper_char(c: char) -> char {
    if 'a' <= c <= 'z' {
        (((c as u8) - 32) as u8) as char
    } else {
        c
    }
}

/// Upper-camel-case of a snake-case name: underscores dropped, the letter
/// after each dropped underscore (and the first letter) capitalised, every
/// other letter lowered.
pub open spec fn spec_upper_camel_from(s: Seq<char>, i: int, at_start: bool) -> Seq<char>
    decreases s.len() - i when 0 <= i <= s.len()
{
    if i >= s.len() {
        Seq::empty()
    } else if s[i] == '_' {
        spec_upper_camel_from(s, i + 1, true)
    } else if at_start {
        seq![spec_upper_char(spec_lower_char(s[i]))] + spec_upper_camel_from(s, i + 1, false)
    } else {
        seq![spec_lower_char(s[i])] + spec_upper_camel_from(s, i + 1, false)
    }
}

pub open spec fn spec_upper_camel(s: Seq<char>) -> Seq<char> {
    spec_upper_camel_from(s, 0, true)
}

/// Converts a snake-case name to upper camel case.
pub fn to_upper_camel_case(s: &str) -> (r: String)
    ensures
        r@ == spec_upper_camel(s@),
{
    let n = s.unicode_len();
    let mut r = String::new();
    let mut k: usize = 0;
    let mut at_start = true;
    while k < n
        invariant
            0 <= k <= n,
            n == s@.len(),
            spec_upper_camel(s@) == r@ + spec_upper_camel_from(s@, k as int, at_start),
        decreases n - k,
    {
        let c = s.get_char(k);
        if c == '_' {
            at_start = true;
        } else {
            let mapped = if 'A' <= c && c <= 'Z' {
                (((c as u8) + 32) as u8) as char
            } else {
                c
            };
            let cased = if at_start {
                if 'a' <= mapped && mapped <= 'z' {
                    (((mapped as u8) - 32) as u8) as char
                } else {
                    mapped
                }
            } else {
                mapped
            };
            push_char(&mut r, cased);
            at_start = false;
        }
        k = k + 1;
    }
    proof {
        assert(spec_upper_camel_from(s@, n as int, at_start) =~= Seq::<char>::empty());
        assert(r@ =~= spec_upper_camel(s@));
    }
    r
}

// ---------------------------------------------------------------------------
// Type mapping tables
// ---------------------------------------------------------------------------

/// Every user-defined leaf is resolved, and none of them points at a
/// component: the condition under which a type can be spelled in schema
/// syntax again.
pub open spec fn spec_dt_printable(d: DataTypeV) -> bool
    decreases d,
{
    match d {
        DataTypeV::UserDefined(u) => u is Resolved && !(u->Resolved_1 is Component),
        DataTypeV::Mapping(k, v) => spec_dt_printable(*k) && spec_dt_printable(*v),
        DataTypeV::List(t) => spec_dt_printable(*t),
        DataTypeV::Option(t) => spec_dt_printable(*t),
        _ => true,
    }
}

/// The schema-language spelling of a resolved reference's kind.
pub open spec fn spec_udt_spatial(u: UserDefinedTypeV) -> Seq<char> {
    match u->Resolved_1 {
        ResolvedTypeKind::Enum => "enum"@,
        _ => "type"@,
    }
}

/// The schema-language spelling of a data type.
pub open spec fn spec_spatial_type(d: DataTypeV) -> Seq<char>
    decreases d,
{
    match d {
        DataTypeV::Bool => "bool"@,
        DataTypeV::Float => "float"@,
        DataTypeV::Bytes => "bytes"@,
        DataTypeV::Int32 => "int32"@,
        DataTypeV::Int64 => "int64"@,
        DataTypeV::String => "string"@,
        DataTypeV::Double => "double"@,
        DataTypeV::Uint32 => "uint32"@,
        DataTypeV::Uint64 => "uint64"@,
        DataTypeV::SInt32 => "sint32"@,
        DataTypeV::SInt64 => "sint64"@,
        DataTypeV::Fixed32 => "fixed32"@,
        DataTypeV::Fixed64 => "fixed64"@,
        DataTypeV::SFixed32 => "sfixed32"@,
        DataTypeV::SFixed64 => "sfixed64"@,
        DataTypeV::EntityID => "EntityId"@,
        DataTypeV::Entity => "Entity"@,
        DataTypeV::Mapping(k, v) => "map<"@ + spec_spatial_type(*k) + ","@ + spec_spatial_type(*v)
            + ">"@,
        DataTypeV::List(t) => "list<"@ + spec_spatial_type(*t) + ">"@,
        DataTypeV::Option(t) => "option<"@ + spec_spatial_type(*t) + ">"@,
        DataTypeV::UserDefined(u) => spec_udt_spatial(u),
    }
}

/// The target-language spelling of a data type.
pub open spec fn spec_rust_type(d: DataTypeV) -> Seq<char>
    decreases d,
{
    match d {
        DataTypeV::Bool => "bool"@,
        DataTypeV::Uint32 => "u32"@,
        DataTypeV::Uint64 => "u64"@,
        DataTypeV::Int32 => "i32"@,
        DataTypeV::Int64 => "i64"@,
        DataTypeV::Float => "f32"@,
        DataTypeV::Double => "f64"@,
        DataTypeV::String => "String"@,
        DataTypeV::Bytes => "Vec<u8>"@,
        DataTypeV::Mapping(k, v) => "HashMap<"@ + spec_rust_type(*k) + ", "@ + spec_rust_type(*v)
            + ">"@,
        DataTypeV::List(t) => "Vec<"@ + spec_rust_type(*t) + ">"@,
        DataTypeV::Option(t) => "Option<"@ + spec_rust_type(*t) + ">"@,
        DataTypeV::UserDefined(u) => spec_udt_rust(u),
        _ => "uninmplemented()!"@,
    }
}

/// The target-language spelling of a user-defined reference: the name as
/// written before resolution, or the carried fully qualified path after it.
pub open spec fn spec_udt_rust(u: UserDefinedTypeV) -> Seq<char> {
    match u {
        UserDefinedTypeV::Unresolved(n) => n,
        UserDefinedTypeV::Resolved(n, _) => n,
    }
}

impl UserDefinedType {
    /// The schema-language spelling of this reference's kind; only resolved
    /// non-component references have one.
    pub fn spatial_type(&self) -> (r: String)
        requires
            self@ is Resolved,
            !(self@->Resolved_1 is Component),
        ensures
            r@ == spec_udt_spatial(self@),
    {
        match self {
            UserDefinedType::Resolved(_, kind) => match kind {
                ResolvedTypeKind::Enum => "enum".to_owned(),
                _ => "type".to_owned(),
            },
            UserDefinedType::Unresolved(_) => {
                proof {
                    assert(false);
                }
                String::new()
            },
        }
    }

    /// The target-language spelling of this reference.
    pub fn rust_type(&self) -> (r: String)
        ensures
            r@ == spec_udt_rust(self@),
    {
        match self {
            UserDefinedType::Unresolved(n) => n.clone(),
            UserDefinedType::Resolved(n, _) => n.clone(),
        }
    }
}

impl DataType {
    /// The schema-language spelling of this type.
    pub fn spatial_type(&self) -> (r: String)
        requires
            spec_dt_printable(self@),
        ensures
            r@ == spec_spatial_type(self@),
        decreases *self,
    {
        match self {
            DataType::Bool => "bool".to_owned(),
            DataType::Float => "float".to_owned(),
            DataType::Bytes => "bytes".to_owned(),
            DataType::Int32 => "int32".to_owned(),
            DataType::Int64 => "int64".to_owned(),
            DataType::String => "string".to_owned(),
            DataType::Double => "double".to_owned(),
            DataType::Uint32 => "uint32".to_owned(),
            DataType::Uint64 => "uint64".to_owned(),
            DataType::SInt32 => "sint32".to_owned(),
            DataType::SInt64 => "sint64".to_owned(),
            DataType::Fixed32 => "fixed32".to_owned(),
            DataType::Fixed64 => "fixed64".to_owned(),
            DataType::SFixed32 => "sfixed32".to_owned(),
            DataType::SFixed64 => "sfixed64".to_owned(),
            DataType::EntityID => "EntityId".to_owned(),
            DataType::Entity => "Entity".to_owned(),
            DataType::Mapping(k, v) => {
                let mut s = "map<".to_owned();
                s.append(k.spatial_type().as_str());
                s.append(",");
                s.append(v.spatial_type().as_str());
                s.append(">");
                proof {
                    assert(s@ =~= spec_spatial_type(self@));
                }
                s
            },
            DataType::List(t) => {
                let mut s = "list<".to_owned();
                s.append(t.spatial_type().as_str());
                s.append(">");
                proof {
                    assert(s@ =~= spec_spatial_type(self@));
                }
                s
            },
            DataType::Option(t) => {
                let mut s = "option<".to_owned();
                s.append(t.spatial_type().as_str());
                s.append(">");
                proof {
                    assert(s@ =~= spec_spatial_type(self@));
                }
                s
            },
            DataType::UserDefined(u) => u.spatial_type(),
        }
    }

    /// The target-language spelling of this type.
    pub fn rust_type(&self) -> (r: String)
        ensures
            r@ == spec_rust_type(self@),
        decreases *self,
    {
        match self {
            DataType::Bool => "bool".to_owned(),
            DataType::Uint32 => "u32".to_owned(),
            DataType::Uint64 => "u64".to_owned(),
            DataType::Int32 => "i32".to_owned(),
            DataType::Int64 => "i64".to_owned(),
            DataType::Float => "f32".to_owned(),
            DataType::Double => "f64".to_owned(),
            DataType::String => "String".to_owned(),
            DataType::Bytes => "Vec<u8>".to_owned(),
            DataType::Mapping(k, v) => {
                let mut s = "HashMap<".to_owned();
                s.append(k.rust_type().as_str());
                s.append(", ");
                s.append(v.rust_type().as_str());
                s.append(">");
                proof {
                    assert(s@ =~= spec_rust_type(self@));
                }
                s
            },
            DataType::List(t) => {
                let mut s = "Vec<".to_owned();
                s.append(t.rust_type().as_str());
                s.append(">");
                proof {
                    assert(s@ =~= spec_rust_type(self@));
                }
                s
            },
            DataType::Option(t) => {
                let mut s = "Option<".to_owned();
                s.append(t.rust_type().as_str());
                s.append(">");
                proof {
                    assert(s@ =~= spec_rust_type(self@));
                }
                s
            },
            DataType::UserDefined(u) => u.rust_type(),
            _ => "uninmplemented()!".to_owned(),
        }
    }
}

// ---------------------------------------------------------------------------
// Documentation attributes
// ---------------------------------------------------------------------------

/// One `#[doc = "..."]` line per captured comment.
pub open spec fn spec_doc_lines(cs: Seq<Seq<char>>) -> Seq<char>
    decreases cs.len(),
{
    if cs.len() == 0 {
        Seq::empty()
    } else {
        spec_doc_lines(cs.drop_last()) + "#[doc = \""@ + cs.last() + "\"]\n"@
    }
}

fn doc_lines(cs: &Vec<String>) -> (r: String)
    ensures
        r@ == spec_doc_lines(view_strings(*cs)),
{
    let ghost cvs = view_strings(*cs);
    let mut r = String::new();
    let n = cs.len();
    let mut k: usize = 0;
    while k < n
        invariant
            0 <= k <= n,
            n == cs@.len(),
            cvs == view_strings(*cs),
            cvs.len() == n,
            r@ == spec_doc_lines(cvs.take(k as int)),
        decreases n - k,
    {
        r.append("#[doc = \"");
        r.append(cs[k].as_str());
        r.append("\"]\n");
        k = k + 1;
        proof {
            assert(cvs.take(k as int).drop_last() =~= cvs.take(k - 1));
            assert(cvs.take(k as int).last() == cvs[k - 1]);
        }
    }
    proof {
        assert(cvs.take(n as int) =~= cvs);
    }
    r
}

// ---------------------------------------------------------------------------
// Members
// ---------------------------------------------------------------------------

pub open spec fn spec_member_one(m: MemberV) -> Seq<char> {
    spec_doc_lines(m.comments) + "#[field_id("@ + spec_dec(m.id as int) + ")]\n#[spatial_type("@
        + spec_spatial_type(m.m_type) + ")]\n"@ + m.name + ": "@ + spec_rust_type(m.m_type)
}

pub open spec fn spec_members_printable(ms: Seq<MemberV>) -> bool {
    forall|i: int| 0 <= i < ms.len() ==> spec_dt_printable(#[trigger] ms[i].m_type)
}

/// The members joined with commas.
pub open spec fn spec_members_gen(ms: Seq<MemberV>) -> Seq<char>
    decreases ms.len(),
{
    if ms.len() == 0 {
        Seq::empty()
    } else if ms.len() == 1 {
        spec_member_one(ms[0])
    } else {
        spec_members_gen(ms.drop_last()) + ",\n"@ + spec_member_one(ms.last())
    }
}

impl Member {
    /// Emits one member: its documentation, identifier and schema-type
    /// attributes, and the field itself.
    pub fn generate_one(&self) -> (r: String)
        requires
            spec_dt_printable(self@.m_type),
        ensures
            r@ == spec_member_one(self@),
    {
        let mut r = doc_lines(&self.comments);
        r.append("#[field_id(");
        r.append(u32_to_string(self.id).as_str());
        r.append(")]\n#[spatial_type(");
        r.append(self.m_type.spatial_type().as_str());
        r.append(")]\n");
        r.append(self.name.as_str());
        r.append(": ");
        r.append(self.m_type.rust_type().as_str());
        proof {
            assert(r@ =~= spec_member_one(self@));
        }
        r
    }

    /// Emits a member list joined with commas.
    pub fn generate_multiple(data: &Vec<Member>) -> (r: String)
        requires
            spec_members_printable(view_members(*data)),
        ensures
            r@ == spec_members_gen(view_members(*data)),
    {
        let ghost mvs = view_members(*data);
        let mut r = String::new();
        let n = data.len();
        let mut k: usize = 0;
        while k < n
            invariant
                0 <= k <= n,
                n == data@.len(),
                mvs == view_members(*data),
                mvs.len() == n,
                spec_members_printable(mvs),
                r@ == spec_members_gen(mvs.take(k as int)),
            decreases n - k,
        {
            proof {
                assert(spec_dt_printable(mvs[k as int].m_type));
            }
            if k > 0 {
                r.append(",\n");
            }
            r.append(data[k].generate_one().as_str());
            k = k + 1;
            proof {
                assert(mvs.take(k as int).drop_last() =~= mvs.take(k - 1));
                assert(mvs.take(k as int).last() == mvs[k - 1]);
                assert(r@ =~= spec_members_gen(mvs.take(k as int)));
            }
        }
        proof {
            assert(mvs.take(n as int) =~= mvs);
        }
        r
    }
}

// ---------------------------------------------------------------------------
// Variants and values
// ---------------------------------------------------------------------------

pub open spec fn spec_variant_one(v: VariantV) -> Seq<char> {
    spec_doc_lines(v.comments) + "#[value("@ + spec_dec(v.id as int) + ")]\n"@ + spec_upper_camel(
        v.name,
    )
}

pub open spec fn spec_variants_gen(vs: Seq<VariantV>) -> Seq<char>
    decreases vs.len(),
{
    if vs.len() == 0 {
        Seq::empty()
    } else if vs.len() == 1 {
        spec_variant_one(vs[0])
    } else {
        spec_variants_gen(vs.drop_last()) + ",\n"@ + spec_variant_one(vs.last())
    }
}

impl Variant {
    /// Emits one enum variant with its stable value attribute.
    pub fn generate_one(&self) -> (r: String)
        ensures
            r@ == spec_variant_one(self@),
    {
        let mut r = doc_lines(&self.comments);
        r.append("#[value(");
        r.append(u32_to_string(self.id).as_str());
        r.append(")]\n");
        r.append(to_upper_camel_case(self.name.as_str()).as_str());
        proof {
            assert(r@ =~= spec_variant_one(self@));
        }
        r
    }

    /// Emits a variant list joined with commas.
    pub fn generate_multiple(data: &Vec<Variant>) -> (r: String)
        ensures
            r@ == spec_variants_gen(view_variants(*data)),
    {
        let ghost vvs = view_variants(*data);
        let mut r = String::new();
        let n = data.len();
        let mut k: usize = 0;
        while k < n
            invariant
                0 <= k <= n,
                n == data@.len(),
                vvs == view_variants(*data),
                vvs.len() == n,
                r@ == spec_variants_gen(vvs.take(k as int)),
            decreases n - k,
        {
            if k > 0 {
                r.append(",\n");
            }
            r.append(data[k].generate_one().as_str());
            k = k + 1;
            proof {
                assert(vvs.take(k as int).drop_last() =~= vvs.take(k - 1));
                assert(vvs.take(k as int).last() == vvs[k - 1]);
            }
        }
        proof {
            assert(vvs.take(n as int) =~= vvs);
        }
        r
    }
}

impl Value {
    /// Emits one bare enum value.
    pub fn generate_one(&self) -> (r: String)
        ensures
            r@ == "    "@ + self@.name + ","@,
    {
        let mut r = "    ".to_owned();
        r.append(self.name.as_str());
        r.append(",");
        r
    }

    /// Emits the values as lines, or nothing for an empty list.
    pub fn generate_multiple(data: &Vec<Value>) -> (r: String)
        ensures
            data@.len() == 0 ==> r@ == Seq::<char>::empty(),
            data@.len() > 0 ==> r@ == "\n"@ + spec_values_gen(
                Seq::new(data@.len(), |i: int| data@[i]@.name),
            ) + "\n"@,
    {
        let ghost names = Seq::new(data@.len(), |i: int| data@[i]@.name);
        if data.len() == 0 {
            return String::new();
        }
        let mut body = String::new();
        let n = data.len();
        let mut k: usize = 0;
        while k < n
            invariant
                0 <= k <= n,
                n == data@.len(),
                names.len() == n,
                forall|i: int| 0 <= i < n ==> names[i] == data@[i]@.name,
                body@ == spec_values_gen(names.take(k as int)),
            decreases n - k,
        {
            if k > 0 {
                body.append("\n");
            }
            body.append(data[k].generate_one().as_str());
            k = k + 1;
            proof {
                assert(names.take(k as int).drop_last() =~= names.take(k - 1));
                assert(names.take(k as int).last() == names[k - 1]);
                assert(body@ =~= spec_values_gen(names.take(k as int)));
            }
        }
        proof {
            assert(names.take(n as int) =~= names);
        }
        let mut r = "\n".to_owned();
        r.append(body.as_str());
        r.append("\n");
        r
    }
}

/// The value lines joined with line breaks.
pub open spec fn spec_values_gen(names: Seq<Seq<char>>) -> Seq<char>
    decreases names.len(),
{
    if names.len() == 0 {
        Seq::empty()
    } else if names.len() == 1 {
        "    "@ + names[0] + ","@
    } else {
        spec_values_gen(names.drop_last()) + "\n"@ + ("    "@ + names.last() + ","@)
    }
}

// ---------------------------------------------------------------------------
// Commands
// ---------------------------------------------------------------------------

pub open spec fn spec_commands_printable(cs: Seq<CommandV>) -> bool {
    forall|i: int|
        0 <= i < cs.len() ==> (#[trigger] cs[i].args.len()) >= 1 && spec_dt_printable(cs[i].r_type)
            && (forall|j: int| 0 <= j < cs[i].args.len() ==> spec_dt_printable(
                #[trigger] cs[i].args[j],
            ))
}

/// The name of the function type generated for a command.
pub open spec fn spec_command_name(component_name: Seq<char>, c: CommandV) -> Seq<char> {
    component_name + spec_upper_camel(c.name)
}

pub open spec fn spec_command_member(component_name: Seq<char>, c: CommandV) -> Seq<char> {
    c.name + ": PhantomData<"@ + spec_command_name(component_name, c) + ">"@
}

/// The request type: a tuple for several arguments, the argument itself for
/// one.
pub open spec fn spec_request_args(args: Seq<DataTypeV>) -> Seq<char> {
    if args.len() > 1 {
        "("@ + spec_args_join(args) + ")"@
    } else {
        spec_rust_type(args[0])
    }
}

pub open spec fn spec_args_join(args: Seq<DataTypeV>) -> Seq<char>
    decreases args.len(),
{
    if args.len() == 0 {
        Seq::empty()
    } else if args.len() == 1 {
        spec_rust_type(args[0])
    } else {
        spec_args_join(args.drop_last()) + ", "@ + spec_rust_type(args.last())
    }
}

pub open spec fn spec_command_types(component_name: Seq<char>, c: CommandV) -> Seq<char> {
    let cn = spec_command_name(component_name, c);
    "type "@ + cn + "Request = "@ + spec_request_args(c.args) + ";\ntype "@ + cn + "Response = "@
        + spec_rust_type(c.r_type) + ";\ntype "@ + cn + " = Fn("@ + cn + "Request) -> "@ + cn
        + "Response;\n"@
}

impl Command {
    /// Emits the component field that carries this command.
    pub fn get_member(&self, component_name: &str) -> (r: String)
        ensures
            r@ == spec_command_member(component_name@, self@),
    {
        let mut r = self.name.clone();
        r.append(": PhantomData<");
        r.append(component_name);
        r.append(to_upper_camel_case(self.name.as_str()).as_str());
        r.append(">");
        proof {
            assert(r@ =~= spec_command_member(component_name@, self@));
        }
        r
    }

    /// Emits the request/response type pair and the function-type alias for
    /// this command.
    pub fn get_types(&self, component_name: &str) -> (r: String)
        requires
            self@.args.len() >= 1,
            spec_dt_printable(self@.r_type),
            forall|j: int| 0 <= j < self@.args.len() ==> spec_dt_printable(
                #[trigger] self@.args[j],
            ),
        ensures
            r@ == spec_command_types(component_name@, self@),
    {
        let mut cn = component_name.to_owned();
        cn.append(to_upper_camel_case(self.name.as_str()).as_str());
        let mut r = "type ".to_owned();
        r.append(cn.as_str());
        r.append("Request = ");
        let ghost avs = view_data_types(self.args);
        if self.args.len() > 1 {
            r.append("(");
            let n = self.args.len();
            let mut k: usize = 0;
            let mut joined = String::new();
            while k < n
                invariant
                    0 <= k <= n,
                    n == self.args@.len(),
                    avs == view_data_types(self.args),
                    avs.len() == n,
                    forall|j: int| 0 <= j < n ==> spec_dt_printable(#[trigger] avs[j]),
                    joined@ == spec_args_join(avs.take(k as int)),
                decreases n - k,
            {
                if k > 0 {
                    joined.append(", ");
                }
                joined.append(self.args[k].rust_type().as_str());
                k = k + 1;
                proof {
                    assert(avs.take(k as int).drop_last() =~= avs.take(k - 1));
                    assert(avs.take(k as int).last() == avs[k - 1]);
                    assert(joined@ =~= spec_args_join(avs.take(k as int)));
                }
            }
            proof {
                assert(avs.take(n as int) =~= avs);
            }
            r.append(joined.as_str());
            r.append(")");
        } else {
            r.append(self.args[0].rust_type().as_str());
        }
        r.append(";\ntype ");
        r.append(cn.as_str());
        r.append("Response = ");
        r.append(self.r_type.rust_type().as_str());
        r.append(";\ntype ");
        r.append(cn.as_str());
        r.append(" = Fn(");
        r.append(cn.as_str());
        r.append("Request) -> ");
        r.append(cn.as_str());
        r.append("Response;\n");
        proof {
            assert(r@ =~= spec_command_types(component_name@, self@));
        }
        r
    }
}

pub open spec fn spec_command_members_gen(component_name: Seq<char>, cs: Seq<CommandV>) -> Seq<
    char,
>
    decreases cs.len(),
{
    if cs.len() == 0 {
        Seq::empty()
    } else if cs.len() == 1 {
        spec_command_member(component_name, cs[0])
    } else {
        spec_command_members_gen(component_name, cs.drop_last()) + ",\n"@ + spec_command_member(
            component_name,
            cs.last(),
        )
    }
}

pub open spec fn spec_command_types_gen(component_name: Seq<char>, cs: Seq<CommandV>) -> Seq<char>
    decreases cs.len(),
{
    if cs.len() == 0 {
        Seq::empty()
    } else {
        spec_command_types_gen(component_name, cs.drop_last()) + spec_command_types(
            component_name,
            cs.last(),
        )
    }
}

// ---------------------------------------------------------------------------
// Enums
// ---------------------------------------------------------------------------

pub open spec fn spec_enum_one(e: EnumV) -> Seq<char> {
    spec_doc_lines(e.comments) + "#[derive(SpatialEnum, Debug, Clone)]\npub enum "@ + e.name
        + " {\n"@ + spec_variants_gen(e.variants) + "\n}\n"@
}

pub open spec fn spec_enums_gen(es: Seq<EnumV>) -> Seq<char>
    decreases es.len(),
{
    if es.len() == 0 {
        Seq::empty()
    } else {
        spec_enums_gen(es.drop_last()) + spec_enum_one(es.last())
    }
}

impl Enum {
    /// Emits one enum declaration with its stable value attributes.
    pub fn generate_one(&self) -> (r: String)
        ensures
            r@ == spec_enum_one(self@),
    {
        let mut r = doc_lines(&self.comments);
        r.append("#[derive(SpatialEnum, Debug, Clone)]\npub enum ");
        r.append(self.name.as_str());
        r.append(" {\n");
        r.append(Variant::generate_multiple(&self.variants).as_str());
        r.append("\n}\n");
        proof {
            assert(r@ =~= spec_enum_one(self@));
        }
        r
    }

    /// Emits every enum of a list.
    pub fn generate_multiple(data: &Vec<Enum>) -> (r: String)
        ensures
            r@ == spec_enums_gen(view_enums(*data)),
    {
        let ghost evs = view_enums(*data);
        let mut r = String::new();
        let n = data.len();
        let mut k: usize = 0;
        while k < n
            invariant
                0 <= k <= n,
                n == data@.len(),
                evs == view_enums(*data),
                evs.len() == n,
                r@ == spec_enums_gen(evs.take(k as int)),
            decreases n - k,
        {
            r.append(data[k].generate_one().as_str());
            k = k + 1;
            proof {
                assert(evs.take(k as int).drop_last() =~= evs.take(k - 1));
                assert(evs.take(k as int).last() == evs[k - 1]);
                assert(r@ =~= spec_enums_gen(evs.take(k as int)));
            }
        }
        proof {
            assert(evs.take(n as int) =~= evs);
        }
        r
    }
}

// ---------------------------------------------------------------------------
// Types
// ---------------------------------------------------------------------------

pub open spec fn spec_type_printable(t: TypeV) -> bool
    decreases height_type(t), 1int,
{
    spec_members_printable(t.members) && spec_type_list_printable(t.types)
}

pub open spec fn spec_type_list_printable(ts: Seq<TypeV>) -> bool
    decreases height_type_list(ts), 0int,
{
    if ts.len() == 0 {
        true
    } else {
        spec_type_printable(ts[0]) && spec_type_list_printable(ts.skip(1))
    }
}

pub open spec fn spec_type_one(t: TypeV) -> Seq<char>
    decreases height_type(t), 1int,
{
    spec_enums_gen(t.enums) + spec_type_list_gen(t.types) + "#[allow(dead_code)]\n"@
        + spec_doc_lines(t.comments) + "#[derive(SpatialType)]\npub struct "@ + t.name + " {\n"@
        + spec_members_gen(t.members) + "\n}\n"@
}

pub open spec fn spec_type_list_gen(ts: Seq<TypeV>) -> Seq<char>
    decreases height_type_list(ts), 0int,
{
    if ts.len() == 0 {
        Seq::empty()
    } else {
        spec_type_one(ts[0]) + spec_type_list_gen(ts.skip(1))
    }
}

impl Type {
    /// Emits one type declaration, preceded by its nested enums and types.
    pub fn generate_one(&self) -> (r: String)
        requires
            spec_type_printable(self@),
        ensures
            r@ == spec_type_one(self@),
        decreases height_type(self@), 1int,
    {
        let mut r = Enum::generate_multiple(&self.enums);
        let ghost tvs = view_types(self.types);
        proof {
            lemma_view_type_seq(self.types@);
        }
        let n = self.types.len();
        let mut k: usize = 0;
        let mut nested = String::new();
        proof {
            assert(tvs.skip(0) =~= tvs);
            assert(nested@ + spec_type_list_gen(tvs) =~= spec_type_list_gen(tvs));
        }
        while k < n
            invariant
                0 <= k <= n,
                n == self.types@.len(),
                tvs == view_types(self.types),
                tvs.len() == n,
                spec_type_list_printable(tvs.skip(k as int)),
                forall|m: int| 0 <= m < n ==> tvs[m] == view_type(self.types@[m]),
                nested@ + spec_type_list_gen(tvs.skip(k as int)) == spec_type_list_gen(tvs),
            decreases n - k,
        {
            proof {
                assert(decreases_to!(height_type(self@), 1int => height_type(
                    tvs[k as int],
                ), 1int)) by {
                    lemma_height_type_list_skip(tvs, k as int);
                }
            }
            nested.append(self.types[k].generate_one().as_str());
            k = k + 1;
            proof {
                assert(tvs.skip(k - 1)[0] == tvs[k - 1]);
                assert(tvs.skip(k - 1).skip(1) =~= tvs.skip(k as int));
            }
        }
        proof {
            assert(spec_type_list_gen(tvs.skip(n as int)) =~= Seq::<char>::empty());
            assert(nested@ =~= spec_type_list_gen(tvs));
        }
        r.append(nested.as_str());
        r.append("#[allow(dead_code)]\n");
        r.append(doc_lines(&self.comments).as_str());
        r.append("#[derive(SpatialType)]\npub struct ");
        r.append(self.name.as_str());
        r.append(" {\n");
        r.append(Member::generate_multiple(&self.members).as_str());
        r.append("\n}\n");
        proof {
            assert(r@ =~= spec_type_one(self@));
        }
        r
    }

    /// Emits every type of a list.
    pub fn generate_multiple(data: &Vec<Type>) -> (r: String)
        requires
            spec_type_list_printable(view_types(*data)),
        ensures
            r@ == spec_type_list_gen(view_types(*data)),
    {
        let ghost tvs = view_types(*data);
        proof {
            lemma_view_type_seq(data@);
        }
        let mut r = String::new();
        let n = data.len();
        let mut k: usize = 0;
        proof {
            assert(tvs.skip(0) =~= tvs);
            assert(r@ + spec_type_list_gen(tvs) =~= spec_type_list_gen(tvs));
        }
        while k < n
            invariant
                0 <= k <= n,
                n == data@.len(),
                tvs == view_types(*data),
                tvs.len() == n,
                spec_type_list_printable(tvs.skip(k as int)),
                forall|m: int| 0 <= m < n ==> tvs[m] == view_type(data@[m]),
                r@ + spec_type_list_gen(tvs.skip(k as int)) == spec_type_list_gen(tvs),
            decreases n - k,
        {
            r.append(data[k].generate_one().as_str());
            k = k + 1;
            proof {
                assert(tvs.skip(k - 1)[0] == tvs[k - 1]);
                assert(tvs.skip(k - 1).skip(1) =~= tvs.skip(k as int));
            }
        }
        proof {
            assert(spec_type_list_gen(tvs.skip(n as int)) =~= Seq::<char>::empty());
            assert(r@ =~= spec_type_list_gen(tvs));
        }
        r
    }
}

/// The tail of a type list weighs no more than the whole list.
proof fn lemma_height_type_list_skip(ts: Seq<TypeV>, k: int)
    requires
        0 <= k < ts.len(),
    ensures
        height_type(ts[k]) < height_type_list(ts),
    decreases k,
{
    if k == 0 {
    } else {
        lemma_height_type_list_skip(ts.skip(1), k - 1);
        assert(ts.skip(1)[k - 1] == ts[k]);
    }
}

// ---------------------------------------------------------------------------
// Components
// ---------------------------------------------------------------------------

pub open spec fn spec_component_printable(c: ComponentV) -> bool {
    spec_members_printable(c.members) && spec_commands_printable(c.commands)
        && spec_type_list_printable(c.types)
}

pub open spec fn spec_component_one(c: ComponentV) -> Seq<char> {
    spec_enums_gen(c.enums) + spec_type_list_gen(c.types) + "#[allow(dead_code)]\n"@
        + spec_doc_lines(c.comments) + "#[derive(SpatialComponent)]\n#[id("@ + spec_dec(
        c.id as int,
    ) + ")]\npub struct "@ + c.name + " {\n"@ + spec_members_gen(c.members) + (
    if c.members.len() > 0 && c.commands.len() > 0 {
        ",\n"@
    } else {
        Seq::<char>::empty()
    }) + spec_command_members_gen(c.name, c.commands) + "\n}\n"@ + spec_command_types_gen(
        c.name,
        c.commands,
    )
}

pub open spec fn spec_components_gen(cs: Seq<ComponentV>) -> Seq<char>
    decreases cs.len(),
{
    if cs.len() == 0 {
        Seq::empty()
    } else {
        spec_components_gen(cs.drop_last()) + spec_component_one(cs.last())
    }
}

impl Component {
    /// Emits one component: its nested declarations, the annotated struct
    /// with its system-wide identifier, and the command type aliases.
    pub fn generate_one(&self) -> (r: String)
        requires
            spec_component_printable(self@),
        ensures
            r@ == spec_component_one(self@),
    {
        let ghost cv = self@;
        let mut r = Enum::generate_multiple(&self.enums);
        r.append(Type::generate_multiple(&self.types).as_str());
        r.append("#[allow(dead_code)]\n");
        r.append(doc_lines(&self.comments).as_str());
        r.append("#[derive(SpatialComponent)]\n#[id(");
        r.append(u32_to_string(self.id).as_str());
        r.append(")]\npub struct ");
        r.append(self.name.as_str());
        r.append(" {\n");
        r.append(Member::generate_multiple(&self.members).as_str());
        if self.members.len() > 0 && self.commands.len() > 0 {
            r.append(",\n");
        }
        let ghost cds = view_commands(self.commands);
        let n = self.commands.len();
        let mut k: usize = 0;
        let mut cmd_members = String::new();
        while k < n
            invariant
                0 <= k <= n,
                n == self.commands@.len(),
                cds == view_commands(self.commands),
                cds.len() == n,
                cv.name == self.name@,
                cmd_members@ == spec_command_members_gen(cv.name, cds.take(k as int)),
            decreases n - k,
        {
            if k > 0 {
                cmd_members.append(",\n");
            }
            cmd_members.append(self.commands[k].get_member(self.name.as_str()).as_str());
            k = k + 1;
            proof {
                assert(cds.take(k as int).drop_last() =~= cds.take(k - 1));
                assert(cds.take(k as int).last() == cds[k - 1]);
                assert(cmd_members@ =~= spec_command_members_gen(cv.name, cds.take(k as int)));
            }
        }
        proof {
            assert(cds.take(n as int) =~= cds);
        }
        r.append(cmd_members.as_str());
        r.append("\n}\n");
        let mut k2: usize = 0;
        let mut cmd_types = String::new();
        while k2 < n
            invariant
                0 <= k2 <= n,
                n == self.commands@.len(),
                cds == view_commands(self.commands),
                cds.len() == n,
                cv.name == self.name@,
                spec_commands_printable(cds),
                cmd_types@ == spec_command_types_gen(cv.name, cds.take(k2 as int)),
            decreases n - k2,
        {
            proof {
                assert(cds[k2 as int].args.len() >= 1 && spec_dt_printable(
                    cds[k2 as int].r_type,
                ));
            }
            cmd_types.append(self.commands[k2].get_types(self.name.as_str()).as_str());
            k2 = k2 + 1;
            proof {
                assert(cds.take(k2 as int).drop_last() =~= cds.take(k2 - 1));
                assert(cds.take(k2 as int).last() == cds[k2 - 1]);
                assert(cmd_types@ =~= spec_command_types_gen(cv.name, cds.take(k2 as int)));
            }
        }
        proof {
            assert(cds.take(n as int) =~= cds);
        }
        r.append(cmd_types.as_str());
        proof {
            assert(r@ =~= spec_component_one(cv));
        }
        r
    }

    /// Emits every component of a list.
    pub fn generate_multiple(data: &Vec<Component>) -> (r: String)
        requires
            forall|i: int| 0 <= i < view_components(*data).len() ==> spec_component_printable(
                #[trigger] view_components(*data)[i],
            ),
        ensures
            r@ == spec_components_gen(view_components(*data)),
    {
        let ghost cvs = view_components(*data);
        let mut r = String::new();
        let n = data.len();
        let mut k: usize = 0;
        while k < n
            invariant
                0 <= k <= n,
                n == data@.len(),
                cvs == view_components(*data),
                cvs.len() == n,
                forall|i: int| 0 <= i < n ==> spec_component_printable(#[trigger] cvs[i]),
                r@ == spec_components_gen(cvs.take(k as int)),
            decreases n - k,
        {
            proof {
                assert(spec_component_printable(cvs[k as int]));
            }
            r.append(data[k].generate_one().as_str());
            k = k + 1;
            proof {
                assert(cvs.take(k as int).drop_last() =~= cvs.take(k - 1));
                assert(cvs.take(k as int).last() == cvs[k - 1]);
                assert(r@ =~= spec_components_gen(cvs.take(k as int)));
            }
        }
        proof {
            assert(cvs.take(n as int) =~= cvs);
        }
        r
    }
}

// ---------------------------------------------------------------------------
// Whole schema files and module indexes
// ---------------------------------------------------------------------------

use crate::ast::ASTNode;
use crate::ast::ASTNodeV;
use crate::ast::SchemaFile;
use crate::ast::SchemaFileV;
use crate::ast::view_ast_nodes;
use crate::ast::view_ast_node;
use crate::ast::lemma_view_ast_node_seq;

pub open spec fn spec_schema_printable(sf: SchemaFileV) -> bool {
    spec_type_list_printable(sf.types) && (forall|i: int|
        0 <= i < sf.components.len() ==> spec_component_printable(#[trigger] sf.components[i]))
}

pub open spec fn spec_schema_gen(sf: SchemaFileV) -> Seq<char> {
    "#[allow(unused_imports)]\nuse std::collections::HashMap;\n\n#[allow(unused_imports)]\nuse std::marker::PhantomData;\n\n"@
        + spec_enums_gen(sf.enums) + spec_type_list_gen(sf.types) + spec_components_gen(
        sf.components,
    )
}

/// The names a schema file exports: its enums, then its types, then its
/// components.
pub open spec fn spec_schema_exports(sf: SchemaFileV) -> Seq<Seq<char>> {
    Seq::new(sf.enums.len(), |i: int| sf.enums[i].name) + Seq::new(
        sf.types.len(),
        |i: int| sf.types[i].name,
    ) + Seq::new(sf.components.len(), |i: int| sf.components[i].name)
}

impl SchemaFile {
    /// Emits the whole generated source of one schema file.
    pub fn generate(&self) -> (r: String)
        requires
            spec_schema_printable(self@),
        ensures
            r@ == spec_schema_gen(self@),
    {
        let mut r =
            "#[allow(unused_imports)]\nuse std::collections::HashMap;\n\n#[allow(unused_imports)]\nuse std::marker::PhantomData;\n\n".to_owned();
        r.append(Enum::generate_multiple(&self.enums).as_str());
        proof {
            assert(view_components(self.components) == self@.components);
        }
        r.append(Type::generate_multiple(&self.types).as_str());
        r.append(Component::generate_multiple(&self.components).as_str());
        proof {
            assert(r@ =~= spec_schema_gen(self@));
        }
        r
    }

    /// The flattened list of every name this schema file declares at its top
    /// level.
    pub fn get_exports(&self) -> (r: Vec<String>)
        ensures
            view_strings(r) == spec_schema_exports(self@),
    {
        let mut r = Enum::get_exports(&self.enums);
        let t = Type::get_exports(&self.types);
        let c = Component::get_exports(&self.components);
        let ghost rv = view_strings(r);
        let ghost tv = view_strings(t);
        let ghost cv = view_strings(c);
        append_strings(&mut r, t);
        append_strings(&mut r, c);
        proof {
            assert(view_strings(r) =~= rv + tv + cv);
            assert(rv =~= Seq::new(self@.enums.len(), |i: int| self@.enums[i].name));
            lemma_view_type_seq(self.types@);
            assert(tv =~= Seq::new(self@.types.len(), |i: int| self@.types[i].name));
            assert(cv =~= Seq::new(self@.components.len(), |i: int| self@.components[i].name));
        }
        r
    }
}

/// Moves the elements of `more` onto the end of `out`.
fn append_strings(out: &mut Vec<String>, more: Vec<String>)
    ensures
        view_strings(*final(out)) == view_strings(*old(out)) + view_strings(more),
    decreases more@.len(),
{
    let ghost base = view_strings(*out);
    let ghost mv = view_strings(more);
    let mut more = more;
    let n = more.len();
    let mut k: usize = 0;
    let mut out_ref = out;
    while k < n
        invariant
            0 <= k <= n,
            more@.len() == n - k,
            mv.len() == n,
            forall|i: int| 0 <= i < more@.len() ==> more@[i]@ == mv[k + i],
            view_strings(*out_ref) == base + mv.take(k as int),
        decreases n - k,
    {
        let s = more.remove(0);
        let ghost before = view_strings(*out_ref);
        out_ref.push(s);
        k = k + 1;
        proof {
            assert(view_strings(*out_ref) =~= before.push(mv[k - 1]));
            assert(mv.take(k as int).drop_last() =~= mv.take(k - 1));
            assert(view_strings(*out_ref) =~= base + mv.take(k as int));
        }
    }
    proof {
        assert(mv.take(n as int) =~= mv);
    }
}

impl Enum {
    /// The name this enum exports.
    pub fn get_export(&self) -> (r: Option<String>)
        ensures
            r is Some,
            r->Some_0@ == self@.name,
    {
        Some(self.name.clone())
    }

    /// The names a list of enums exports.
    pub fn get_exports(data: &Vec<Enum>) -> (r: Vec<String>)
        ensures
            view_strings(r) == Seq::new(data@.len(), |i: int| view_enums(*data)[i].name),
    {
        let mut r: Vec<String> = Vec::new();
        let n = data.len();
        let mut k: usize = 0;
        while k < n
            invariant
                0 <= k <= n,
                n == data@.len(),
                r@.len() == k,
                forall|i: int| 0 <= i < k ==> r@[i]@ == view_enums(*data)[i].name,
            decreases n - k,
        {
            r.push(data[k].name.clone());
            k = k + 1;
        }
        proof {
            assert(view_strings(r) =~= Seq::new(data@.len(), |i: int| view_enums(*data)[i].name));
        }
        r
    }
}

impl Type {
    /// The name this type exports.
    pub fn get_export(&self) -> (r: Option<String>)
        ensures
            r is Some,
            r->Some_0@ == self@.name,
    {
        Some(self.name.clone())
    }

    /// The names a list of types exports.
    pub fn get_exports(data: &Vec<Type>) -> (r: Vec<String>)
        ensures
            view_strings(r) == Seq::new(data@.len(), |i: int| view_types(*data)[i].name),
    {
        proof {
            lemma_view_type_seq(data@);
        }
        let mut r: Vec<String> = Vec::new();
        let n = data.len();
        let mut k: usize = 0;
        while k < n
            invariant
                0 <= k <= n,
                n == data@.len(),
                r@.len() == k,
                forall|i: int| 0 <= i < k ==> r@[i]@ == view_types(*data)[i].name,
            decreases n - k,
        {
            proof {
                lemma_view_type_seq(data@);
            }
            r.push(data[k].name.clone());
            k = k + 1;
        }
        proof {
            assert(view_strings(r) =~= Seq::new(data@.len(), |i: int| view_types(*data)[i].name));
        }
        r
    }
}

impl Component {
    /// The name this component exports.
    pub fn get_export(&self) -> (r: Option<String>)
        ensures
            r is Some,
            r->Some_0@ == self@.name,
    {
        Some(self.name.clone())
    }

    /// The names a list of components exports.
    pub fn get_exports(data: &Vec<Component>) -> (r: Vec<String>)
        ensures
            view_strings(r) == Seq::new(data@.len(), |i: int| view_components(*data)[i].name),
    {
        let mut r: Vec<String> = Vec::new();
        let n = data.len();
        let mut k: usize = 0;
        while k < n
            invariant
                0 <= k <= n,
                n == data@.len(),
                r@.len() == k,
                forall|i: int| 0 <= i < k ==> r@[i]@ == view_components(*data)[i].name,
            decreases n - k,
        {
            r.push(data[k].name.clone());
            k = k + 1;
        }
        proof {
            assert(view_strings(r) =~= Seq::new(
                data@.len(),
                |i: int| view_components(*data)[i].name,
            ));
        }
        r
    }
}

/// What one forest node contributes to its parent's module index: its module
/// name, and the names it re-exports.
pub open spec fn spec_node_export(n: ASTNodeV) -> (Seq<char>, Seq<Seq<char>>) {
    match n {
        ASTNodeV::PackageNode(p) => (p.name, Seq::empty()),
        ASTNodeV::SchemaNode(sf) => (sf.name, spec_schema_exports(sf)),
    }
}

pub open spec fn spec_use_lines(name: Seq<char>, exports: Seq<Seq<char>>) -> Seq<char>
    decreases exports.len(),
{
    if exports.len() == 0 {
        Seq::empty()
    } else {
        spec_use_lines(name, exports.drop_last()) + "pub use "@ + name + "::"@ + exports.last()
            + ";\n"@
    }
}

/// One module line: a module with re-exported names, or a fully public
/// nested module where there is nothing to re-export.
pub open spec fn spec_mod_line(n: ASTNodeV) -> Seq<char> {
    let (name, exports) = spec_node_export(n);
    (if exports.len() == 0 {
        "pub "@
    } else {
        Seq::<char>::empty()
    }) + "mod "@ + name + ";\n"@ + spec_use_lines(name, exports)
}

pub open spec fn spec_mod_rs(ns: Seq<ASTNodeV>) -> Seq<char>
    decreases ns.len(),
{
    if ns.len() == 0 {
        Seq::empty()
    } else {
        spec_mod_rs(ns.drop_last()) + spec_mod_line(ns.last())
    }
}

impl ASTNode {
    /// This node's module name and re-exported names.
    pub fn get_export(&self) -> (r: (String, Vec<String>))
        ensures
            r.0@ == spec_node_export(self@).0,
            view_strings(r.1) == spec_node_export(self@).1,
    {
        match self {
            ASTNode::PackageNode(p) => {
                let r = (p.name.clone(), Vec::<String>::new());
                proof {
                    assert(view_strings(r.1) =~= Seq::<Seq<char>>::empty());
                }
                r
            },
            ASTNode::SchemaNode(sf) => (sf.name.clone(), sf.get_exports()),
        }
    }

    /// Emits the module index enumerating and re-exporting the children of
    /// one directory level.
    pub fn generate_mod_rs(nodes: &Vec<ASTNode>) -> (r: String)
        ensures
            r@ == spec_mod_rs(view_ast_nodes(*nodes)),
    {
        let ghost nvs = view_ast_nodes(*nodes);
        proof {
            lemma_view_ast_node_seq(nodes@);
        }
        let mut r = String::new();
        let n = nodes.len();
        let mut k: usize = 0;
        while k < n
            invariant
                0 <= k <= n,
                n == nodes@.len(),
                nvs == view_ast_nodes(*nodes),
                nvs.len() == n,
                forall|m: int| 0 <= m < n ==> nvs[m] == view_ast_node(nodes@[m]),
                r@ == spec_mod_rs(nvs.take(k as int)),
            decreases n - k,
        {
            let (name, exports) = nodes[k].get_export();
            if exports.len() == 0 {
                r.append("pub ");
            }
            r.append("mod ");
            r.append(name.as_str());
            r.append(";\n");
            let ghost evs = view_strings(exports);
            let en = exports.len();
            let mut e: usize = 0;
            let mut uses = String::new();
            while e < en
                invariant
                    0 <= e <= en,
                    en == exports@.len(),
                    evs == view_strings(exports),
                    evs.len() == en,
                    name@ == spec_node_export(nvs[k as int]).0,
                    uses@ == spec_use_lines(name@, evs.take(e as int)),
                decreases en - e,
            {
                uses.append("pub use ");
                uses.append(name.as_str());
                uses.append("::");
                uses.append(exports[e].as_str());
                uses.append(";\n");
                e = e + 1;
                proof {
                    assert(evs.take(e as int).drop_last() =~= evs.take(e - 1));
                    assert(evs.take(e as int).last() == evs[e - 1]);
                    assert(uses@ =~= spec_use_lines(name@, evs.take(e as int)));
                }
            }
            proof {
                assert(evs.take(en as int) =~= evs);
            }
            r.append(uses.as_str());
            k = k + 1;
            proof {
                assert(nvs.take(k as int).drop_last() =~= nvs.take(k - 1));
                assert(nvs.take(k as int).last() == nvs[k - 1]);
                assert(r@ =~= spec_mod_rs(nvs.take(k as int)));
            }
        }
        proof {
            assert(nvs.take(n as int) =~= nvs);
        }
        r
    }
}

impl DataType {
    /// Can this type be spelled out by the emitter: every user-defined leaf
    /// resolved, none of them a component?
    pub fn is_printable(&self) -> (r: bool)
        ensures
            r == spec_dt_printable(self@),
        decreases *self,
    {
        match self {
            DataType::UserDefined(u) => match u {
                UserDefinedType::Resolved(_, kind) => match kind {
                    ResolvedTypeKind::Component => false,
                    _ => true,
                },
                UserDefinedType::Unresolved(_) => false,
            },
            DataType::Mapping(k, v) => k.is_printable() && v.is_printable(),
            DataType::List(t) => t.is_printable(),
            DataType::Option(t) => t.is_printable(),
            _ => true,
        }
    }
}

fn members_printable(ms: &Vec<Member>) -> (r: bool)
    ensures
        r == spec_members_printable(view_members(*ms)),
{
    let ghost mvs = view_members(*ms);
    let n = ms.len();
    let mut k: usize = 0;
    while k < n
        invariant
            0 <= k <= n,
            n == ms@.len(),
            mvs == view_members(*ms),
            mvs.len() == n,
            forall|i: int| 0 <= i < k ==> spec_dt_printable(#[trigger] mvs[i].m_type),
        decreases n - k,
    {
        if !ms[k].m_type.is_printable() {
            proof {
                assert(!spec_dt_printable(mvs[k as int].m_type));
            }
            return false;
        }
        k = k + 1;
    }
    true
}

fn commands_printable(cs: &Vec<Command>) -> (r: bool)
    ensures
        r == spec_commands_printable(view_commands(*cs)),
{
    let ghost cds = view_commands(*cs);
    let n = cs.len();
    let mut k: usize = 0;
    while k < n
        invariant
            0 <= k <= n,
            n == cs@.len(),
            cds == view_commands(*cs),
            cds.len() == n,
            forall|i: int|
                0 <= i < k ==> (#[trigger] cds[i].args.len()) >= 1 && spec_dt_printable(
                    cds[i].r_type,
                ) && (forall|j: int| 0 <= j < cds[i].args.len() ==> spec_dt_printable(
                    #[trigger] cds[i].args[j],
                )),
        decreases n - k,
    {
        let c = &cs[k];
        if c.args.len() == 0 {
            proof {
                assert(cds[k as int].args.len() == 0);
            }
            return false;
        }
        if !c.r_type.is_printable() {
            proof {
                assert(cds[k as int].args.len() >= 1);
                assert(!spec_dt_printable(cds[k as int].r_type));
            }
            return false;
        }
        let ghost avs = view_data_types(c.args);
        let an = c.args.len();
        let mut a: usize = 0;
        while a < an
            invariant
                0 <= a <= an,
                an == c.args@.len(),
                avs == view_data_types(c.args),
                avs.len() == an,
                cds == view_commands(*cs),
                0 <= k < cds.len(),
                cds[k as int].args == avs,
                forall|j: int| 0 <= j < a ==> spec_dt_printable(#[trigger] avs[j]),
            decreases an - a,
        {
            if !c.args[a].is_printable() {
                proof {
                    assert(cds[k as int].args.len() >= 1);
                    assert(!spec_dt_printable(cds[k as int].args[a as int]));
                }
                return false;
            }
            a = a + 1;
        }
        k = k + 1;
    }
    true
}

fn type_printable(t: &Type) -> (r: bool)
    ensures
        r == spec_type_printable(view_type(*t)),
    decreases height_type(view_type(*t)), 1int,
{
    if !members_printable(&t.members) {
        return false;
    }
    let ghost tvs = view_types(t.types);
    proof {
        lemma_view_type_seq(t.types@);
        assert(tvs.skip(0) =~= tvs);
    }
    let n = t.types.len();
    let mut k: usize = 0;
    while k < n
        invariant
            0 <= k <= n,
            n == t.types@.len(),
            tvs == view_types(t.types),
            tvs.len() == n,
            forall|m: int| 0 <= m < n ==> tvs[m] == view_type(t.types@[m]),
            spec_type_list_printable(tvs) == spec_type_list_printable(tvs.skip(k as int)),
        decreases n - k,
    {
        proof {
            lemma_height_type_list_skip(tvs, k as int);
            assert(tvs.skip(k as int)[0] == tvs[k as int]);
            assert(tvs.skip(k as int).skip(1) =~= tvs.skip(k + 1));
        }
        if !type_printable(&t.types[k]) {
            return false;
        }
        k = k + 1;
    }
    proof {
        assert(tvs.skip(n as int) =~= Seq::<TypeV>::empty());
    }
    true
}

fn component_printable(c: &Component) -> (r: bool)
    ensures
        r == spec_component_printable(view_component(*c)),
{
    if !members_printable(&c.members) {
        return false;
    }
    if !commands_printable(&c.commands) {
        return false;
    }
    let ghost tvs = view_types(c.types);
    proof {
        lemma_view_type_seq(c.types@);
        assert(tvs.skip(0) =~= tvs);
    }
    let n = c.types.len();
    let mut k: usize = 0;
    while k < n
        invariant
            0 <= k <= n,
            n == c.types@.len(),
            tvs == view_types(c.types),
            tvs.len() == n,
            forall|m: int| 0 <= m < n ==> tvs[m] == view_type(c.types@[m]),
            spec_type_list_printable(tvs) == spec_type_list_printable(tvs.skip(k as int)),
        decreases n - k,
    {
        proof {
            assert(tvs.skip(k as int)[0] == tvs[k as int]);
            assert(tvs.skip(k as int).skip(1) =~= tvs.skip(k + 1));
        }
        if !type_printable(&c.types[k]) {
            return false;
        }
        k = k + 1;
    }
    proof {
        assert(tvs.skip(n as int) =~= Seq::<TypeV>::empty());
    }
    true
}

impl SchemaFile {
    /// Emits the generated source for this schema file, first checking that
    /// every reference is resolved legally and every command has an
    /// argument; a file that cannot be emitted yields nothing.
    pub fn generate_checked(&self) -> (r: Option<String>)
        ensures
            r is Some <==> spec_schema_printable(self@),
            r is Some ==> r->Some_0@ == spec_schema_gen(self@),
    {
        let ghost tvs = view_types(self.types);
        proof {
            lemma_view_type_seq(self.types@);
            assert(tvs.skip(0) =~= tvs);
        }
        let n = self.types.len();
        let mut k: usize = 0;
        while k < n
            invariant
                0 <= k <= n,
                n == self.types@.len(),
                tvs == view_types(self.types),
                tvs.len() == n,
                forall|m: int| 0 <= m < n ==> tvs[m] == view_type(self.types@[m]),
                spec_type_list_printable(tvs) == spec_type_list_printable(tvs.skip(k as int)),
            decreases n - k,
        {
            proof {
                assert(tvs.skip(k as int)[0] == tvs[k as int]);
                assert(tvs.skip(k as int).skip(1) =~= tvs.skip(k + 1));
            }
            if !type_printable(&self.types[k]) {
                return None;
            }
            k = k + 1;
        }
        proof {
            assert(tvs.skip(n as int) =~= Seq::<TypeV>::empty());
        }
        let ghost cvs = view_components(self.components);
        let cn = self.components.len();
        let mut c: usize = 0;
        while c < cn
            invariant
                0 <= c <= cn,
                cn == self.components@.len(),
                cvs == view_components(self.components),
                cvs.len() == cn,
                forall|i: int| 0 <= i < c ==> spec_component_printable(#[trigger] cvs[i]),
        decreases cn - c,
        {
            if !component_printable(&self.components[c]) {
                proof {
                    assert(!spec_component_printable(self@.components[c as int]));
                }
                return None;
            }
            c = c + 1;
        }
        Some(self.generate())
    }
}

/// The fixed import header of the older emission layer.
pub struct Header {}

impl Header {
    /// Emits the import lines every generated file of that layer begins
    /// with.
    pub fn generate() -> (r: String)
        ensures
            r@
                == "#[allow(unused_imports)]\nuse spatial_macro::spatial_enum;\n#[allow(unused_imports)]\nuse spatial_macro::spatial_type;\n#[allow(unused_imports)]\nuse spatial_macro::spatial_component;\n#[allow(unused_imports)]\nuse std::collections::HashMap;\n"@,
    {
        "#[allow(unused_imports)]\nuse spatial_macro::spatial_enum;\n#[allow(unused_imports)]\nuse spatial_macro::spatial_type;\n#[allow(unused_imports)]\nuse spatial_macro::spatial_component;\n#[allow(unused_imports)]\nuse std::collections::HashMap;\n".to_owned()
    }
}

} // verus!

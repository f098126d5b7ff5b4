//! The impls a derive produces, described structurally rather than as tokens.
use vstd::prelude::*;

use crate::ast::{Fields, GenericParam, NamedField};

verus! {

/// The two conversions: `to_static(&self)` and `into_static(self)`.
#[derive(Clone, Copy, Debug, PartialEq, Eq)]
pub enum Capability {
    ToStatic,
    IntoStatic,
}

/// A parameter of the generated impl's own generic list.
#[derive(Clone, Debug, PartialEq, Eq)]
pub enum ImplParam {
    /// Kept as declared.
    Lifetime { name: String, bounds: Vec<String> },
    /// The declared bounds, then the conversion capability itself.
    Type { name: String, bounds: Vec<String>, capability: Capability },
    /// Kept as declared, without its default.
    Const { name: String, ty: String },
}

/// A parameter named in an argument list, by kind.
#[derive(Clone, Debug, PartialEq, Eq)]
pub enum ParamRef {
    Lifetime(String),
    Type(String),
    Const(String),
}

#[derive(Clone, Debug, PartialEq, Eq)]
pub enum WherePredicate {
    /// `param: 'lifetime`.
    Outlives { param: String, lifetime: String },
    /// A predicate of the declaration's own `where` clause, kept verbatim.
    Declared(String),
}

/// An argument of the snapshot type.
#[derive(Clone, Debug, PartialEq, Eq)]
pub enum TargetArg {
    /// `'static`.
    StaticLifetime,
    /// The snapshot type of the named type parameter.
    Snapshot(String),
    /// The const parameter, passed through.
    Const(String),
}

/// What `split_for_impl` gives: the impl's parameters, the arguments naming the
/// declared type itself, and the `where` clause.
#[derive(Clone, Debug, PartialEq, Eq)]
pub struct ImplGenerics {
    pub params: Vec<ImplParam>,
    pub self_args: Vec<ParamRef>,
    pub where_clause: Vec<WherePredicate>,
}

/// Where a field sits in its record or variant: by name or by position.
#[derive(Clone, Debug, PartialEq, Eq)]
pub enum Member {
    Named(String),
    Index(usize),
}

/// The value a field conversion reads.
#[derive(Clone, Debug, PartialEq, Eq)]
pub enum Operand {
    /// `self.member`.
    SelfField(Member),
    /// The binding a match arm made for the member: the field's own name, or a
    /// placeholder derived from its position.
    Binding(Member),
}

/// `member: source.to_static()` (or `into_static`).
#[derive(Clone, Debug, PartialEq, Eq)]
pub struct FieldInit {
    pub member: Member,
    pub source: Operand,
    pub capability: Capability,
}

/// The construction of a snapshot value of one record or variant.
#[derive(Clone, Debug, PartialEq, Eq)]
pub enum Construct {
    Unit,
    Named(Vec<FieldInit>),
    Unnamed(Vec<FieldInit>),
}

/// The bindings of a match arm's pattern.
#[derive(Clone, Debug, PartialEq, Eq)]
pub enum Pattern {
    Unit,
    /// `{ a, b }`.
    Named(Vec<String>),
    /// `(field_0, field_1)`, by placeholder index.
    Unnamed(Vec<usize>),
}

/// `Name::Variant pattern => Name::Variant construct`.
#[derive(Clone, Debug, PartialEq, Eq)]
pub struct MatchArm {
    pub variant: String,
    pub pattern: Pattern,
    pub construct: Construct,
}

#[derive(Clone, Debug, PartialEq, Eq)]
pub enum ConversionBody {
    Record(Construct),
    Match(Vec<MatchArm>),
}

/// One generated impl of a conversion capability.
#[derive(Clone, Debug, PartialEq, Eq)]
pub struct ConversionImpl {
    pub capability: Capability,
    pub name: String,
    pub generics: ImplGenerics,
    /// The arguments of `type Static = Name<..>`.
    pub target_args: Vec<TargetArg>,
    pub body: ConversionBody,
}

/// The by-reference impl and the by-value impl of one declaration.
#[derive(Clone, Debug, PartialEq, Eq)]
pub struct Generated {
    pub to_static: ConversionImpl,
    pub into_static: ConversionImpl,
}

// ---- the model of what is generated ----

/// Where a conversion reads its fields from: `self`, or a match arm's bindings.
pub open spec fn operand_for(bound: bool, m: Member) -> Operand {
    if bound {
        Operand::Binding(m)
    } else {
        Operand::SelfField(m)
    }
}

/// The member of the field at position `i`.
pub open spec fn member_at(f: Fields, i: int) -> Member {
    match f {
        Fields::Named(fs) => Member::Named(fs@[i].name),
        _ => Member::Index(i as usize),
    }
}

/// The initializer of the field at position `i`: convert it and put it in the same place.
pub open spec fn field_init(f: Fields, i: int, bound: bool, cap: Capability) -> FieldInit {
    FieldInit {
        member: member_at(f, i),
        source: operand_for(bound, member_at(f, i)),
        capability: cap,
    }
}

pub open spec fn inits_of(f: Fields, inits: Seq<FieldInit>, n: int, bound: bool, cap: Capability) -> bool {
    &&& inits.len() == n
    &&& forall|i: int| 0 <= i < n ==> #[trigger] inits[i] == field_init(f, i, bound, cap)
}

/// `c` builds the snapshot of the field list `f`, one conversion per field, in order.
pub open spec fn construct_of(f: Fields, c: Construct, bound: bool, cap: Capability) -> bool {
    match f {
        Fields::Unit => c is Unit,
        Fields::Named(fs) => match c {
            Construct::Named(inits) => inits_of(f, inits@, fs@.len() as int, bound, cap),
            _ => false,
        },
        Fields::Unnamed(ts) => match c {
            Construct::Unnamed(inits) => inits_of(f, inits@, ts@.len() as int, bound, cap),
            _ => false,
        },
    }
}

pub open spec fn field_names(fs: Seq<NamedField>) -> Seq<String> {
    fs.map_values(|nf: NamedField| nf.name)
}

pub open spec fn placeholders_of(ps: Seq<usize>, n: int) -> bool {
    &&& ps.len() == n
    &&& forall|i: int| 0 <= i < n ==> #[trigger] ps[i] == i
}

/// `p` binds every field of `f`: by name, or by a placeholder per position.
pub open spec fn pattern_of(f: Fields, p: Pattern) -> bool {
    match f {
        Fields::Unit => p is Unit,
        Fields::Named(fs) => match p {
            Pattern::Named(names) => names@ == field_names(fs@),
            _ => false,
        },
        Fields::Unnamed(ts) => match p {
            Pattern::Unnamed(ps) => placeholders_of(ps@, ts@.len() as int),
            _ => false,
        },
    }
}

/// The argument of the snapshot type that stands for parameter `p`.
pub open spec fn target_arg(p: GenericParam) -> TargetArg {
    match p {
        GenericParam::Lifetime { .. } => TargetArg::StaticLifetime,
        GenericParam::Type { name, .. } => TargetArg::Snapshot(name),
        GenericParam::Const { name, .. } => TargetArg::Const(name),
    }
}

/// The argument that names parameter `p` itself.
pub open spec fn param_ref(p: GenericParam) -> ParamRef {
    match p {
        GenericParam::Lifetime { name, .. } => ParamRef::Lifetime(name),
        GenericParam::Type { name, .. } => ParamRef::Type(name),
        GenericParam::Const { name, .. } => ParamRef::Const(name),
    }
}

/// `q` is `p` as the impl for `cap` declares it.
pub open spec fn impl_param_of(p: GenericParam, q: ImplParam, cap: Capability) -> bool {
    match p {
        GenericParam::Lifetime { name, bounds } => match q {
            ImplParam::Lifetime { name: n, bounds: b } => n == name && b@ == bounds@,
            _ => false,
        },
        GenericParam::Type { name, bounds, .. } => match q {
            ImplParam::Type { name: n, bounds: b, capability } => n == name && b@ == bounds@
                && capability == cap,
            _ => false,
        },
        GenericParam::Const { name, ty, .. } => match q {
            ImplParam::Const { name: n, ty: t } => n == name && t == ty,
            _ => false,
        },
    }
}

/// The names of the type parameters, in order.
pub open spec fn type_param_names(ps: Seq<GenericParam>) -> Seq<String>
    decreases ps.len(),
{
    if ps.len() == 0 {
        Seq::empty()
    } else {
        let rest = type_param_names(ps.drop_last());
        match ps.last() {
            GenericParam::Type { name, .. } => rest.push(name),
            _ => rest,
        }
    }
}

/// The names of the lifetime parameters, in order.
pub open spec fn lifetime_param_names(ps: Seq<GenericParam>) -> Seq<String>
    decreases ps.len(),
{
    if ps.len() == 0 {
        Seq::empty()
    } else {
        let rest = lifetime_param_names(ps.drop_last());
        match ps.last() {
            GenericParam::Lifetime { name, .. } => rest.push(name),
            _ => rest,
        }
    }
}

/// `t: 'l` for each type parameter `t` and each lifetime parameter `l`, type by type.
pub open spec fn outlives_predicates(ts: Seq<String>, ls: Seq<String>) -> Seq<WherePredicate>
    decreases ts.len(),
{
    if ts.len() == 0 {
        Seq::empty()
    } else {
        outlives_predicates(ts.drop_last(), ls) + ls.map_values(
            |l: String| WherePredicate::Outlives { param: ts.last(), lifetime: l },
        )
    }
}

/// The synthesized predicates, then the declaration's own, verbatim.
pub open spec fn where_of(ps: Seq<GenericParam>, declared: Seq<String>) -> Seq<WherePredicate> {
    outlives_predicates(type_param_names(ps), lifetime_param_names(ps)) + declared.map_values(
        |s: String| WherePredicate::Declared(s),
    )
}

} // verus!

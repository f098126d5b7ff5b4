//! The declaration a derive is asked for: its name, its generics and its body.
use vstd::prelude::*;

verus! {

/// One parameter of a declaration's generic list, in the order written.
#[derive(Clone, Debug, PartialEq, Eq)]
pub enum GenericParam {
    /// `'name: 'b + 'c` (names are kept without the leading quote).
    Lifetime { name: String, bounds: Vec<String> },
    /// `Name: Bound + Bound = Default`.
    Type { name: String, bounds: Vec<String>, default: Option<String> },
    /// `const NAME: ty = default`.
    Const { name: String, ty: String, default: Option<String> },
}

/// A generic parameter list together with the predicates of its `where` clause.
#[derive(Clone, Debug, PartialEq, Eq)]
pub struct Generics {
    pub params: Vec<GenericParam>,
    pub where_clause: Vec<String>,
}

/// The lifetime written on a reference field type.
#[derive(Clone, Debug, PartialEq, Eq)]
pub enum RefLifetime {
    Static,
    Named(String),
}

/// A field's declared type, as far as the derive needs to look into it.
#[derive(Clone, Debug, PartialEq, Eq)]
pub enum FieldType {
    /// `&'lifetime referent` or `&'lifetime mut referent`.
    Reference { lifetime: RefLifetime, referent: String },
    /// Any other type; it is never looked into.
    Other(String),
}

#[derive(Clone, Debug, PartialEq, Eq)]
pub struct NamedField {
    pub name: String,
    pub ty: FieldType,
}

/// The shape of a field list.
#[derive(Clone, Debug, PartialEq, Eq)]
pub enum Fields {
    Unit,
    Named(Vec<NamedField>),
    Unnamed(Vec<FieldType>),
}

#[derive(Clone, Debug, PartialEq, Eq)]
pub struct Variant {
    pub name: String,
    pub fields: Fields,
}

/// A record has one field list; a tagged union has an ordered list of variants.
#[derive(Clone, Debug, PartialEq, Eq)]
pub enum Data {
    Struct(Fields),
    Enum(Vec<Variant>),
}

#[derive(Clone, Debug, PartialEq, Eq)]
pub struct Declaration {
    pub name: String,
    pub generics: Generics,
    pub data: Data,
}

/// A reference whose lifetime is not `'static` cannot be turned into an owned snapshot.
pub open spec fn is_non_static_ref(t: FieldType) -> bool {
    t matches FieldType::Reference { lifetime: RefLifetime::Named(_), .. }
}

/// The lifetime written on a reference type (`'static` for any other type).
pub open spec fn ref_lifetime(t: FieldType) -> RefLifetime {
    match t {
        FieldType::Reference { lifetime, .. } => lifetime,
        FieldType::Other(_) => RefLifetime::Static,
    }
}

/// The types of a field list, in declared order.
pub open spec fn field_types(f: Fields) -> Seq<FieldType> {
    match f {
        Fields::Unit => Seq::empty(),
        Fields::Named(fs) => fs@.map_values(|nf: NamedField| nf.ty),
        Fields::Unnamed(ts) => ts@,
    }
}

pub open spec fn all_allowed(ts: Seq<FieldType>) -> bool {
    forall|i: int| 0 <= i < ts.len() ==> !is_non_static_ref(#[trigger] ts[i])
}

/// Position `i` holds the first rejected field type of `ts`.
pub open spec fn first_rejected_at(ts: Seq<FieldType>, i: int) -> bool {
    &&& 0 <= i < ts.len()
    &&& is_non_static_ref(ts[i])
    &&& all_allowed(ts.take(i))
}

pub open spec fn variants_allowed(vs: Seq<Variant>) -> bool {
    forall|k: int| 0 <= k < vs.len() ==> all_allowed(field_types(#[trigger] vs[k].fields))
}

pub open spec fn data_allowed(d: Data) -> bool {
    match d {
        Data::Struct(f) => all_allowed(field_types(f)),
        Data::Enum(vs) => variants_allowed(vs@),
    }
}

} // verus!

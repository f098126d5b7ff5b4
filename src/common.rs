//! Helpers shared by the record and tagged-union paths.
use vstd::prelude::*;

use crate::ast::{
    all_allowed, field_types, first_rejected_at, is_non_static_ref, ref_lifetime, FieldType,
    Fields, RefLifetime,
};
use crate::generated::{member_at, Member};

verus! {

/// An element-by-element copy of a list of strings.
pub fn copy_strings(v: &Vec<String>) -> (r: Vec<String>)
    ensures
        r@ == v@,
{
    let mut r: Vec<String> = Vec::new();
    let mut i: usize = 0;
    while i < v.len()
        invariant
            i <= v@.len(),
            r@ == v@.take(i as int),
        decreases v@.len() - i,
    {
        r.push(v[i].clone());
        assert(v@.take(i + 1) =~= v@.take(i as int).push(v@[i as int]));
        i += 1;
    }
    assert(v@.take(v@.len() as int) =~= v@);
    r
}

/// The lifetime of a field type that cannot be converted: a reference whose lifetime
/// is not `'static`. `None` for every other type.
pub fn check_field(t: &FieldType) -> (r: Option<String>)
    ensures
        r is Some <==> is_non_static_ref(*t),
        r matches Some(l) ==> ref_lifetime(*t) == RefLifetime::Named(l),
{
    match t {
        FieldType::Reference { lifetime: RefLifetime::Named(l), .. } => Some(l.clone()),
        _ => None,
    }
}

/// The first field of a field list whose type cannot be converted, with that type's
/// lifetime; `None` when every field can be.
pub fn check_fields(f: &Fields) -> (r: Option<(Member, String)>)
    ensures
        r is None <==> all_allowed(field_types(*f)),
        r matches Some((m, l)) ==> exists|i: int|
            first_rejected_at(field_types(*f), i) && m == member_at(*f, i)
                && ref_lifetime(#[trigger] field_types(*f)[i]) == RefLifetime::Named(l),
{
    match f {
        Fields::Unit => {
            assert(field_types(*f).len() == 0);
            None
        },
        Fields::Named(fs) => {
            let ghost ts = field_types(*f);
            let mut i: usize = 0;
            while i < fs.len()
                invariant
                    i <= fs@.len(),
                    ts == field_types(*f),
                    ts.len() == fs@.len(),
                    *f == Fields::Named(*fs),
                    all_allowed(ts.take(i as int)),
                decreases fs@.len() - i,
            {
                assert(ts[i as int] == fs@[i as int].ty);
                match check_field(&fs[i].ty) {
                    Some(l) => {
                        let m = Member::Named(fs[i].name.clone());
                        assert(first_rejected_at(ts, i as int));
                        return Some((m, l));
                    },
                    None => {},
                }
                assert(ts.take(i + 1) =~= ts.take(i as int).push(ts[i as int]));
                i += 1;
            }
            assert(ts.take(ts.len() as int) =~= ts);
            None
        },
        Fields::Unnamed(tys) => {
            let ghost ts = field_types(*f);
            let mut i: usize = 0;
            while i < tys.len()
                invariant
                    i <= tys@.len(),
                    ts == tys@,
                    ts == field_types(*f),
                    *f == Fields::Unnamed(*tys),
                    all_allowed(ts.take(i as int)),
                decreases tys@.len() - i,
            {
                match check_field(&tys[i]) {
                    Some(l) => {
                        assert(first_rejected_at(ts, i as int));
                        return Some((Member::Index(i), l));
                    },
                    None => {},
                }
                assert(ts.take(i + 1) =~= ts.take(i as int).push(ts[i as int]));
                i += 1;
            }
            assert(ts.take(ts.len() as int) =~= ts);
            None
        },
    }
}

} // verus!

verus! {

/// A field whose type is a reference with a lifetime other than `'static`: no
/// snapshot of it can be made, so nothing is generated for the declaration.
#[derive(Clone, Debug, PartialEq, Eq)]
pub struct DeriveError {
    /// The declaration's name.
    pub declaration: String,
    /// The variant that holds the field, for a tagged union.
    pub variant: Option<String>,
    pub field: Member,
    /// The lifetime written on the reference.
    pub lifetime: String,
}

/// `e` reports the field at position `i` of `f`, a field list of declaration `name`.
pub open spec fn reports_field(
    e: DeriveError,
    name: String,
    variant: Option<String>,
    f: Fields,
    i: int,
) -> bool {
    &&& e.declaration == name
    &&& e.variant == variant
    &&& e.field == member_at(f, i)
    &&& ref_lifetime(field_types(f)[i]) == RefLifetime::Named(e.lifetime)
}

} // verus!

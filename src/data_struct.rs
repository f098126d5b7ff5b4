//! The record path: conversions that rebuild a struct field by field.
use vstd::prelude::*;

use crate::ast::{ref_lifetime, RefLifetime, all_allowed, field_types, first_rejected_at, FieldType, Fields, Generics, NamedField};
use crate::common::{check_fields, reports_field, DeriveError};
use crate::generated::{
    construct_of, field_init, member_at, inits_of, Capability, ConversionBody, ConversionImpl, Construct,
    FieldInit, Generated, Member, Operand,
};
use crate::generics::{impl_generics_of, make_bounded_generics, make_target_generics, target_args_of};

verus! {

/// `r` is the impl of `cap` for the struct `name` with generics `g` and fields `f`.
pub open spec fn record_impl_of(
    name: String,
    g: Generics,
    f: Fields,
    r: ConversionImpl,
    cap: Capability,
) -> bool {
    &&& r.capability == cap
    &&& r.name == name
    &&& impl_generics_of(g, r.generics, cap)
    &&& target_args_of(g, r.target_args@)
    &&& match r.body {
        ConversionBody::Record(c) => construct_of(f, c, false, cap),
        _ => false,
    }
}

/// `e` reports the first field of `f` that cannot be converted.
pub open spec fn struct_rejection(name: String, f: Fields, e: DeriveError) -> bool {
    exists|i: int|
        first_rejected_at(field_types(f), i) && #[trigger] reports_field(e, name, None, f, i)
}

/// Generate both conversion impls for a struct, or report its first field that
/// cannot be converted.
pub fn generate_struct(name: &String, generics: &Generics, fields: &Fields) -> (r: Result<
    Generated,
    DeriveError,
>)
    ensures
        r is Ok <==> all_allowed(field_types(*fields)),
        r matches Ok(g) ==> record_impl_of(*name, *generics, *fields, g.to_static, Capability::ToStatic)
            && record_impl_of(*name, *generics, *fields, g.into_static, Capability::IntoStatic),
        r matches Err(e) ==> struct_rejection(*name, *fields, e),
{
    match check_fields(fields) {
        Some((field, lifetime)) => {
            let e = DeriveError { declaration: name.clone(), variant: None, field, lifetime };
            proof {
                let i = choose|i: int|
                    first_rejected_at(field_types(*fields), i) && e.field == member_at(*fields, i)
                        && ref_lifetime(#[trigger] field_types(*fields)[i]) == RefLifetime::Named(
                        e.lifetime,
                    );
                assert(reports_field(e, *name, None, *fields, i));
            }
            Err(e)
        },
        None => {
            let to_static = generate_struct_to(name, generics, fields);
            let into_static = generate_struct_into(name, generics, fields);
            Ok(Generated { to_static, into_static })
        },
    }
}

/// The by-reference impl for a struct.
pub fn generate_struct_to(name: &String, generics: &Generics, fields: &Fields) -> (r:
    ConversionImpl)
    ensures
        record_impl_of(*name, *generics, *fields, r, Capability::ToStatic),
{
    let construct = generate_struct_construct(fields, Capability::ToStatic);
    ConversionImpl {
        capability: Capability::ToStatic,
        name: name.clone(),
        generics: make_bounded_generics(generics, Capability::ToStatic),
        target_args: make_target_generics(generics),
        body: ConversionBody::Record(construct),
    }
}

/// The by-value impl for a struct.
pub fn generate_struct_into(name: &String, generics: &Generics, fields: &Fields) -> (r:
    ConversionImpl)
    ensures
        record_impl_of(*name, *generics, *fields, r, Capability::IntoStatic),
{
    let construct = generate_struct_construct(fields, Capability::IntoStatic);
    ConversionImpl {
        capability: Capability::IntoStatic,
        name: name.clone(),
        generics: make_bounded_generics(generics, Capability::IntoStatic),
        target_args: make_target_generics(generics),
        body: ConversionBody::Record(construct),
    }
}

/// The construction of a struct's snapshot from the fields of `self`.
///
/// i.e. `Foo { a: self.a.to_static() }`, `Foo(self.0.to_static())` or `Foo`.
pub fn generate_struct_construct(fields: &Fields, target: Capability) -> (r: Construct)
    ensures
        construct_of(*fields, r, false, target),
{
    match fields {
        Fields::Unit => Construct::Unit,
        Fields::Named(fs) => Construct::Named(generate_named_field_inits(fs, target)),
        Fields::Unnamed(ts) => Construct::Unnamed(generate_unnamed_field_inits(ts, target)),
    }
}

/// i.e. `foo: self.foo.to_static()`
fn generate_named_field_inits(fields: &Vec<NamedField>, target: Capability) -> (r: Vec<
    FieldInit,
>)
    ensures
        inits_of(Fields::Named(*fields), r@, fields@.len() as int, false, target),
{
    let mut r: Vec<FieldInit> = Vec::new();
    let mut i: usize = 0;
    while i < fields.len()
        invariant
            i <= fields@.len(),
            inits_of(Fields::Named(*fields), r@, i as int, false, target),
        decreases fields@.len() - i,
    {
        let init = FieldInit {
            member: Member::Named(fields[i].name.clone()),
            source: Operand::SelfField(Member::Named(fields[i].name.clone())),
            capability: target,
        };
        assert(init == field_init(Fields::Named(*fields), i as int, false, target));
        r.push(init);
        i += 1;
    }
    r
}

/// i.e. `self.0.to_static()`
fn generate_unnamed_field_inits(fields: &Vec<FieldType>, target: Capability) -> (r: Vec<
    FieldInit,
>)
    ensures
        inits_of(Fields::Unnamed(*fields), r@, fields@.len() as int, false, target),
{
    let mut r: Vec<FieldInit> = Vec::new();
    let mut i: usize = 0;
    while i < fields.len()
        invariant
            i <= fields@.len(),
            inits_of(Fields::Unnamed(*fields), r@, i as int, false, target),
        decreases fields@.len() - i,
    {
        let init = FieldInit {
            member: Member::Index(i),
            source: Operand::SelfField(Member::Index(i)),
            capability: target,
        };
        assert(init == field_init(Fields::Unnamed(*fields), i as int, false, target));
        r.push(init);
        i += 1;
    }
    r
}

} // verus!

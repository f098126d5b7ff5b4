//! The tagged-union path: conversions that match on the variant and rebuild it.
use vstd::prelude::*;

use crate::ast::{
    all_allowed,
    field_types, first_rejected_at, ref_lifetime, variants_allowed, FieldType, Fields, Generics,
    NamedField, RefLifetime, Variant,
};
use crate::common::{check_fields, reports_field, DeriveError};
use crate::generated::{
    construct_of, field_init, field_names, inits_of, member_at, pattern_of, placeholders_of,
    Capability, ConversionBody, ConversionImpl, Construct, FieldInit, Generated, MatchArm,
    Member, Operand, Pattern,
};
use crate::generics::{impl_generics_of, make_bounded_generics, make_target_generics, target_args_of};

verus! {

/// `a` maps variant `v` to the variant of the same name, converting each field.
pub open spec fn arm_of(v: Variant, a: MatchArm, cap: Capability) -> bool {
    &&& a.variant == v.name
    &&& pattern_of(v.fields, a.pattern)
    &&& construct_of(v.fields, a.construct, true, cap)
}

/// One arm per variant, in declared order.
pub open spec fn arms_of(vs: Seq<Variant>, arms: Seq<MatchArm>, cap: Capability) -> bool {
    &&& arms.len() == vs.len()
    &&& forall|k: int| 0 <= k < vs.len() ==> arm_of(vs[k], #[trigger] arms[k], cap)
}

/// `r` is the impl of `cap` for the enum `name` with generics `g` and variants `vs`.
pub open spec fn enum_impl_of(
    name: String,
    g: Generics,
    vs: Seq<Variant>,
    r: ConversionImpl,
    cap: Capability,
) -> bool {
    &&& r.capability == cap
    &&& r.name == name
    &&& impl_generics_of(g, r.generics, cap)
    &&& target_args_of(g, r.target_args@)
    &&& match r.body {
        ConversionBody::Match(arms) => arms_of(vs, arms@, cap),
        _ => false,
    }
}

/// `e` reports the first field, over the variants in order, that cannot be converted.
pub open spec fn enum_rejection(name: String, vs: Seq<Variant>, e: DeriveError) -> bool {
    exists|k: int, i: int|
        0 <= k < vs.len() && variants_allowed(vs.take(k)) && first_rejected_at(
            field_types(vs[k].fields),
            i,
        ) && #[trigger] reports_field(e, name, Some(vs[k].name), vs[k].fields, i)
}

/// Generate both conversion impls for an enum, or report its first field that cannot
/// be converted.
pub fn generate_enum(name: &String, generics: &Generics, variants: &Vec<Variant>) -> (r: Result<
    Generated,
    DeriveError,
>)
    ensures
        r is Ok <==> variants_allowed(variants@),
        r matches Ok(g) ==> enum_impl_of(*name, *generics, variants@, g.to_static, Capability::ToStatic)
            && enum_impl_of(*name, *generics, variants@, g.into_static, Capability::IntoStatic),
        r matches Err(e) ==> enum_rejection(*name, variants@, e),
{
    let mut k: usize = 0;
    while k < variants.len()
        invariant
            k <= variants@.len(),
            variants_allowed(variants@.take(k as int)),
        decreases variants@.len() - k,
    {
        match check_fields(&variants[k].fields) {
            Some((field, lifetime)) => {
                let e = DeriveError {
                    declaration: name.clone(),
                    variant: Some(variants[k].name.clone()),
                    field,
                    lifetime,
                };
                proof {
                    let f = variants@[k as int].fields;
                    let i = choose|i: int|
                        first_rejected_at(field_types(f), i) && e.field == member_at(f, i)
                            && ref_lifetime(#[trigger] field_types(f)[i]) == RefLifetime::Named(
                            e.lifetime,
                        );
                    assert(reports_field(e, *name, Some(variants@[k as int].name), f, i));
                    assert(first_rejected_at(field_types(variants@[k as int].fields), i));
                    assert(enum_rejection(*name, variants@, e));
                    assert(!all_allowed(field_types(variants@[k as int].fields)));
                }
                return Err(e);
            },
            None => {},
        }
        assert(variants@.take(k + 1) =~= variants@.take(k as int).push(variants@[k as int]));
        k += 1;
    }
    assert(variants@.take(variants@.len() as int) =~= variants@);
    let to_static = generate_enum_to(name, generics, variants);
    let into_static = generate_enum_into(name, generics, variants);
    Ok(Generated { to_static, into_static })
}

/// The by-reference impl for an enum.
pub fn generate_enum_to(name: &String, generics: &Generics, variants: &Vec<Variant>) -> (r:
    ConversionImpl)
    ensures
        enum_impl_of(*name, *generics, variants@, r, Capability::ToStatic),
{
    let arms = generate_match_arms(variants, Capability::ToStatic);
    ConversionImpl {
        capability: Capability::ToStatic,
        name: name.clone(),
        generics: make_bounded_generics(generics, Capability::ToStatic),
        target_args: make_target_generics(generics),
        body: ConversionBody::Match(arms),
    }
}

/// The by-value impl for an enum.
pub fn generate_enum_into(name: &String, generics: &Generics, variants: &Vec<Variant>) -> (r:
    ConversionImpl)
    ensures
        enum_impl_of(*name, *generics, variants@, r, Capability::IntoStatic),
{
    let arms = generate_match_arms(variants, Capability::IntoStatic);
    ConversionImpl {
        capability: Capability::IntoStatic,
        name: name.clone(),
        generics: make_bounded_generics(generics, Capability::IntoStatic),
        target_args: make_target_generics(generics),
        body: ConversionBody::Match(arms),
    }
}

/// One match arm per variant, for unit, named and unnamed variants alike.
pub fn generate_match_arms(variants: &Vec<Variant>, target: Capability) -> (r: Vec<MatchArm>)
    ensures
        arms_of(variants@, r@, target),
{
    let mut r: Vec<MatchArm> = Vec::new();
    let mut k: usize = 0;
    while k < variants.len()
        invariant
            k <= variants@.len(),
            r@.len() == k,
            forall|j: int| 0 <= j < k ==> arm_of(variants@[j], #[trigger] r@[j], target),
        decreases variants@.len() - k,
    {
        let v = &variants[k];
        let arm = match &v.fields {
            Fields::Unit => generate_variant_unit(&v.name),
            Fields::Named(fs) => generate_variant_named(&v.name, fs, target),
            Fields::Unnamed(ts) => generate_variant_unnamed(&v.name, ts, target),
        };
        r.push(arm);
        k += 1;
    }
    r
}

/// The arm of a unit variant: re-tag, nothing to convert.
///
/// i.e. `Foo::Bar => Foo::Bar`
pub fn generate_variant_unit(variant: &String) -> (r: MatchArm)
    ensures
        r.variant == *variant,
        r.pattern is Unit,
        r.construct is Unit,
{
    MatchArm { variant: variant.clone(), pattern: Pattern::Unit, construct: Construct::Unit }
}

/// The arm of a variant with named fields.
///
/// i.e. `Foo::Bar { a, b } => Foo::Bar { a: a.to_static(), b: b.to_static() }`
pub fn generate_variant_named(variant: &String, fields: &Vec<NamedField>, target: Capability) -> (r:
    MatchArm)
    ensures
        r.variant == *variant,
        pattern_of(Fields::Named(*fields), r.pattern),
        construct_of(Fields::Named(*fields), r.construct, true, target),
{
    let names = extract_named_fields(fields);
    let inits = generate_named_field_init_method(fields, target);
    MatchArm {
        variant: variant.clone(),
        pattern: Pattern::Named(names),
        construct: Construct::Named(inits),
    }
}

/// The arm of a variant with unnamed fields, bound to positional placeholders.
///
/// i.e. `Foo::Bar(field_0, field_1) => Foo::Bar(field_0.to_static(), field_1.to_static())`
pub fn generate_variant_unnamed(variant: &String, fields: &Vec<FieldType>, target: Capability) -> (r:
    MatchArm)
    ensures
        r.variant == *variant,
        pattern_of(Fields::Unnamed(*fields), r.pattern),
        construct_of(Fields::Unnamed(*fields), r.construct, true, target),
{
    let placeholders = extract_unnamed_fields(fields);
    let inits = generate_unnamed_field_init_method(fields, target);
    MatchArm {
        variant: variant.clone(),
        pattern: Pattern::Unnamed(placeholders),
        construct: Construct::Unnamed(inits),
    }
}

/// i.e. `foo: foo.to_static()`
fn generate_named_field_init_method(fields: &Vec<NamedField>, target: Capability) -> (r: Vec<
    FieldInit,
>)
    ensures
        inits_of(Fields::Named(*fields), r@, fields@.len() as int, true, target),
{
    let mut r: Vec<FieldInit> = Vec::new();
    let mut i: usize = 0;
    while i < fields.len()
        invariant
            i <= fields@.len(),
            inits_of(Fields::Named(*fields), r@, i as int, true, target),
        decreases fields@.len() - i,
    {
        let init = FieldInit {
            member: Member::Named(fields[i].name.clone()),
            source: Operand::Binding(Member::Named(fields[i].name.clone())),
            capability: target,
        };
        assert(init == field_init(Fields::Named(*fields), i as int, true, target));
        r.push(init);
        i += 1;
    }
    r
}

/// i.e. `field_0.to_static()`
fn generate_unnamed_field_init_method(fields: &Vec<FieldType>, target: Capability) -> (r: Vec<
    FieldInit,
>)
    ensures
        inits_of(Fields::Unnamed(*fields), r@, fields@.len() as int, true, target),
{
    let mut r: Vec<FieldInit> = Vec::new();
    let mut i: usize = 0;
    while i < fields.len()
        invariant
            i <= fields@.len(),
            inits_of(Fields::Unnamed(*fields), r@, i as int, true, target),
        decreases fields@.len() - i,
    {
        let init = FieldInit {
            member: Member::Index(i),
            source: Operand::Binding(Member::Index(i)),
            capability: target,
        };
        assert(init == field_init(Fields::Unnamed(*fields), i as int, true, target));
        r.push(init);
        i += 1;
    }
    r
}

/// The names a pattern binds the named fields to: the fields' own names.
fn extract_named_fields(fields: &Vec<NamedField>) -> (r: Vec<String>)
    ensures
        r@ == field_names(fields@),
{
    let mut r: Vec<String> = Vec::new();
    let mut i: usize = 0;
    while i < fields.len()
        invariant
            i <= fields@.len(),
            r@ == field_names(fields@.take(i as int)),
        decreases fields@.len() - i,
    {
        r.push(fields[i].name.clone());
        assert(field_names(fields@.take(i + 1)) =~= field_names(fields@.take(i as int)).push(
            fields@[i as int].name,
        ));
        i += 1;
    }
    assert(fields@.take(fields@.len() as int) =~= fields@);
    r
}

/// The placeholders a pattern binds the unnamed fields to, one per position.
fn extract_unnamed_fields(fields: &Vec<FieldType>) -> (r: Vec<usize>)
    ensures
        placeholders_of(r@, fields@.len() as int),
{
    let mut r: Vec<usize> = Vec::new();
    let mut i: usize = 0;
    while i < fields.len()
        invariant
            i <= fields@.len(),
            placeholders_of(r@, i as int),
        decreases fields@.len() - i,
    {
        r.push(i);
        i += 1;
    }
    r
}

} // verus!

//! What every generated pair of impls satisfies, stated over the model of the
//! generated code.
use vstd::prelude::*;

use crate::ast::{Data, Declaration, Fields, GenericParam};
use crate::generated::{
    field_init, target_arg, Capability, ConversionBody, Construct, FieldInit, Member, Operand,
    TargetArg,
};
use crate::conversion_of;
use crate::generated::{ConversionImpl, ImplParam};

verus! {

/// A struct with `n` unnamed fields converts to a snapshot built positionally: field
/// `i` of the snapshot is the conversion of field `i` of `self`, for every `i < n`,
/// for every `n` including zero.
pub proof fn lemma_positional_round_trip(d: Declaration, r: ConversionImpl, cap: Capability)
    requires
        d.data matches Data::Struct(Fields::Unnamed(_)),
        conversion_of(d, r, cap),
    ensures
        r.body matches ConversionBody::Record(Construct::Unnamed(inits)) && inits@.len()
            == d.data->Struct_0->Unnamed_0@.len() && forall|i: int|
            0 <= i < inits@.len() ==> #[trigger] inits@[i] == (FieldInit {
                member: Member::Index(i as usize),
                source: Operand::SelfField(Member::Index(i as usize)),
                capability: cap,
            }),
{
    let f = d.data->Struct_0;
    if let ConversionBody::Record(Construct::Unnamed(inits)) = r.body {
        assert forall|i: int| 0 <= i < inits@.len() implies #[trigger] inits@[i] == (FieldInit {
            member: Member::Index(i as usize),
            source: Operand::SelfField(Member::Index(i as usize)),
            capability: cap,
        }) by {
            assert(inits@[i] == field_init(f, i, false, cap));
        }
    }
}

/// A tagged union's conversion is one match arm per declared variant, in declared
/// order, and the arm for a variant rebuilds that same variant: the tag is kept.
pub proof fn lemma_variant_tag_preserved(d: Declaration, r: ConversionImpl, cap: Capability)
    requires
        d.data matches Data::Enum(_),
        conversion_of(d, r, cap),
    ensures
        r.body matches ConversionBody::Match(arms) && arms@.len() == d.data->Enum_0@.len()
            && forall|k: int|
            0 <= k < arms@.len() ==> #[trigger] arms@[k].variant == d.data->Enum_0@[k].name,
{
    let vs = d.data->Enum_0@;
    if let ConversionBody::Match(arms) = r.body {
        assert forall|k: int| 0 <= k < arms@.len() implies #[trigger] arms@[k].variant
            == vs[k].name by {
            assert(crate::data_enum::arm_of(vs[k], arms@[k], cap));
        }
    }
}

/// Named fields are initialized in declared order, and reordering the declared fields
/// reorders the initializers the same way: where field `i` of `e` is field `perm[i]`
/// of `d`, initializer `i` of `e`'s conversion is initializer `perm[i]` of `d`'s.
pub proof fn lemma_field_order_preserved(
    d: Declaration,
    e: Declaration,
    perm: Seq<int>,
    rd: ConversionImpl,
    re: ConversionImpl,
    cap: Capability,
)
    requires
        d.data matches Data::Struct(Fields::Named(_)),
        e.data matches Data::Struct(Fields::Named(_)),
        perm.len() == e.data->Struct_0->Named_0@.len(),
        forall|i: int|
            0 <= i < perm.len() ==> 0 <= #[trigger] perm[i] < d.data->Struct_0->Named_0@.len()
                && e.data->Struct_0->Named_0@[i] == d.data->Struct_0->Named_0@[perm[i]],
        conversion_of(d, rd, cap),
        conversion_of(e, re, cap),
    ensures
        rd.body matches ConversionBody::Record(Construct::Named(ds)) && re.body matches ConversionBody::Record(
            Construct::Named(es),
        ) && es@.len() == perm.len() && (forall|i: int|
            0 <= i < es@.len() ==> #[trigger] es@[i] == ds@[perm[i]]) && (forall|i: int|
            0 <= i < es@.len() ==> (#[trigger] es@[i]).member == Member::Named(
                e.data->Struct_0->Named_0@[i].name,
            )),
{
    let fd = d.data->Struct_0;
    let fe = e.data->Struct_0;
    if let ConversionBody::Record(Construct::Named(ds)) = rd.body {
        if let ConversionBody::Record(Construct::Named(es)) = re.body {
            assert forall|i: int| 0 <= i < es@.len() implies #[trigger] es@[i] == ds@[perm[i]]
                && es@[i].member == Member::Named(fe->Named_0@[i].name) by {
                assert(es@[i] == field_init(fe, i, false, cap));
                assert(ds@[perm[i]] == field_init(fd, perm[i], false, cap));
            }
        }
    }
}

/// A const parameter reaches the snapshot type as itself, in its own position, and
/// the impl declares it with its declared type: whatever value it is given at a use
/// site, the snapshot is instantiated with that value.
pub proof fn lemma_const_passthrough(d: Declaration, r: ConversionImpl, cap: Capability, i: int)
    requires
        conversion_of(d, r, cap),
        0 <= i < d.generics.params@.len(),
        d.generics.params@[i] matches GenericParam::Const { .. },
    ensures
        r.target_args@[i] == TargetArg::Const(d.generics.params@[i]->Const_name),
        r.generics.params@[i] matches ImplParam::Const { name, ty } && name
            == d.generics.params@[i]->Const_name && ty == d.generics.params@[i]->Const_ty,
{
    assert(r.target_args@[i] == target_arg(d.generics.params@[i]));
    assert(crate::generated::impl_param_of(d.generics.params@[i], r.generics.params@[i], cap));
}

/// The snapshot type has no lifetime parameter of the declaration left: every
/// lifetime position, and only those, holds `'static`, however many lifetimes there
/// are and however they bound each other. The impl itself keeps each lifetime with its
/// declared bounds.
pub proof fn lemma_lifetimes_erased(d: Declaration, r: ConversionImpl, cap: Capability)
    requires
        conversion_of(d, r, cap),
    ensures
        r.target_args@.len() == d.generics.params@.len(),
        forall|i: int|
            0 <= i < r.target_args@.len() ==> (#[trigger] r.target_args@[i] is StaticLifetime
                <==> d.generics.params@[i] is Lifetime),
        forall|i: int|
            0 <= i < d.generics.params@.len() && d.generics.params@[i] is Lifetime ==> (
            #[trigger] r.generics.params@[i] matches ImplParam::Lifetime { name, bounds } && name
                == d.generics.params@[i]->Lifetime_name && bounds@
                == d.generics.params@[i]->Lifetime_bounds@),
{
    assert forall|i: int| 0 <= i < r.target_args@.len() implies (
    #[trigger] r.target_args@[i] is StaticLifetime <==> d.generics.params@[i] is Lifetime) by {
        assert(r.target_args@[i] == target_arg(d.generics.params@[i]));
    }
    assert forall|i: int|
        0 <= i < d.generics.params@.len() && d.generics.params@[i] is Lifetime implies (
        #[trigger] r.generics.params@[i] matches ImplParam::Lifetime { name, bounds } && name
            == d.generics.params@[i]->Lifetime_name && bounds@
            == d.generics.params@[i]->Lifetime_bounds@) by {
        assert(crate::generated::impl_param_of(
            d.generics.params@[i],
            r.generics.params@[i],
            cap,
        ));
    }
}

} // verus!

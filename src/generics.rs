//! Rewrites a declaration's generics into what a conversion impl needs: its own
//! parameter list and `where` clause, and the arguments naming the snapshot type.
use vstd::prelude::*;

use crate::ast::{GenericParam, Generics};
use crate::common::copy_strings;
use crate::generated::{
    impl_param_of, lifetime_param_names, outlives_predicates, param_ref, target_arg,
    type_param_names, where_of, Capability, ImplGenerics, ImplParam, ParamRef, TargetArg,
    WherePredicate,
};

verus! {

/// The arguments of the snapshot type: `'static` for each lifetime, the snapshot
/// type of each type parameter, each const parameter as it is.
pub fn make_target_generics(generics: &Generics) -> (r: Vec<TargetArg>)
    ensures
        r@.len() == generics.params@.len(),
        forall|i: int|
            0 <= i < r@.len() ==> #[trigger] r@[i] == target_arg(generics.params@[i]),
{
    let ps = &generics.params;
    let mut r: Vec<TargetArg> = Vec::new();
    let mut i: usize = 0;
    while i < ps.len()
        invariant
            i <= ps@.len(),
            r@.len() == i,
            forall|j: int| 0 <= j < i ==> #[trigger] r@[j] == target_arg(ps@[j]),
        decreases ps@.len() - i,
    {
        let a = match &ps[i] {
            GenericParam::Lifetime { .. } => TargetArg::StaticLifetime,
            GenericParam::Type { name, .. } => TargetArg::Snapshot(name.clone()),
            GenericParam::Const { name, .. } => TargetArg::Const(name.clone()),
        };
        r.push(a);
        i += 1;
    }
    r
}

/// The arguments naming the declared type with its own parameters.
pub fn make_self_args(generics: &Generics) -> (r: Vec<ParamRef>)
    ensures
        r@.len() == generics.params@.len(),
        forall|i: int| 0 <= i < r@.len() ==> #[trigger] r@[i] == param_ref(generics.params@[i]),
{
    let ps = &generics.params;
    let mut r: Vec<ParamRef> = Vec::new();
    let mut i: usize = 0;
    while i < ps.len()
        invariant
            i <= ps@.len(),
            r@.len() == i,
            forall|j: int| 0 <= j < i ==> #[trigger] r@[j] == param_ref(ps@[j]),
        decreases ps@.len() - i,
    {
        let a = match &ps[i] {
            GenericParam::Lifetime { name, .. } => ParamRef::Lifetime(name.clone()),
            GenericParam::Type { name, .. } => ParamRef::Type(name.clone()),
            GenericParam::Const { name, .. } => ParamRef::Const(name.clone()),
        };
        r.push(a);
        i += 1;
    }
    r
}

/// The impl's parameters: lifetimes and consts as declared, each type parameter with
/// the capability added to its declared bounds.
pub fn make_bounded_params(generics: &Generics, target: Capability) -> (r: Vec<ImplParam>)
    ensures
        r@.len() == generics.params@.len(),
        forall|i: int|
            0 <= i < r@.len() ==> impl_param_of(generics.params@[i], #[trigger] r@[i], target),
{
    let ps = &generics.params;
    let mut r: Vec<ImplParam> = Vec::new();
    let mut i: usize = 0;
    while i < ps.len()
        invariant
            i <= ps@.len(),
            r@.len() == i,
            forall|j: int| 0 <= j < i ==> impl_param_of(ps@[j], #[trigger] r@[j], target),
        decreases ps@.len() - i,
    {
        let q = match &ps[i] {
            GenericParam::Lifetime { name, bounds } => ImplParam::Lifetime {
                name: name.clone(),
                bounds: copy_strings(bounds),
            },
            GenericParam::Type { name, bounds, .. } => ImplParam::Type {
                name: name.clone(),
                bounds: copy_strings(bounds),
                capability: target,
            },
            GenericParam::Const { name, ty, .. } => ImplParam::Const {
                name: name.clone(),
                ty: ty.clone(),
            },
        };
        r.push(q);
        i += 1;
    }
    r
}

/// The names of the type parameters (`lifetimes == false`) or of the lifetime
/// parameters (`lifetimes == true`), in declared order.
fn param_names(ps: &Vec<GenericParam>, lifetimes: bool) -> (r: Vec<String>)
    ensures
        r@ == (if lifetimes {
            lifetime_param_names(ps@)
        } else {
            type_param_names(ps@)
        }),
{
    let mut r: Vec<String> = Vec::new();
    let mut i: usize = 0;
    while i < ps.len()
        invariant
            i <= ps@.len(),
            r@ == (if lifetimes {
                lifetime_param_names(ps@.take(i as int))
            } else {
                type_param_names(ps@.take(i as int))
            }),
        decreases ps@.len() - i,
    {
        let ghost next = ps@.take(i + 1);
        assert(next.drop_last() =~= ps@.take(i as int));
        assert(next.last() == ps@[i as int]);
        match &ps[i] {
            GenericParam::Lifetime { name, .. } => {
                if lifetimes {
                    r.push(name.clone());
                }
            },
            GenericParam::Type { name, .. } => {
                if !lifetimes {
                    r.push(name.clone());
                }
            },
            GenericParam::Const { .. } => {},
        }
        i += 1;
    }
    assert(ps@.take(ps@.len() as int) =~= ps@);
    r
}

/// The impl's `where` clause: each type parameter outlives each lifetime parameter,
/// then the declaration's own predicates, verbatim and in order.
pub fn make_bounded_predicates(generics: &Generics) -> (r: Vec<WherePredicate>)
    ensures
        r@ == where_of(generics.params@, generics.where_clause@),
{
    let ts = param_names(&generics.params, false);
    let ls = param_names(&generics.params, true);
    let mut r: Vec<WherePredicate> = Vec::new();
    let mut i: usize = 0;
    while i < ts.len()
        invariant
            i <= ts@.len(),
            r@ == outlives_predicates(ts@.take(i as int), ls@),
        decreases ts@.len() - i,
    {
        let ghost before = r@;
        let mut j: usize = 0;
        while j < ls.len()
            invariant
                i < ts@.len(),
                j <= ls@.len(),
                r@ == before + ls@.take(j as int).map_values(
                    |l: String| WherePredicate::Outlives { param: ts@[i as int], lifetime: l },
                ),
            decreases ls@.len() - j,
        {
            r.push(WherePredicate::Outlives { param: ts[i].clone(), lifetime: ls[j].clone() });
            assert(ls@.take(j + 1).map_values(
                |l: String| WherePredicate::Outlives { param: ts@[i as int], lifetime: l },
            ) =~= ls@.take(j as int).map_values(
                |l: String| WherePredicate::Outlives { param: ts@[i as int], lifetime: l },
            ).push(WherePredicate::Outlives { param: ts@[i as int], lifetime: ls@[j as int] }));
            j += 1;
        }
        let ghost next = ts@.take(i + 1);
        assert(next.drop_last() =~= ts@.take(i as int));
        assert(ls@.take(ls@.len() as int) =~= ls@);
        assert(r@ =~= outlives_predicates(next, ls@));
        i += 1;
    }
    assert(ts@.take(ts@.len() as int) =~= ts@);
    let ghost synthesized = r@;
    let declared = &generics.where_clause;
    let mut k: usize = 0;
    while k < declared.len()
        invariant
            k <= declared@.len(),
            r@ == synthesized + declared@.take(k as int).map_values(
                |s: String| WherePredicate::Declared(s),
            ),
        decreases declared@.len() - k,
    {
        r.push(WherePredicate::Declared(declared[k].clone()));
        assert(declared@.take(k + 1).map_values(|s: String| WherePredicate::Declared(s))
            =~= declared@.take(k as int).map_values(|s: String| WherePredicate::Declared(s)).push(
            WherePredicate::Declared(declared@[k as int]),
        ));
        k += 1;
    }
    assert(declared@.take(declared@.len() as int) =~= declared@);
    r
}

/// `q` is the impl-side rewriting of `g` for capability `cap`.
pub open spec fn impl_generics_of(g: Generics, q: ImplGenerics, cap: Capability) -> bool {
    &&& q.params@.len() == g.params@.len()
    &&& forall|i: int|
        0 <= i < q.params@.len() ==> impl_param_of(g.params@[i], #[trigger] q.params@[i], cap)
    &&& q.self_args@.len() == g.params@.len()
    &&& forall|i: int|
        0 <= i < q.self_args@.len() ==> #[trigger] q.self_args@[i] == param_ref(g.params@[i])
    &&& q.where_clause@ == where_of(g.params@, g.where_clause@)
}

/// `args` names the snapshot type of a declaration with generics `g`.
pub open spec fn target_args_of(g: Generics, args: Seq<TargetArg>) -> bool {
    &&& args.len() == g.params@.len()
    &&& forall|i: int| 0 <= i < args.len() ==> #[trigger] args[i] == target_arg(g.params@[i])
}

/// The impl-side generics of a conversion impl for `target`.
pub fn make_bounded_generics(generics: &Generics, target: Capability) -> (r: ImplGenerics)
    ensures
        impl_generics_of(*generics, r, target),
{
    ImplGenerics {
        params: make_bounded_params(generics, target),
        self_args: make_self_args(generics),
        where_clause: make_bounded_predicates(generics),
    }
}

} // verus!

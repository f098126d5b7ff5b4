//! Generates the two snapshot conversions (by reference and by value) for a record or
//! tagged-union declaration, as a structured description of the impls to emit.
use vstd::prelude::*;

pub mod ast;
pub mod common;
pub mod data_enum;
pub mod data_struct;
pub mod generated;
pub mod generics;
pub mod laws;

use crate::ast::{data_allowed, Data, Declaration};
use crate::common::DeriveError;
use crate::data_enum::{enum_impl_of, enum_rejection, generate_enum};
use crate::data_struct::{generate_struct, record_impl_of, struct_rejection};
use crate::generated::{Capability, ConversionImpl, Generated};

verus! {

/// `r` is the impl of `cap` for declaration `d`.
pub open spec fn conversion_of(d: Declaration, r: ConversionImpl, cap: Capability) -> bool {
    match d.data {
        Data::Struct(f) => record_impl_of(d.name, d.generics, f, r, cap),
        Data::Enum(vs) => enum_impl_of(d.name, d.generics, vs@, r, cap),
    }
}

/// `e` reports the first field of `d` that cannot be converted.
pub open spec fn rejection_of(d: Declaration, e: DeriveError) -> bool {
    match d.data {
        Data::Struct(f) => struct_rejection(d.name, f, e),
        Data::Enum(vs) => enum_rejection(d.name, vs@, e),
    }
}

/// Generate the by-reference and the by-value conversion impls of a declaration.
/// Nothing is generated when a field holds a reference whose lifetime is not
/// `'static`; the first such field is reported instead.
pub fn derive_to_static(decl: &Declaration) -> (r: Result<Generated, DeriveError>)
    ensures
        r is Ok <==> data_allowed(decl.data),
        r matches Ok(g) ==> conversion_of(*decl, g.to_static, Capability::ToStatic)
            && conversion_of(*decl, g.into_static, Capability::IntoStatic),
        r matches Err(e) ==> rejection_of(*decl, e),
{
    match &decl.data {
        Data::Struct(fields) => generate_struct(&decl.name, &decl.generics, fields),
        Data::Enum(variants) => generate_enum(&decl.name, &decl.generics, variants),
    }
}

} // verus!

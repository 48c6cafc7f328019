//! A model of the instance library: which types the built-in `HasPartial`
//! instances cover, and what counterpart they assign. Against it, the laws at
//! the bottom pin down how a rewritten field type evaluates once the
//! projections introduced by the transform are resolved.
use vstd::prelude::*;

use crate::model::{EmittedV, FieldsV, GenErrorV, MetaV, TyV, TypeDefV};
use crate::config::spec_config;
use crate::transform::{body_tys, fields_tys, rewritten_ty, spec_rewrite_field,
    spec_rewrite_field_seq, spec_rewrite_fields, spec_transform};

verus! {

/// Whether the built-in instances alone give the type a partial counterpart:
/// scalars, sequences and optionals of such types, and mappings whose value
/// type is such a type (keys are never softened, so they are unconstrained).
pub open spec fn lib_resolvable(t: TyV) -> bool
    decreases t,
{
    match t {
        TyV::Scalar(_) => true,
        TyV::Vector(e) => lib_resolvable(*e),
        TyV::Mapping(_, v) => lib_resolvable(*v),
        TyV::Optional(e) => lib_resolvable(*e),
        _ => false,
    }
}

/// Whether the type is free of `PartialOf` projections, as every declared
/// field type is before the transform rewrites it.
pub open spec fn projection_free(t: TyV) -> bool
    decreases t,
{
    match t {
        TyV::Scalar(_) => true,
        TyV::Vector(e) => projection_free(*e),
        TyV::Mapping(k, v) => projection_free(*k) && projection_free(*v),
        TyV::Optional(e) => projection_free(*e),
        TyV::Named(_) => true,
        TyV::PartialOf(_) => false,
    }
}

/// The partial counterpart the built-in instances assign: scalars map to
/// themselves, a sequence maps to a sequence of partial elements, a mapping
/// keeps its keys and softens its values, and an optional flattens to the
/// partial form of what it wraps.
pub open spec fn partial_of(t: TyV) -> TyV
    recommends
        lib_resolvable(t),
    decreases t,
{
    match t {
        TyV::Scalar(s) => TyV::Scalar(s),
        TyV::Vector(e) => TyV::Vector(Box::new(partial_of(*e))),
        TyV::Mapping(k, v) => TyV::Mapping(k, Box::new(partial_of(*v))),
        TyV::Optional(e) => partial_of(*e),
        _ => t,
    }
}

/// Evaluates the `PartialOf` projections in a type wherever the built-in
/// instances cover the projected type; anything else is left standing.
pub open spec fn resolve(t: TyV) -> TyV
    decreases t,
{
    match t {
        TyV::Scalar(s) => TyV::Scalar(s),
        TyV::Vector(e) => TyV::Vector(Box::new(resolve(*e))),
        TyV::Mapping(k, v) => TyV::Mapping(Box::new(resolve(*k)), Box::new(resolve(*v))),
        TyV::Optional(e) => TyV::Optional(Box::new(resolve(*e))),
        TyV::Named(s) => TyV::Named(s),
        TyV::PartialOf(e) => {
            let r = resolve(*e);
            if lib_resolvable(r) {
                partial_of(r)
            } else {
                TyV::PartialOf(Box::new(r))
            }
        },
    }
}

/// Law: the partial counterpart of an optional type is the partial
/// counterpart of the wrapped type itself, not an optional of it. The
/// transform adds the one optional layer; the instance library adds none.
pub proof fn lemma_optional_flattening(t: TyV)
    ensures
        partial_of(TyV::Optional(Box::new(t))) == partial_of(t),
{
}

/// Law: a scalar type is its own partial counterpart.
pub proof fn lemma_scalar_identity(t: TyV)
    requires
        t is Scalar,
    ensures
        partial_of(t) == t,
{
}

/// Resolving a projection-free type leaves it unchanged.
pub proof fn lemma_resolve_projection_free(t: TyV)
    requires
        projection_free(t),
    ensures
        resolve(t) == t,
    decreases t,
{
    match t {
        TyV::Vector(e) => {
            lemma_resolve_projection_free(*e);
        },
        TyV::Mapping(k, v) => {
            lemma_resolve_projection_free(*k);
            lemma_resolve_projection_free(*v);
        },
        TyV::Optional(e) => {
            lemma_resolve_projection_free(*e);
        },
        _ => {},
    }
}

/// The generated field types are the original ones rewritten, position by
/// position.
pub proof fn lemma_rewritten_field_tys(fl: FieldsV, all: Seq<MetaV>)
    ensures
        fields_tys(spec_rewrite_fields(fl, all)).len() == fields_tys(fl).len(),
        forall|i: int|
            0 <= i < fields_tys(fl).len() ==> fields_tys(spec_rewrite_fields(fl, all))[i]
                == rewritten_ty(fields_tys(fl)[i]),
{
    match fl {
        FieldsV::Named(fs) => {
            assert forall|i: int| 0 <= i < fields_tys(fl).len() implies fields_tys(
                spec_rewrite_fields(fl, all),
            )[i] == rewritten_ty(fields_tys(fl)[i]) by {
                assert(spec_rewrite_field_seq(fs, all)[i] == spec_rewrite_field(fs[i], all));
            }
        },
        FieldsV::Unnamed(fs) => {
            assert forall|i: int| 0 <= i < fields_tys(fl).len() implies fields_tys(
                spec_rewrite_fields(fl, all),
            )[i] == rewritten_ty(fields_tys(fl)[i]) by {
                assert(spec_rewrite_field_seq(fs, all)[i] == spec_rewrite_field(fs[i], all));
            }
        },
        FieldsV::Unit => {},
    }
}

/// Law: a field whose declared type the built-in instances cover generates
/// the declared type's partial counterpart wrapped in exactly one optional
/// layer. In particular a scalar field generates `Option` of the scalar
/// itself, and an `Option<T>` field generates `Option` of `T`'s partial
/// counterpart — never a double optional.
pub proof fn lemma_resolved_field_ty(t: TyV)
    requires
        lib_resolvable(t),
        projection_free(t),
    ensures
        resolve(rewritten_ty(t)) == TyV::Optional(Box::new(partial_of(t))),
{
    lemma_resolve_projection_free(t);
    assert(resolve(TyV::PartialOf(Box::new(t))) == partial_of(t));
    assert(resolve(rewritten_ty(t)) == TyV::Optional(
        Box::new(resolve(TyV::PartialOf(Box::new(t)))),
    ));
}

/// Law: for a struct input, a field with a covered declared type — a scalar,
/// or an optional of one — comes out of the whole transform with a field type
/// that resolves to one optional layer around the declared type's partial
/// counterpart: identity for scalars, flattened for optionals.
pub proof fn lemma_struct_field_resolution(d: TypeDefV, e: EmittedV, i: int)
    requires
        spec_transform(d) == Ok::<EmittedV, GenErrorV>(e),
        d.body is StructBody,
        0 <= i < body_tys(d.body).len(),
        lib_resolvable(body_tys(d.body)[i]),
        projection_free(body_tys(d.body)[i]),
    ensures
        e.def.body is StructBody,
        body_tys(e.def.body).len() == body_tys(d.body).len(),
        body_tys(e.def.body)[i] == rewritten_ty(body_tys(d.body)[i]),
        resolve(body_tys(e.def.body)[i]) == TyV::Optional(
            Box::new(partial_of(body_tys(d.body)[i])),
        ),
{
    let cfg = spec_config(d.attrs)->Ok_0;
    let fl = d.body->StructBody_0;
    lemma_rewritten_field_tys(fl, cfg.all);
    lemma_resolved_field_ty(body_tys(d.body)[i]);
}

/// Law: a field of scalar declared type generates a field whose type
/// resolves to exactly the original type, wrapped in one optional layer.
pub proof fn lemma_scalar_field_resolution(d: TypeDefV, e: EmittedV, i: int)
    requires
        spec_transform(d) == Ok::<EmittedV, GenErrorV>(e),
        d.body is StructBody,
        0 <= i < body_tys(d.body).len(),
        body_tys(d.body)[i] is Scalar,
    ensures
        resolve(body_tys(e.def.body)[i]) == TyV::Optional(Box::new(body_tys(d.body)[i])),
{
    lemma_struct_field_resolution(d, e, i);
    lemma_scalar_identity(body_tys(d.body)[i]);
}

/// Law: a field declared `Option<T>`, with `T` covered by the built-in
/// instances, generates a field whose type resolves to `Option` of `T`'s
/// partial counterpart — the flattening rule keeps the second optional layer
/// from appearing.
pub proof fn lemma_optional_field_resolution(d: TypeDefV, e: EmittedV, i: int)
    requires
        spec_transform(d) == Ok::<EmittedV, GenErrorV>(e),
        d.body is StructBody,
        0 <= i < body_tys(d.body).len(),
        body_tys(d.body)[i] is Optional,
        lib_resolvable(body_tys(d.body)[i]),
        projection_free(body_tys(d.body)[i]),
    ensures
        resolve(body_tys(e.def.body)[i]) == TyV::Optional(
            Box::new(partial_of(*body_tys(d.body)[i]->Optional_0)),
        ),
{
    lemma_struct_field_resolution(d, e, i);
    lemma_optional_flattening(*body_tys(d.body)[i]->Optional_0);
}

} // verus!

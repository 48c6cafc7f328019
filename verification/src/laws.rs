//! Laws of the transform that relate several of its pieces: deduplication of
//! the capability bounds, preservation of enum shape, and the all-or-nothing
//! failure behavior.
use vstd::prelude::*;

use crate::model::{EmittedV, FieldsV, FieldV, GenErrorKind, GenErrorV, MetaV, TyV, TypeDefV,
    VariantV};
use crate::config::{empty_config, meta_path_of, spec_config, spec_is_ident, spec_parse_arg,
    spec_parse_args, spec_parse_attr, ConfigV};
use crate::transform::{body_tys, bound_preds, dedup, spec_rewrite_field, spec_rewrite_field_seq,
    spec_rewrite_fields, spec_rewrite_variants, spec_transform};

verus! {

proof fn lemma_push_contains(s: Seq<TyV>, x: TyV, t: TyV)
    ensures
        s.push(x).contains(t) <==> (s.contains(t) || t == x),
{
    if s.contains(t) {
        let i = choose|i: int| 0 <= i < s.len() && s[i] == t;
        assert(s.push(x)[i] == t);
    }
    if t == x {
        assert(s.push(x)[s.len() as int] == t);
    }
    if s.push(x).contains(t) {
        let i = choose|i: int| 0 <= i < s.push(x).len() && s.push(x)[i] == t;
        if i < s.len() {
            assert(s[i] == t);
        }
    }
}

proof fn lemma_drop_last_contains(s: Seq<TyV>, t: TyV)
    requires
        s.len() > 0,
    ensures
        s.contains(t) <==> (s.drop_last().contains(t) || s.last() == t),
{
    if s.drop_last().contains(t) {
        let i = choose|i: int| 0 <= i < s.drop_last().len() && s.drop_last()[i] == t;
        assert(s[i] == t);
    }
    if s.last() == t {
        assert(s[s.len() - 1] == t);
    }
    if s.contains(t) {
        let i = choose|i: int| 0 <= i < s.len() && s[i] == t;
        if i < s.len() - 1 {
            assert(s.drop_last()[i] == t);
        }
    }
}

/// Law: deduplication keeps exactly the members of the input, each once.
pub proof fn lemma_dedup_distinct(s: Seq<TyV>)
    ensures
        dedup(s).no_duplicates(),
        forall|t: TyV| #[trigger] dedup(s).contains(t) <==> s.contains(t),
    decreases s.len(),
{
    if s.len() == 0 {
        assert forall|t: TyV| #[trigger] dedup(s).contains(t) <==> s.contains(t) by {
            assert(!s.contains(t));
            assert(dedup(s) =~= Seq::<TyV>::empty());
        }
    } else {
        lemma_dedup_distinct(s.drop_last());
        let d = dedup(s.drop_last());
        let x = s.last();
        assert forall|t: TyV| #[trigger] dedup(s).contains(t) <==> s.contains(t) by {
            lemma_drop_last_contains(s, t);
            if !d.contains(x) {
                lemma_push_contains(d, x, t);
            }
        }
        if !d.contains(x) {
            assert forall|i: int, j: int|
                0 <= i < dedup(s).len() && 0 <= j < dedup(s).len() && i != j implies dedup(
                s,
            )[i] != dedup(s)[j] by {
                if i < d.len() && j < d.len() {
                    assert(dedup(s)[i] == d[i] && dedup(s)[j] == d[j]);
                } else if i < d.len() {
                    assert(dedup(s)[j] == x);
                    assert(!d.contains(x));
                    assert(d[i] != x);
                } else {
                    assert(dedup(s)[i] == x);
                    assert(!d.contains(x));
                    assert(d[j] != x);
                }
            }
        }
    }
}

/// Deduplicating a list that already has no duplicates changes nothing.
pub proof fn lemma_dedup_of_distinct(s: Seq<TyV>)
    requires
        s.no_duplicates(),
    ensures
        dedup(s) == s,
    decreases s.len(),
{
    if s.len() == 0 {
        assert(dedup(s) =~= s);
    } else {
        assert forall|i: int, j: int|
            0 <= i < s.drop_last().len() && 0 <= j < s.drop_last().len() && i != j implies s
            .drop_last()[i] != s.drop_last()[j] by {
            assert(s.drop_last()[i] == s[i] && s.drop_last()[j] == s[j]);
        }
        lemma_dedup_of_distinct(s.drop_last());
        if s.drop_last().contains(s.last()) {
            let i = choose|i: int|
                0 <= i < s.drop_last().len() && s.drop_last()[i] == s.last();
            assert(s[i] == s[s.len() - 1]);
            assert(false);
        }
        assert(dedup(s) =~= s);
    }
}

/// Law: collecting the bound set is idempotent — deduplicating what is
/// already deduplicated adds and removes nothing.
pub proof fn lemma_dedup_idempotent(s: Seq<TyV>)
    ensures
        dedup(dedup(s)) == dedup(s),
{
    lemma_dedup_distinct(s);
    lemma_dedup_of_distinct(dedup(s));
}

/// Law: the sibling's where-clause is the original one plus exactly one
/// capability bound per distinct declared field type — one bound for a type
/// however often fields repeat it, and none for types no field declares. The
/// linkage shares those generics.
pub proof fn lemma_bound_dedup(d: TypeDefV, e: EmittedV)
    requires
        spec_transform(d) == Ok::<EmittedV, GenErrorV>(e),
    ensures
        e.def.generics.params == d.generics.params,
        e.def.generics.preds == d.generics.preds + bound_preds(dedup(body_tys(d.body))),
        e.linkage.generics == e.def.generics,
        dedup(body_tys(d.body)).no_duplicates(),
        forall|t: TyV| #[trigger] dedup(body_tys(d.body)).contains(t) <==> body_tys(
            d.body,
        ).contains(t),
{
    lemma_dedup_distinct(body_tys(d.body));
}

pub open spec fn fields_list(fl: FieldsV) -> Seq<FieldV> {
    match fl {
        FieldsV::Named(fs) => fs,
        FieldsV::Unnamed(fs) => fs,
        FieldsV::Unit => Seq::empty(),
    }
}

/// Same named/unnamed/unit style, same field count, same field names.
pub open spec fn same_field_shape(a: FieldsV, b: FieldsV) -> bool {
    &&& (a is Named <==> b is Named)
    &&& (a is Unnamed <==> b is Unnamed)
    &&& (a is Unit <==> b is Unit)
    &&& fields_list(a).len() == fields_list(b).len()
    &&& forall|i: int|
        0 <= i < fields_list(a).len() ==> (#[trigger] fields_list(b)[i]).name == fields_list(
            a,
        )[i].name
}

proof fn lemma_rewrite_keeps_shape(fl: FieldsV, all: Seq<MetaV>)
    ensures
        same_field_shape(fl, spec_rewrite_fields(fl, all)),
{
    let b = spec_rewrite_fields(fl, all);
    assert forall|i: int| 0 <= i < fields_list(fl).len() implies (#[trigger] fields_list(
        b,
    )[i]).name == fields_list(fl)[i].name by {
        match fl {
            FieldsV::Named(fs) => {
                assert(spec_rewrite_field_seq(fs, all)[i] == spec_rewrite_field(fs[i], all));
            },
            FieldsV::Unnamed(fs) => {
                assert(spec_rewrite_field_seq(fs, all)[i] == spec_rewrite_field(fs[i], all));
            },
            FieldsV::Unit => {},
        }
    }
}

/// Law: an enum's sibling has exactly as many variants, under the same names
/// and with the same field shapes, and every variant's own attributes are
/// cleared, never restamped.
pub proof fn lemma_enum_shape(d: TypeDefV, e: EmittedV)
    requires
        spec_transform(d) == Ok::<EmittedV, GenErrorV>(e),
        d.body is EnumBody,
    ensures
        e.def.body is EnumBody,
        e.def.body->EnumBody_0.len() == d.body->EnumBody_0.len(),
        forall|i: int|
            0 <= i < d.body->EnumBody_0.len() ==> (#[trigger] e.def.body->EnumBody_0[i]).name
                == d.body->EnumBody_0[i].name,
        forall|i: int|
            0 <= i < d.body->EnumBody_0.len() ==> (#[trigger] e.def.body->EnumBody_0[i]).attrs
                =~= Seq::<MetaV>::empty(),
        forall|i: int|
            0 <= i < d.body->EnumBody_0.len() ==> same_field_shape(
                d.body->EnumBody_0[i].fields,
                (#[trigger] e.def.body->EnumBody_0[i]).fields,
            ),
{
    let cfg = spec_config(d.attrs)->Ok_0;
    let vs = d.body->EnumBody_0;
    let nvs = e.def.body->EnumBody_0;
    assert(nvs == spec_rewrite_variants(vs, cfg.all));
    assert forall|i: int| 0 <= i < vs.len() implies (#[trigger] nvs[i]).name == vs[i].name
        && nvs[i].attrs =~= Seq::<MetaV>::empty() && same_field_shape(
        vs[i].fields,
        nvs[i].fields,
    ) by {
        assert(nvs[i] == VariantV {
            name: vs[i].name,
            attrs: Seq::<MetaV>::empty(),
            fields: spec_rewrite_fields(vs[i].fields, cfg.all),
        });
        lemma_rewrite_keeps_shape(vs[i].fields, cfg.all);
    }
}

/// Law: a union body is rejected with one error localized to the union
/// keyword, and nothing is emitted for the definition.
pub proof fn lemma_union_rejected(d: TypeDefV)
    requires
        spec_config(d.attrs) is Ok,
        d.body is UnionBody,
    ensures
        spec_transform(d) == Err::<EmittedV, GenErrorV>(
            GenErrorV { span: d.body->UnionBody_0, kind: GenErrorKind::UnionUnsupported },
        ),
{
}

/// Law: an item under `partial(...)` whose key is neither `derive` nor `all`
/// fails the parse with one unrecognized-directive error at that key.
pub proof fn lemma_unknown_key_rejected(cfg: ConfigV, arg: MetaV)
    requires
        !spec_is_ident(meta_path_of(arg), "derive"@),
        !spec_is_ident(meta_path_of(arg), "all"@),
    ensures
        spec_parse_arg(cfg, arg) == Err::<ConfigV, GenErrorV>(
            GenErrorV {
                span: meta_path_of(arg).span,
                kind: GenErrorKind::UnrecognizedDirective,
            },
        ),
{
}

/// Law: a configuration error aborts the whole invocation with exactly that
/// error; no sibling and no linkage are emitted.
pub proof fn lemma_config_error_aborts(d: TypeDefV, e: GenErrorV)
    requires
        spec_config(d.attrs) == Err::<ConfigV, GenErrorV>(e),
    ensures
        spec_transform(d) == Err::<EmittedV, GenErrorV>(e),
{
}

/// Law: a definition whose one `partial(...)` annotation opens with a key
/// that is neither `derive` nor `all` is rejected whole, with one
/// unrecognized-directive error at that key.
pub proof fn lemma_unknown_key_rejects_definition(d: TypeDefV, arg: MetaV)
    requires
        d.attrs.len() == 1,
        d.attrs[0] matches MetaV::Args(p, items) && spec_is_ident(p, "partial"@) && items.len()
            >= 1 && items[0] == arg,
        !spec_is_ident(meta_path_of(arg), "derive"@),
        !spec_is_ident(meta_path_of(arg), "all"@),
    ensures
        spec_transform(d) == Err::<EmittedV, GenErrorV>(
            GenErrorV {
                span: meta_path_of(arg).span,
                kind: GenErrorKind::UnrecognizedDirective,
            },
        ),
{
    let err = GenErrorV { span: meta_path_of(arg).span, kind: GenErrorKind::UnrecognizedDirective };
    let items = d.attrs[0]->Args_1;
    lemma_unknown_key_rejected(empty_config(), arg);
    assert(spec_parse_args(empty_config(), items) == Err::<ConfigV, GenErrorV>(err));
    assert(spec_parse_attr(empty_config(), d.attrs[0]) == Err::<ConfigV, GenErrorV>(err));
    assert(spec_config(d.attrs) == Err::<ConfigV, GenErrorV>(err));
    lemma_config_error_aborts(d, err);
}

} // verus!

//! The code-generation transform.
//!
//! One invocation takes a type definition with its `partial(...)`
//! annotations and produces the partial sibling: same name prefixed with
//! `Partial`, same generics, every field's type rewritten to an optional
//! partial form, field attributes replaced by the apply-to-all templates,
//! variant attributes cleared, the `partial(...)` annotations removed from
//! the top-level attributes and the accumulated derive list appended to
//! them, the where-clause extended with one capability bound per distinct
//! field type, plus the trait linkage tying the original name to the
//! sibling. A union body or a bad annotation aborts the whole invocation
//! with a single localized error; nothing is emitted then.
use vstd::prelude::*;
use vstd::string::StringExecFns;

use crate::config::{meta_path_of, parse_config, path_is_ident, spec_config, spec_is_ident,
    ConfigV};
use crate::model::{Body, BodyV, Emitted, EmittedV, FieldDef, FieldV, Fields, FieldsV, GenError,
    GenErrorKind, GenErrorV, Generics, GenericsV, Linkage, LinkageV, Meta, MetaPath, MetaPathV,
    MetaV, Pred, PredV, Ty, TyV, TypeDef, TypeDefV, Variant, VariantV};
use crate::model::{copy_meta, copy_metas, copy_path, copy_ty, field_seq_view, lemma_metas_view, meta_view,
    metas_view, pred_seq_view, strings_view, ty_eq, variant_seq_view};

verus! {

// ----------------------------------------------------------------------------
// The specification of the transform.
// ----------------------------------------------------------------------------

/// A field's type `T` becomes `Option<PartialOf<T>>`.
pub open spec fn rewritten_ty(t: TyV) -> TyV {
    TyV::Optional(Box::new(TyV::PartialOf(Box::new(t))))
}

/// A field keeps its name, has its attributes replaced by the apply-to-all
/// templates, and its type rewritten.
pub open spec fn spec_rewrite_field(f: FieldV, all: Seq<MetaV>) -> FieldV {
    FieldV { name: f.name, attrs: all, ty: rewritten_ty(f.ty) }
}

pub open spec fn spec_rewrite_field_seq(fs: Seq<FieldV>, all: Seq<MetaV>) -> Seq<FieldV> {
    fs.map_values(|f: FieldV| spec_rewrite_field(f, all))
}

pub open spec fn spec_rewrite_fields(fl: FieldsV, all: Seq<MetaV>) -> FieldsV {
    match fl {
        FieldsV::Named(fs) => FieldsV::Named(spec_rewrite_field_seq(fs, all)),
        FieldsV::Unnamed(fs) => FieldsV::Unnamed(spec_rewrite_field_seq(fs, all)),
        FieldsV::Unit => FieldsV::Unit,
    }
}

/// A variant keeps its name, loses all its own attributes, and has its
/// field list processed.
pub open spec fn spec_rewrite_variants(vs: Seq<VariantV>, all: Seq<MetaV>) -> Seq<VariantV> {
    vs.map_values(
        |v: VariantV| VariantV {
            name: v.name,
            attrs: Seq::empty(),
            fields: spec_rewrite_fields(v.fields, all),
        },
    )
}

pub open spec fn spec_rewrite_body(b: BodyV, all: Seq<MetaV>) -> BodyV {
    match b {
        BodyV::StructBody(fl) => BodyV::StructBody(spec_rewrite_fields(fl, all)),
        BodyV::EnumBody(vs) => BodyV::EnumBody(spec_rewrite_variants(vs, all)),
        BodyV::UnionBody(sp) => BodyV::UnionBody(sp),
    }
}

/// The declared types of a field list, in order.
pub open spec fn fields_tys(fl: FieldsV) -> Seq<TyV> {
    match fl {
        FieldsV::Named(fs) => fs.map_values(|f: FieldV| f.ty),
        FieldsV::Unnamed(fs) => fs.map_values(|f: FieldV| f.ty),
        FieldsV::Unit => Seq::empty(),
    }
}

/// The declared field types of a variant list, concatenated in order.
pub open spec fn variants_tys(vs: Seq<VariantV>) -> Seq<TyV>
    decreases vs.len(),
{
    if vs.len() == 0 {
        Seq::empty()
    } else {
        fields_tys(vs[0].fields) + variants_tys(vs.drop_first())
    }
}

/// Every declared field type of a body, in order of occurrence.
pub open spec fn body_tys(b: BodyV) -> Seq<TyV> {
    match b {
        BodyV::StructBody(fl) => fields_tys(fl),
        BodyV::EnumBody(vs) => variants_tys(vs),
        BodyV::UnionBody(_) => Seq::empty(),
    }
}

/// Adds a type to the bound set unless an equal one is already present.
pub open spec fn insert_unique(s: Seq<TyV>, t: TyV) -> Seq<TyV> {
    if s.contains(t) {
        s
    } else {
        s.push(t)
    }
}

/// Folds a whole type list into the bound set, left to right.
pub open spec fn insert_all(s: Seq<TyV>, ts: Seq<TyV>) -> Seq<TyV>
    decreases ts.len(),
{
    if ts.len() == 0 {
        s
    } else {
        insert_all(insert_unique(s, ts[0]), ts.drop_first())
    }
}

/// The distinct members of a type list, in first-seen order.
pub open spec fn dedup(s: Seq<TyV>) -> Seq<TyV>
    decreases s.len(),
{
    if s.len() == 0 {
        Seq::empty()
    } else {
        let d = dedup(s.drop_last());
        if d.contains(s.last()) {
            d
        } else {
            d.push(s.last())
        }
    }
}

/// The sibling's own derive attribute, built from the accumulated paths.
pub open spec fn derive_attr(paths: Seq<MetaPathV>) -> MetaV {
    MetaV::Args(
        MetaPathV { segs: seq!["derive"@], span: 0 },
        paths.map_values(|q: MetaPathV| MetaV::Bare(q)),
    )
}

/// The attributes a definition keeps: everything but its `partial(...)`
/// configuration annotations.
pub open spec fn kept_attrs(attrs: Seq<MetaV>) -> Seq<MetaV>
    decreases attrs.len(),
{
    if attrs.len() == 0 {
        Seq::empty()
    } else {
        let rest = kept_attrs(attrs.drop_last());
        if spec_is_ident(meta_path_of(attrs.last()), "partial"@) {
            rest
        } else {
            rest.push(attrs.last())
        }
    }
}

/// The sibling's attribute list: the original's attributes with every
/// `partial(...)` annotation removed, followed by one derive attribute when
/// any derive directive was given.
pub open spec fn sibling_attrs(attrs: Seq<MetaV>, cfg: ConfigV) -> Seq<MetaV> {
    if cfg.derives.len() == 0 {
        kept_attrs(attrs)
    } else {
        kept_attrs(attrs).push(derive_attr(cfg.derives))
    }
}

/// One capability bound per bound-set member.
pub open spec fn bound_preds(tys: Seq<TyV>) -> Seq<PredV> {
    tys.map_values(|t: TyV| PredV::Bound(t))
}

/// What one invocation of the transform produces.
///
/// On success the sibling definition and the linkage share the generics: the
/// original parameters with the where-clause extended by one bound per
/// distinct declared field type. The original definition is consumed, not
/// re-emitted; only the linkage still mentions its name.
pub open spec fn spec_transform(d: TypeDefV) -> Result<EmittedV, GenErrorV> {
    match spec_config(d.attrs) {
        Err(e) => Err(e),
        Ok(cfg) => match d.body {
            BodyV::UnionBody(sp) => Err(
                GenErrorV { span: sp, kind: GenErrorKind::UnionUnsupported },
            ),
            _ => {
                let gens = GenericsV {
                    params: d.generics.params,
                    preds: d.generics.preds + bound_preds(dedup(body_tys(d.body))),
                };
                let pname = "Partial"@ + d.name;
                Ok(
                    EmittedV {
                        def: TypeDefV {
                            attrs: sibling_attrs(d.attrs, cfg),
                            name: pname,
                            generics: gens,
                            body: spec_rewrite_body(d.body, cfg.all),
                        },
                        linkage: LinkageV {
                            orig_name: d.name,
                            partial_name: pname,
                            generics: gens,
                        },
                    },
                )
            },
        },
    }
}

// ----------------------------------------------------------------------------
// Bound-set lemmas.
// ----------------------------------------------------------------------------

/// Folding one more type into a deduplicated set is deduplication of the
/// extended list.
pub proof fn lemma_dedup_push(s: Seq<TyV>, t: TyV)
    ensures
        dedup(s.push(t)) == insert_unique(dedup(s), t),
{
    assert(s.push(t).drop_last() =~= s);
    assert(s.push(t).last() == t);
}

/// Folding a list into a deduplicated set deduplicates the concatenation.
pub proof fn lemma_insert_all_dedup(prefix: Seq<TyV>, ts: Seq<TyV>)
    ensures
        insert_all(dedup(prefix), ts) == dedup(prefix + ts),
    decreases ts.len(),
{
    if ts.len() == 0 {
        assert(prefix + ts =~= prefix);
    } else {
        lemma_dedup_push(prefix, ts[0]);
        lemma_insert_all_dedup(prefix.push(ts[0]), ts.drop_first());
        assert(prefix.push(ts[0]) + ts.drop_first() =~= prefix + ts);
    }
}

/// Folding a concatenation is folding both halves in turn.
pub proof fn lemma_insert_all_concat(s: Seq<TyV>, a: Seq<TyV>, b: Seq<TyV>)
    ensures
        insert_all(s, a + b) == insert_all(insert_all(s, a), b),
    decreases a.len(),
{
    if a.len() == 0 {
        assert(a + b =~= b);
    } else {
        assert((a + b)[0] == a[0]);
        assert((a + b).drop_first() =~= a.drop_first() + b);
        lemma_insert_all_concat(insert_unique(s, a[0]), a.drop_first(), b);
    }
}

// ----------------------------------------------------------------------------
// The executable transform.
// ----------------------------------------------------------------------------

pub open spec fn tys_view(v: Seq<Ty>) -> Seq<TyV> {
    v.map_values(|t: Ty| t@)
}

/// Records a declared type into the bound set, deduplicating by structural
/// equality.
#[verifier::loop_isolation(false)]
fn insert_ty(tys: &mut Vec<Ty>, t: Ty)
    ensures
        tys_view(final(tys)@) == insert_unique(tys_view(old(tys)@), t@),
{
    let mut i: usize = 0;
    while i < tys.len()
        invariant
            i <= tys.len(),
            *tys == *old(tys),
            forall|j: int| 0 <= j < i as int ==> tys_view(tys@)[j] != t@,
        decreases tys.len() - i,
    {
        if ty_eq(&tys[i], &t) {
            proof {
                assert(tys_view(tys@)[i as int] == t@);
                assert(tys_view(tys@).contains(t@));
            }
            return ;
        }
        i = i + 1;
    }
    proof {
        assert(forall|j: int| 0 <= j < tys@.len() ==> tys_view(tys@)[j] != t@);
        assert(!tys_view(tys@).contains(t@));
    }
    let ghost before = tys@;
    tys.push(t);
    proof {
        assert(tys_view(tys@) =~= tys_view(before).push(t@));
    }
}

/// Processes one field: clears its attributes, stamps every apply-to-all
/// template, rewrites its type, and records the declared type.
fn rewrite_field(f: &FieldDef, tys: &mut Vec<Ty>, all: &Vec<Meta>) -> (r: FieldDef)
    ensures
        r@ == spec_rewrite_field(f@, metas_view(all@)),
        tys_view(final(tys)@) == insert_unique(tys_view(old(tys)@), f@.ty),
{
    let name = match &f.name {
        Some(s) => Some(s.clone()),
        None => None,
    };
    let kept = copy_ty(&f.ty);
    let recorded = copy_ty(&f.ty);
    insert_ty(tys, recorded);
    let ghost k = kept@;
    let inner = Ty::PartialOf(Box::new(kept));
    proof {
        assert(inner@ == TyV::PartialOf(Box::new(k)));
    }
    let new_ty = Ty::Optional(Box::new(inner));
    proof {
        assert(new_ty@ == rewritten_ty(k));
    }
    FieldDef { name, attrs: copy_metas(all), ty: new_ty }
}

/// Processes a field list in order.
#[verifier::loop_isolation(false)]
fn rewrite_field_vec(fs: &Vec<FieldDef>, tys: &mut Vec<Ty>, all: &Vec<Meta>) -> (r: Vec<FieldDef>)
    ensures
        field_seq_view(r@) == spec_rewrite_field_seq(field_seq_view(fs@), metas_view(all@)),
        tys_view(final(tys)@) == insert_all(
            tys_view(old(tys)@),
            fields_tys(FieldsV::Named(field_seq_view(fs@))),
        ),
{
    let ghost tgt = fields_tys(FieldsV::Named(field_seq_view(fs@)));
    let ghost tys0 = tys_view(tys@);
    let mut out: Vec<FieldDef> = Vec::new();
    let mut i: usize = 0;
    proof {
        assert(tgt.skip(0) =~= tgt);
    }
    while i < fs.len()
        invariant
            i <= fs.len(),
            out@.len() == i as int,
            forall|j: int|
                0 <= j < i as int ==> out@[j]@ == spec_rewrite_field(
                    field_seq_view(fs@)[j],
                    metas_view(all@),
                ),
            insert_all(tys0, tgt) == insert_all(tys_view(tys@), tgt.skip(i as int)),
        decreases fs.len() - i,
    {
        let ghost rest = tgt.skip(i as int);
        let ghost cur = tys_view(tys@);
        proof {
            assert(rest[0] == fs@[i as int]@.ty);
        }
        let nf = rewrite_field(&fs[i], tys, all);
        out.push(nf);
        i = i + 1;
        proof {
            assert(rest.drop_first() =~= tgt.skip(i as int));
            assert(insert_all(cur, rest) == insert_all(tys_view(tys@), tgt.skip(i as int)));
        }
    }
    proof {
        assert(tgt.skip(fs@.len() as int).len() == 0);
        assert(field_seq_view(out@) =~= spec_rewrite_field_seq(
            field_seq_view(fs@),
            metas_view(all@),
        ));
    }
    out
}

/// Processes a field list, keeping its named/unnamed/unit shape.
fn rewrite_fields(fl: &Fields, tys: &mut Vec<Ty>, all: &Vec<Meta>) -> (r: Fields)
    ensures
        r@ == spec_rewrite_fields(fl@, metas_view(all@)),
        tys_view(final(tys)@) == insert_all(tys_view(old(tys)@), fields_tys(fl@)),
{
    match fl {
        Fields::Named(fs) => Fields::Named(rewrite_field_vec(fs, tys, all)),
        Fields::Unnamed(fs) => Fields::Unnamed(rewrite_field_vec(fs, tys, all)),
        Fields::Unit => {
            proof {
                assert(insert_all(tys_view(tys@), Seq::<TyV>::empty()) == tys_view(tys@));
            }
            Fields::Unit
        },
    }
}

/// Processes every variant of an enum body: clears the variant's own
/// attributes and processes its fields.
#[verifier::loop_isolation(false)]
fn rewrite_variant_vec(vs: &Vec<Variant>, tys: &mut Vec<Ty>, all: &Vec<Meta>) -> (r: Vec<Variant>)
    ensures
        variant_seq_view(r@) == spec_rewrite_variants(variant_seq_view(vs@), metas_view(all@)),
        tys_view(final(tys)@) == insert_all(
            tys_view(old(tys)@),
            variants_tys(variant_seq_view(vs@)),
        ),
{
    let ghost vs_v = variant_seq_view(vs@);
    let ghost tys0 = tys_view(tys@);
    let mut out: Vec<Variant> = Vec::new();
    let mut i: usize = 0;
    proof {
        assert(vs_v.skip(0) =~= vs_v);
    }
    while i < vs.len()
        invariant
            i <= vs.len(),
            out@.len() == i as int,
            forall|j: int|
                0 <= j < i as int ==> out@[j]@ == spec_rewrite_variants(vs_v, metas_view(all@))[j],
            insert_all(tys0, variants_tys(vs_v)) == insert_all(
                tys_view(tys@),
                variants_tys(vs_v.skip(i as int)),
            ),
        decreases vs.len() - i,
    {
        let ghost rest = vs_v.skip(i as int);
        let ghost cur = tys_view(tys@);
        proof {
            assert(rest[0] == vs@[i as int]@);
            assert(rest.drop_first() =~= vs_v.skip(i as int + 1));
            lemma_insert_all_concat(cur, fields_tys(rest[0].fields), variants_tys(rest.drop_first()));
        }
        let v = &vs[i];
        let nfields = rewrite_fields(&v.fields, tys, all);
        out.push(Variant { name: v.name.clone(), attrs: Vec::new(), fields: nfields });
        i = i + 1;
        proof {
            lemma_metas_view(Seq::<Meta>::empty());
            assert(out@[i as int - 1]@.attrs =~= Seq::<MetaV>::empty());
            assert(out@[i as int - 1]@ == spec_rewrite_variants(vs_v, metas_view(all@))[i as int
                - 1]);
        }
    }
    proof {
        assert(variants_tys(vs_v.skip(vs@.len() as int)).len() == 0);
        assert(insert_all(tys_view(tys@), Seq::<TyV>::empty()) == tys_view(tys@));
        assert(variant_seq_view(out@) =~= spec_rewrite_variants(vs_v, metas_view(all@)));
    }
    out
}

/// Deep copy of a where-clause predicate.
fn copy_pred(p: &Pred) -> (r: Pred)
    ensures
        r@ == p@,
{
    match p {
        Pred::Verbatim(s) => Pred::Verbatim(s.clone()),
        Pred::Bound(t) => Pred::Bound(copy_ty(t)),
    }
}

/// Deep copy of a generics clause, for the linkage implementation.
#[verifier::loop_isolation(false)]
fn copy_generics(g: &Generics) -> (r: Generics)
    ensures
        r@ == g@,
{
    let params = crate::model::copy_strings(&g.params);
    let mut preds: Vec<Pred> = Vec::new();
    let mut i: usize = 0;
    while i < g.preds.len()
        invariant
            i <= g.preds.len(),
            preds@.len() == i as int,
            forall|j: int| 0 <= j < i as int ==> preds@[j]@ == g.preds@[j]@,
        decreases g.preds.len() - i,
    {
        let c = copy_pred(&g.preds[i]);
        preds.push(c);
        i = i + 1;
    }
    proof {
        assert(pred_seq_view(preds@) =~= pred_seq_view(g.preds@));
    }
    Generics { params, preds }
}

/// Runs the transform on one annotated definition.
///
/// On success, the sibling definition carries the `Partial`-prefixed name,
/// the original generic parameters, the original where-clause extended by one
/// `HasPartial` bound per distinct declared field type, the original
/// top-level attributes with every `partial(...)` annotation removed and the
/// accumulated derive list appended as one attribute, the apply-to-all
/// templates on every field, and every field type rewritten to `Option` of
/// the partial counterpart; the linkage maps the original name to the
/// sibling under the same generics. On failure, exactly one localized error comes back and
/// nothing is emitted: a union body, an unrecognized `partial(...)` key, or a
/// malformed directive payload.
#[verifier::loop_isolation(false)]
pub fn transform(input: TypeDef) -> (r: Result<Emitted, GenError>)
    ensures
        match r {
            Ok(e) => spec_transform(input@) == Ok::<EmittedV, GenErrorV>(e@),
            Err(e) => spec_transform(input@) == Err::<EmittedV, GenErrorV>(e@),
        },
{
    let TypeDef { attrs, name, generics, body } = input;
    let cfg = match parse_config(&attrs) {
        Ok(c) => c,
        Err(e) => {
            return Err(e);
        },
    };
    let mut tys: Vec<Ty> = Vec::new();
    let new_body = match &body {
        Body::StructBody(fl) => Body::StructBody(rewrite_fields(fl, &mut tys, &cfg.all)),
        Body::EnumBody(vs) => Body::EnumBody(rewrite_variant_vec(vs, &mut tys, &cfg.all)),
        Body::UnionBody(sp) => {
            return Err(GenError { span: *sp, kind: GenErrorKind::UnionUnsupported });
        },
    };
    proof {
        lemma_insert_all_dedup(Seq::empty(), body_tys(input@.body));
        assert(Seq::<TyV>::empty() + body_tys(input@.body) =~= body_tys(input@.body));
        assert(tys_view(Seq::<Ty>::empty()) =~= Seq::<TyV>::empty());
        assert(tys_view(tys@) == dedup(body_tys(input@.body)));
    }
    // The sibling keeps every attribute that is not a partial(...)
    // annotation, then gains the one accumulated derive attribute, if any.
    let ghost attrs_v = metas_view(attrs@);
    proof {
        lemma_metas_view(attrs@);
    }
    let mut new_attrs: Vec<Meta> = Vec::new();
    let mut i: usize = 0;
    proof {
        assert(attrs_v.take(0) =~= Seq::<MetaV>::empty());
    }
    while i < attrs.len()
        invariant
            i <= attrs.len(),
            metas_view(new_attrs@) == kept_attrs(attrs_v.take(i as int)),
        decreases attrs.len() - i,
    {
        let ghost before = metas_view(new_attrs@);
        proof {
            assert(attrs_v.take(i as int + 1).drop_last() =~= attrs_v.take(i as int));
            assert(attrs_v.take(i as int + 1).last() == attrs_v[i as int]);
        }
        let p = match &attrs[i] {
            Meta::Bare(p) => p,
            Meta::Args(p, _) => p,
            Meta::Assigned(p, _) => p,
        };
        proof {
            assert(p@ == meta_path_of(attrs_v[i as int]));
        }
        if !path_is_ident(p, "partial") {
            let c = copy_meta(&attrs[i]);
            let ghost nb = new_attrs@;
            new_attrs.push(c);
            proof {
                lemma_metas_view(nb);
                lemma_metas_view(new_attrs@);
                assert(metas_view(new_attrs@) =~= before.push(attrs_v[i as int]));
            }
        }
        i = i + 1;
    }
    proof {
        assert(attrs_v.take(attrs@.len() as int) =~= attrs_v);
        assert(metas_view(new_attrs@) == kept_attrs(attrs_v));
    }
    if cfg.derives.len() > 0 {
        let mut items: Vec<Meta> = Vec::new();
        let mut i: usize = 0;
        while i < cfg.derives.len()
            invariant
                i <= cfg.derives.len(),
                items@.len() == i as int,
                forall|j: int|
                    0 <= j < i as int ==> meta_view(items@[j]) == MetaV::Bare(cfg@.derives[j]),
            decreases cfg.derives.len() - i,
        {
            let q = copy_path(&cfg.derives[i]);
            items.push(Meta::Bare(q));
            i = i + 1;
        }
        let mut segs: Vec<String> = Vec::new();
        segs.push("derive".to_owned());
        let head = MetaPath { segs, span: 0 };
        proof {
            assert(head@.segs =~= seq!["derive"@]);
            lemma_metas_view(items@);
            assert(metas_view(items@) =~= cfg@.derives.map_values(
                |q: MetaPathV| MetaV::Bare(q),
            ));
        }
        let ghost nb = new_attrs@;
        new_attrs.push(Meta::Args(head, items));
        proof {
            lemma_metas_view(nb);
            lemma_metas_view(new_attrs@);
            assert(metas_view(new_attrs@) =~= kept_attrs(attrs_v).push(
                derive_attr(cfg@.derives),
            ));
            assert(metas_view(new_attrs@) == sibling_attrs(attrs_v, cfg@));
        }
    } else {
        proof {
            assert(metas_view(new_attrs@) == sibling_attrs(attrs_v, cfg@));
        }
    }
    // Extend the where-clause with one capability bound per distinct type.
    let mut generics = generics;
    let ghost preds0 = pred_seq_view(generics.preds@);
    let ghost params0 = strings_view(generics.params@);
    let mut i: usize = 0;
    while i < tys.len()
        invariant
            i <= tys.len(),
            strings_view(generics.params@) == params0,
            pred_seq_view(generics.preds@).len() == preds0.len() + i as int,
            forall|j: int| 0 <= j < preds0.len() ==> pred_seq_view(generics.preds@)[j] == preds0[j],
            forall|j: int|
                0 <= j < i as int ==> pred_seq_view(generics.preds@)[preds0.len() + j]
                    == PredV::Bound(tys_view(tys@)[j]),
        decreases tys.len() - i,
    {
        let t = copy_ty(&tys[i]);
        generics.preds.push(Pred::Bound(t));
        i = i + 1;
    }
    proof {
        assert(pred_seq_view(generics.preds@) =~= preds0 + bound_preds(tys_view(tys@)));
    }
    // The rename: the sibling takes the marked name; the original name
    // survives only in the linkage.
    let mut partial_name: String = "Partial".to_owned();
    partial_name.append(name.as_str());
    let linkage_generics = copy_generics(&generics);
    let def_name = partial_name.clone();
    Ok(
        Emitted {
            def: TypeDef { attrs: new_attrs, name: def_name, generics, body: new_body },
            linkage: Linkage { orig_name: name, partial_name, generics: linkage_generics },
        },
    )
}

} // verus!

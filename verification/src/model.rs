//! The data model of the transform: type definitions, attribute metas, field
//! types, and the views the contracts are stated over.
//!
//! A definition is held as plain values (names as strings, spans as offsets),
//! so the transform over it can be verified. Field types are canonical: the
//! container shapes the instance library knows get structural variants, any
//! other type is carried as its normalized text, so that two syntactically
//! identical types compare equal.
use vstd::prelude::*;

verus! {

/// One path inside an attribute (`partial`, `serde::Serialize`), as its
/// segments, with the source offset it was found at.
#[derive(Debug, PartialEq, Eq)]
pub struct MetaPath {
    pub segs: Vec<String>,
    pub span: usize,
}

/// One attribute meta item: a bare path, a path with parenthesized arguments,
/// or a `path = "literal"` pair.
#[derive(Debug, PartialEq, Eq)]
pub enum Meta {
    Bare(MetaPath),
    Args(MetaPath, Vec<Meta>),
    Assigned(MetaPath, String),
}

/// The scalar types the instance library maps to themselves.
#[derive(Clone, Copy, PartialEq, Eq, Structural, Debug)]
pub enum ScalarTy {
    BoolTy,
    CharTy,
    UnitTy,
    TextTy,
    I8Ty,
    I16Ty,
    I32Ty,
    I64Ty,
    I128Ty,
    IsizeTy,
    U8Ty,
    U16Ty,
    U32Ty,
    U64Ty,
    U128Ty,
    UsizeTy,
    Float32Ty,
    Float64Ty,
}

/// A field type. The three container shapes the instance library softens get
/// their own variants; `Named` carries any other type as canonical text;
/// `PartialOf(t)` is the projection "the partial counterpart of `t`" that the
/// rewrite introduces.
#[derive(Debug, PartialEq, Eq)]
pub enum Ty {
    Scalar(ScalarTy),
    Vector(Box<Ty>),
    Mapping(Box<Ty>, Box<Ty>),
    Optional(Box<Ty>),
    Named(String),
    PartialOf(Box<Ty>),
}

/// One field of a struct or of an enum variant.
#[derive(Debug, PartialEq, Eq)]
pub struct FieldDef {
    pub name: Option<String>,
    pub attrs: Vec<Meta>,
    pub ty: Ty,
}

/// A field list: named (braces), unnamed (parentheses), or none.
#[derive(Debug, PartialEq, Eq)]
pub enum Fields {
    Named(Vec<FieldDef>),
    Unnamed(Vec<FieldDef>),
    Unit,
}

/// One enum variant.
#[derive(Debug, PartialEq, Eq)]
pub struct Variant {
    pub name: String,
    pub attrs: Vec<Meta>,
    pub fields: Fields,
}

/// The body of a definition. A union is carried with the offset of its
/// keyword, since it is only ever reported as unsupported.
#[derive(Debug, PartialEq, Eq)]
pub enum Body {
    StructBody(Fields),
    EnumBody(Vec<Variant>),
    UnionBody(usize),
}

/// One where-clause predicate: either one of the definition's own, kept
/// verbatim as text, or a requirement that a type have a partial counterpart.
#[derive(Debug, PartialEq, Eq)]
pub enum Pred {
    Verbatim(String),
    Bound(Ty),
}

/// A generics clause: the parameter list verbatim, and the where-clause
/// predicates.
#[derive(Debug, PartialEq, Eq)]
pub struct Generics {
    pub params: Vec<String>,
    pub preds: Vec<Pred>,
}

/// A complete type definition, the input of the transform.
#[derive(Debug, PartialEq, Eq)]
pub struct TypeDef {
    pub attrs: Vec<Meta>,
    pub name: String,
    pub generics: Generics,
    pub body: Body,
}

/// The trait linkage: under the given generics, the type `orig_name` has
/// `partial_name` (applied to the same type arguments) as partial counterpart.
#[derive(Debug, PartialEq, Eq)]
pub struct Linkage {
    pub orig_name: String,
    pub partial_name: String,
    pub generics: Generics,
}

/// Everything one invocation emits: the rewritten sibling definition and the
/// linkage implementation.
#[derive(Debug, PartialEq, Eq)]
pub struct Emitted {
    pub def: TypeDef,
    pub linkage: Linkage,
}

/// Why generation failed.
#[derive(Clone, Copy, PartialEq, Eq, Structural, Debug)]
pub enum GenErrorKind {
    UnionUnsupported,
    UnrecognizedDirective,
    MalformedDirective,
}

/// A generation failure, localized to a source offset.
#[derive(Clone, Copy, PartialEq, Eq, Structural, Debug)]
pub struct GenError {
    pub span: usize,
    pub kind: GenErrorKind,
}

// ----------------------------------------------------------------------------
// Views: the mathematical values the contracts speak about.
// ----------------------------------------------------------------------------

pub struct MetaPathV {
    pub segs: Seq<Seq<char>>,
    pub span: int,
}

pub enum MetaV {
    Bare(MetaPathV),
    Args(MetaPathV, Seq<MetaV>),
    Assigned(MetaPathV, Seq<char>),
}

pub enum TyV {
    Scalar(ScalarTy),
    Vector(Box<TyV>),
    Mapping(Box<TyV>, Box<TyV>),
    Optional(Box<TyV>),
    Named(Seq<char>),
    PartialOf(Box<TyV>),
}

pub struct FieldV {
    pub name: Option<Seq<char>>,
    pub attrs: Seq<MetaV>,
    pub ty: TyV,
}

pub enum FieldsV {
    Named(Seq<FieldV>),
    Unnamed(Seq<FieldV>),
    Unit,
}

pub struct VariantV {
    pub name: Seq<char>,
    pub attrs: Seq<MetaV>,
    pub fields: FieldsV,
}

pub enum BodyV {
    StructBody(FieldsV),
    EnumBody(Seq<VariantV>),
    UnionBody(int),
}

pub enum PredV {
    Verbatim(Seq<char>),
    Bound(TyV),
}

pub struct GenericsV {
    pub params: Seq<Seq<char>>,
    pub preds: Seq<PredV>,
}

pub struct TypeDefV {
    pub attrs: Seq<MetaV>,
    pub name: Seq<char>,
    pub generics: GenericsV,
    pub body: BodyV,
}

pub struct LinkageV {
    pub orig_name: Seq<char>,
    pub partial_name: Seq<char>,
    pub generics: GenericsV,
}

pub struct EmittedV {
    pub def: TypeDefV,
    pub linkage: LinkageV,
}

pub struct GenErrorV {
    pub span: int,
    pub kind: GenErrorKind,
}

impl View for GenError {
    type V = GenErrorV;

    open spec fn view(&self) -> GenErrorV {
        GenErrorV { span: self.span as int, kind: self.kind }
    }
}

pub open spec fn strings_view(v: Seq<String>) -> Seq<Seq<char>> {
    v.map_values(|s: String| s@)
}

impl View for MetaPath {
    type V = MetaPathV;

    open spec fn view(&self) -> MetaPathV {
        MetaPathV { segs: strings_view(self.segs@), span: self.span as int }
    }
}

pub open spec fn metas_view(ms: Seq<Meta>) -> Seq<MetaV>
    decreases ms,
{
    if ms.len() == 0 {
        Seq::empty()
    } else {
        seq![meta_view(ms[0])] + metas_view(ms.drop_first())
    }
}

pub open spec fn meta_view(m: Meta) -> MetaV
    decreases m,
{
    match m {
        Meta::Bare(p) => MetaV::Bare(p@),
        Meta::Args(p, args) => MetaV::Args(p@, metas_view(args@)),
        Meta::Assigned(p, v) => MetaV::Assigned(p@, v@),
    }
}

impl View for Meta {
    type V = MetaV;

    open spec fn view(&self) -> MetaV {
        meta_view(*self)
    }
}

pub proof fn lemma_metas_view(s: Seq<Meta>)
    ensures
        metas_view(s).len() == s.len(),
        forall|i: int| 0 <= i < s.len() ==> metas_view(s)[i] == meta_view(s[i]),
    decreases s.len(),
{
    if s.len() > 0 {
        lemma_metas_view(s.drop_first());
        assert forall|i: int| 0 <= i < s.len() implies metas_view(s)[i] == meta_view(s[i]) by {
            if i > 0 {
                assert(s.drop_first()[i - 1] == s[i]);
            }
        }
    }
}

pub open spec fn ty_view(t: Ty) -> TyV
    decreases t,
{
    match t {
        Ty::Scalar(s) => TyV::Scalar(s),
        Ty::Vector(e) => TyV::Vector(Box::new(ty_view(*e))),
        Ty::Mapping(k, v) => TyV::Mapping(Box::new(ty_view(*k)), Box::new(ty_view(*v))),
        Ty::Optional(e) => TyV::Optional(Box::new(ty_view(*e))),
        Ty::Named(s) => TyV::Named(s@),
        Ty::PartialOf(e) => TyV::PartialOf(Box::new(ty_view(*e))),
    }
}

impl View for Ty {
    type V = TyV;

    open spec fn view(&self) -> TyV {
        ty_view(*self)
    }
}

pub open spec fn opt_string_view(s: Option<String>) -> Option<Seq<char>> {
    match s {
        Some(n) => Some(n@),
        None => None,
    }
}

impl View for FieldDef {
    type V = FieldV;

    open spec fn view(&self) -> FieldV {
        FieldV { name: opt_string_view(self.name), attrs: metas_view(self.attrs@), ty: self.ty@ }
    }
}

pub open spec fn field_seq_view(fs: Seq<FieldDef>) -> Seq<FieldV> {
    fs.map_values(|f: FieldDef| f@)
}

impl View for Fields {
    type V = FieldsV;

    open spec fn view(&self) -> FieldsV {
        match self {
            Fields::Named(fs) => FieldsV::Named(field_seq_view(fs@)),
            Fields::Unnamed(fs) => FieldsV::Unnamed(field_seq_view(fs@)),
            Fields::Unit => FieldsV::Unit,
        }
    }
}

impl View for Variant {
    type V = VariantV;

    open spec fn view(&self) -> VariantV {
        VariantV { name: self.name@, attrs: metas_view(self.attrs@), fields: self.fields@ }
    }
}

pub open spec fn variant_seq_view(vs: Seq<Variant>) -> Seq<VariantV> {
    vs.map_values(|v: Variant| v@)
}

impl View for Body {
    type V = BodyV;

    open spec fn view(&self) -> BodyV {
        match self {
            Body::StructBody(fs) => BodyV::StructBody(fs@),
            Body::EnumBody(vs) => BodyV::EnumBody(variant_seq_view(vs@)),
            Body::UnionBody(sp) => BodyV::UnionBody(*sp as int),
        }
    }
}

impl View for Pred {
    type V = PredV;

    open spec fn view(&self) -> PredV {
        match self {
            Pred::Verbatim(s) => PredV::Verbatim(s@),
            Pred::Bound(t) => PredV::Bound(t@),
        }
    }
}

pub open spec fn pred_seq_view(ps: Seq<Pred>) -> Seq<PredV> {
    ps.map_values(|p: Pred| p@)
}

impl View for Generics {
    type V = GenericsV;

    open spec fn view(&self) -> GenericsV {
        GenericsV { params: strings_view(self.params@), preds: pred_seq_view(self.preds@) }
    }
}

impl View for TypeDef {
    type V = TypeDefV;

    open spec fn view(&self) -> TypeDefV {
        TypeDefV {
            attrs: metas_view(self.attrs@),
            name: self.name@,
            generics: self.generics@,
            body: self.body@,
        }
    }
}

impl View for Linkage {
    type V = LinkageV;

    open spec fn view(&self) -> LinkageV {
        LinkageV {
            orig_name: self.orig_name@,
            partial_name: self.partial_name@,
            generics: self.generics@,
        }
    }
}

impl View for Emitted {
    type V = EmittedV;

    open spec fn view(&self) -> EmittedV {
        EmittedV { def: self.def@, linkage: self.linkage@ }
    }
}

// ----------------------------------------------------------------------------
// Verified deep copies (the derived `Clone` says nothing to the verifier).
// ----------------------------------------------------------------------------

/// Deep copy of a string list, e.g. path segments.
pub fn copy_strings(v: &Vec<String>) -> (r: Vec<String>)
    ensures
        r@ == v@,
{
    let mut out: Vec<String> = Vec::new();
    let mut i: usize = 0;
    while i < v.len()
        invariant
            i <= v.len(),
            out@.len() == i as int,
            forall|j: int| 0 <= j < i as int ==> out@[j] == v@[j],
        decreases v.len() - i,
    {
        out.push(v[i].clone());
        i = i + 1;
    }
    proof {
        assert(out@ =~= v@);
    }
    out
}

/// Deep copy of an attribute path.
pub fn copy_path(p: &MetaPath) -> (r: MetaPath)
    ensures
        r@ == p@,
{
    MetaPath { segs: copy_strings(&p.segs), span: p.span }
}

/// Deep copy of one attribute meta.
pub fn copy_meta(m: &Meta) -> (r: Meta)
    ensures
        r@ == m@,
    decreases *m,
{
    match m {
        Meta::Bare(p) => Meta::Bare(copy_path(p)),
        Meta::Args(p, args) => Meta::Args(copy_path(p), copy_metas(args)),
        Meta::Assigned(p, v) => Meta::Assigned(copy_path(p), v.clone()),
    }
}

/// Deep copy of a meta list, e.g. an apply-to-all template set.
pub fn copy_metas(ms: &Vec<Meta>) -> (r: Vec<Meta>)
    ensures
        metas_view(r@) == metas_view(ms@),
    decreases *ms,
{
    let mut out: Vec<Meta> = Vec::new();
    let mut i: usize = 0;
    while i < ms.len()
        invariant
            i <= ms.len(),
            out@.len() == i as int,
            forall|j: int| 0 <= j < i as int ==> meta_view(out@[j]) == meta_view(ms@[j]),
        decreases ms.len() - i,
    {
        let c = copy_meta(&ms[i]);
        out.push(c);
        i = i + 1;
    }
    proof {
        lemma_metas_view(out@);
        lemma_metas_view(ms@);
        assert(metas_view(out@) =~= metas_view(ms@));
    }
    out
}

/// Deep copy of a field type.
pub fn copy_ty(t: &Ty) -> (r: Ty)
    ensures
        r@ == t@,
    decreases *t,
{
    match t {
        Ty::Scalar(s) => Ty::Scalar(*s),
        Ty::Vector(e) => Ty::Vector(Box::new(copy_ty(e))),
        Ty::Mapping(k, v) => Ty::Mapping(Box::new(copy_ty(k)), Box::new(copy_ty(v))),
        Ty::Optional(e) => Ty::Optional(Box::new(copy_ty(e))),
        Ty::Named(s) => Ty::Named(s.clone()),
        Ty::PartialOf(e) => Ty::PartialOf(Box::new(copy_ty(e))),
    }
}

/// Structural equality of field types: the key the bound set deduplicates by.
pub fn ty_eq(a: &Ty, b: &Ty) -> (r: bool)
    ensures
        r == (a@ == b@),
    decreases *a,
{
    match a {
        Ty::Scalar(x) => match b {
            Ty::Scalar(y) => *x == *y,
            _ => false,
        },
        Ty::Vector(e1) => match b {
            Ty::Vector(e2) => ty_eq(e1, e2),
            _ => false,
        },
        Ty::Mapping(k1, v1) => match b {
            Ty::Mapping(k2, v2) => ty_eq(k1, k2) && ty_eq(v1, v2),
            _ => false,
        },
        Ty::Optional(e1) => match b {
            Ty::Optional(e2) => ty_eq(e1, e2),
            _ => false,
        },
        Ty::Named(s1) => match b {
            Ty::Named(s2) => *s1 == *s2,
            _ => false,
        },
        Ty::PartialOf(e1) => match b {
            Ty::PartialOf(e2) => ty_eq(e1, e2),
            _ => false,
        },
    }
}

} // verus!

//! The configuration annotation micro-language.
//!
//! A definition carries zero or more `partial(...)` attributes. Inside one,
//! each item is either `derive(Path, Path, ...)`, which accumulates trait
//! paths for the sibling's derive list, or `all(<attribute>)`, which
//! accumulates one attribute template to stamp onto every generated field.
//! Any other key is a hard error; so is a recognized key whose payload does
//! not have the required shape. Attributes are read in source order and the
//! first offense wins.
use vstd::prelude::*;

use crate::model::{GenError, GenErrorKind, GenErrorV, Meta, MetaPath, MetaPathV, MetaV};
use crate::model::{copy_meta, copy_path, lemma_metas_view, meta_view, metas_view};

verus! {

/// The two directives a definition's `partial(...)` attributes accumulate.
pub struct Config {
    pub derives: Vec<MetaPath>,
    pub all: Vec<Meta>,
}

pub struct ConfigV {
    pub derives: Seq<MetaPathV>,
    pub all: Seq<MetaV>,
}

impl View for Config {
    type V = ConfigV;

    open spec fn view(&self) -> ConfigV {
        ConfigV {
            derives: self.derives@.map_values(|p: MetaPath| p@),
            all: metas_view(self.all@),
        }
    }
}

pub open spec fn empty_config() -> ConfigV {
    ConfigV { derives: Seq::empty(), all: Seq::empty() }
}

/// Whether a path is the single bare identifier `kw`.
pub open spec fn spec_is_ident(p: MetaPathV, kw: Seq<char>) -> bool {
    p.segs.len() == 1 && p.segs[0] == kw
}

/// The path a meta item starts with.
pub open spec fn meta_path_of(m: MetaV) -> MetaPathV {
    match m {
        MetaV::Bare(p) => p,
        MetaV::Args(p, _) => p,
        MetaV::Assigned(p, _) => p,
    }
}

/// Whether every item of a derive payload is a bare path.
pub open spec fn all_bare(items: Seq<MetaV>) -> bool {
    forall|i: int| 0 <= i < items.len() ==> items[i] is Bare
}

/// The paths of a derive payload.
pub open spec fn bare_paths(items: Seq<MetaV>) -> Seq<MetaPathV> {
    items.map_values(|m: MetaV| meta_path_of(m))
}

/// Folds one item found inside `partial(...)` into the configuration.
pub open spec fn spec_parse_arg(cfg: ConfigV, arg: MetaV) -> Result<ConfigV, GenErrorV> {
    let p = meta_path_of(arg);
    if spec_is_ident(p, "derive"@) {
        if arg matches MetaV::Args(_, items) && all_bare(items) {
            Ok(ConfigV { derives: cfg.derives + bare_paths(arg->Args_1), all: cfg.all })
        } else {
            Err(GenErrorV { span: p.span, kind: GenErrorKind::MalformedDirective })
        }
    } else if spec_is_ident(p, "all"@) {
        if arg matches MetaV::Args(_, items) && items.len() == 1 {
            Ok(ConfigV { derives: cfg.derives, all: cfg.all.push(arg->Args_1[0]) })
        } else {
            Err(GenErrorV { span: p.span, kind: GenErrorKind::MalformedDirective })
        }
    } else {
        Err(GenErrorV { span: p.span, kind: GenErrorKind::UnrecognizedDirective })
    }
}

/// Folds the items of one `partial(...)` attribute, left to right.
pub open spec fn spec_parse_args(cfg: ConfigV, args: Seq<MetaV>) -> Result<ConfigV, GenErrorV>
    decreases args.len(),
{
    if args.len() == 0 {
        Ok(cfg)
    } else {
        match spec_parse_arg(cfg, args[0]) {
            Ok(c) => spec_parse_args(c, args.drop_first()),
            Err(e) => Err(e),
        }
    }
}

/// Folds one top-level attribute: anything but `partial` is passed over.
pub open spec fn spec_parse_attr(cfg: ConfigV, attr: MetaV) -> Result<ConfigV, GenErrorV> {
    let p = meta_path_of(attr);
    if !spec_is_ident(p, "partial"@) {
        Ok(cfg)
    } else {
        match attr {
            MetaV::Args(_, items) => spec_parse_args(cfg, items),
            _ => Err(GenErrorV { span: p.span, kind: GenErrorKind::MalformedDirective }),
        }
    }
}

/// Folds a whole attribute list, left to right.
pub open spec fn spec_parse_attrs(cfg: ConfigV, attrs: Seq<MetaV>) -> Result<ConfigV, GenErrorV>
    decreases attrs.len(),
{
    if attrs.len() == 0 {
        Ok(cfg)
    } else {
        match spec_parse_attr(cfg, attrs[0]) {
            Ok(c) => spec_parse_attrs(c, attrs.drop_first()),
            Err(e) => Err(e),
        }
    }
}

/// The configuration a definition's attribute list denotes.
pub open spec fn spec_config(attrs: Seq<MetaV>) -> Result<ConfigV, GenErrorV> {
    spec_parse_attrs(empty_config(), attrs)
}

/// Does the path consist of the single identifier `kw`?
pub fn path_is_ident(p: &MetaPath, kw: &str) -> (r: bool)
    ensures
        r == spec_is_ident(p@, kw@),
{
    if p.segs.len() != 1 {
        return false;
    }
    let k: String = kw.to_owned();
    p.segs[0] == k
}

/// Folds one `partial(...)` item into the configuration.
#[verifier::loop_isolation(false)]
fn parse_arg(cfg: Config, arg: &Meta) -> (r: Result<Config, GenError>)
    ensures
        match r {
            Ok(c) => spec_parse_arg(cfg@, arg@) == Ok::<ConfigV, GenErrorV>(c@),
            Err(e) => spec_parse_arg(cfg@, arg@) == Err::<ConfigV, GenErrorV>(e@),
        },
{
    let mut cfg = cfg;
    let p = match arg {
        Meta::Bare(p) => p,
        Meta::Args(p, _) => p,
        Meta::Assigned(p, _) => p,
    };
    proof {
        assert(p@ == meta_path_of(arg@));
    }
    if path_is_ident(p, "derive") {
        match arg {
            Meta::Args(_, items) => {
                let mut i: usize = 0;
                while i < items.len()
                    invariant
                        i <= items.len(),
                        forall|j: int| 0 <= j < i as int ==> metas_view(items@)[j] is Bare,
                    decreases items.len() - i,
                {
                    proof {
                        lemma_metas_view(items@);
                    }
                    match &items[i] {
                        Meta::Bare(_) => {},
                        _ => {
                            proof {
                                assert(!(metas_view(items@)[i as int] is Bare));
                                assert(!all_bare(metas_view(items@)));
                            }
                            return Err(GenError { span: p.span, kind: GenErrorKind::MalformedDirective });
                        },
                    }
                    i = i + 1;
                }
                proof {
                    lemma_metas_view(items@);
                }
                let ghost old_derives = cfg@.derives;
                let ghost old_all = cfg.all@;
                let mut i: usize = 0;
                while i < items.len()
                    invariant
                        i <= items.len(),
                        all_bare(metas_view(items@)),
                        cfg.all@ == old_all,
                        cfg@.derives.len() == old_derives.len() + i as int,
                        forall|j: int| 0 <= j < old_derives.len() ==> cfg@.derives[j] == old_derives[j],
                        forall|j: int|
                            0 <= j < i as int ==> cfg@.derives[old_derives.len() + j]
                                == meta_path_of(metas_view(items@)[j]),
                    decreases items.len() - i,
                {
                    proof {
                        lemma_metas_view(items@);
                    }
                    let q = match &items[i] {
                        Meta::Bare(q) => q,
                        Meta::Args(q, _) => q,
                        Meta::Assigned(q, _) => q,
                    };
                    cfg.derives.push(copy_path(q));
                    i = i + 1;
                }
                proof {
                    lemma_metas_view(items@);
                    assert(cfg@.derives =~= old_derives + bare_paths(metas_view(items@)));
                }
                Ok(cfg)
            },
            _ => Err(GenError { span: p.span, kind: GenErrorKind::MalformedDirective }),
        }
    } else if path_is_ident(p, "all") {
        match arg {
            Meta::Args(_, items) => {
                if items.len() == 1 {
                    let tpl = copy_meta(&items[0]);
                    let ghost before = cfg.all@;
                    cfg.all.push(tpl);
                    proof {
                        lemma_metas_view(items@);
                        lemma_metas_view(before);
                        lemma_metas_view(cfg.all@);
                        assert(metas_view(cfg.all@) =~= metas_view(before).push(
                            meta_view(items@[0]),
                        ));
                    }
                    Ok(cfg)
                } else {
                    proof {
                        lemma_metas_view(items@);
                    }
                    Err(GenError { span: p.span, kind: GenErrorKind::MalformedDirective })
                }
            },
            _ => Err(GenError { span: p.span, kind: GenErrorKind::MalformedDirective }),
        }
    } else {
        Err(GenError { span: p.span, kind: GenErrorKind::UnrecognizedDirective })
    }
}

/// Folds one top-level attribute into the configuration.
#[verifier::loop_isolation(false)]
fn parse_attr(cfg: Config, attr: &Meta) -> (r: Result<Config, GenError>)
    ensures
        match r {
            Ok(c) => spec_parse_attr(cfg@, attr@) == Ok::<ConfigV, GenErrorV>(c@),
            Err(e) => spec_parse_attr(cfg@, attr@) == Err::<ConfigV, GenErrorV>(e@),
        },
{
    let p = match attr {
        Meta::Bare(p) => p,
        Meta::Args(p, _) => p,
        Meta::Assigned(p, _) => p,
    };
    proof {
        assert(p@ == meta_path_of(attr@));
    }
    if !path_is_ident(p, "partial") {
        return Ok(cfg);
    }
    match attr {
        Meta::Args(_, items) => {
            let ghost cfg0 = cfg@;
            let ghost items_v = metas_view(items@);
            proof {
                lemma_metas_view(items@);
            }
            let mut cur = cfg;
            let mut i: usize = 0;
            proof {
                assert(items_v.skip(0) =~= items_v);
            }
            while i < items.len()
                invariant
                    i <= items.len(),
                    spec_parse_args(cfg0, items_v) == spec_parse_args(
                        cur@,
                        items_v.skip(i as int),
                    ),
                decreases items.len() - i,
            {
                let ghost before = cur@;
                let ghost rest = items_v.skip(i as int);
                match parse_arg(cur, &items[i]) {
                    Ok(c) => {
                        cur = c;
                    },
                    Err(e) => {
                        proof {
                            assert(rest[0] == meta_view(items@[i as int]));
                            assert(spec_parse_args(before, rest) == Err::<ConfigV, GenErrorV>(
                                e@,
                            ));
                        }
                        return Err(e);
                    },
                }
                i = i + 1;
                proof {
                    assert(rest[0] == meta_view(items@[i as int - 1]));
                    assert(rest.drop_first() =~= items_v.skip(i as int));
                    assert(spec_parse_args(before, rest) == spec_parse_args(
                        cur@,
                        items_v.skip(i as int),
                    ));
                }
            }
            proof {
                assert(items_v.skip(items@.len() as int).len() == 0);
            }
            Ok(cur)
        },
        _ => Err(GenError { span: p.span, kind: GenErrorKind::MalformedDirective }),
    }
}

/// Reads the configuration off a definition's attribute list.
///
/// Returns the accumulated derive paths and apply-to-all templates, or the
/// first error: an item under `partial(...)` whose key is neither `derive`
/// nor `all`, or a recognized key whose payload is malformed.
#[verifier::loop_isolation(false)]
pub fn parse_config(attrs: &Vec<Meta>) -> (r: Result<Config, GenError>)
    ensures
        match r {
            Ok(c) => spec_config(metas_view(attrs@)) == Ok::<ConfigV, GenErrorV>(c@),
            Err(e) => spec_config(metas_view(attrs@)) == Err::<ConfigV, GenErrorV>(e@),
        },
{
    let ghost attrs_v = metas_view(attrs@);
    proof {
        lemma_metas_view(attrs@);
    }
    let mut cur = Config { derives: Vec::new(), all: Vec::new() };
    proof {
        assert(cur@.derives =~= empty_config().derives);
        assert(cur@.all =~= empty_config().all);
        assert(cur@ == empty_config());
        assert(attrs_v.skip(0) =~= attrs_v);
    }
    let mut i: usize = 0;
    while i < attrs.len()
        invariant
            i <= attrs.len(),
            spec_parse_attrs(empty_config(), attrs_v) == spec_parse_attrs(
                cur@,
                attrs_v.skip(i as int),
            ),
        decreases attrs.len() - i,
    {
        let ghost before = cur@;
        let ghost rest = attrs_v.skip(i as int);
        match parse_attr(cur, &attrs[i]) {
            Ok(c) => {
                cur = c;
            },
            Err(e) => {
                proof {
                    assert(rest[0] == meta_view(attrs@[i as int]));
                    assert(spec_parse_attrs(before, rest) == Err::<ConfigV, GenErrorV>(e@));
                }
                return Err(e);
            },
        }
        i = i + 1;
        proof {
            assert(rest[0] == meta_view(attrs@[i as int - 1]));
            assert(rest.drop_first() =~= attrs_v.skip(i as int));
            assert(spec_parse_attrs(before, rest) == spec_parse_attrs(
                cur@,
                attrs_v.skip(i as int),
            ));
        }
    }
    proof {
        assert(attrs_v.skip(attrs@.len() as int).len() == 0);
    }
    Ok(cur)
}

} // verus!

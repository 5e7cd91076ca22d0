//! The driver: from one declaration and one trait (or the whole trait set)
//! to the emitted implementation text, or the error that stops it.

use vstd::prelude::*;
use crate::model::{
    spec_attr_any, spec_attr_name, DataModel, Declaration, DeriveError, FmtTrait, GenericsModel,
};
use crate::opts::{
    pairs_match, spec_multi_pairs, spec_resolve_opts, ContainerOptions, MultiContainerOptions,
    OptionsV,
};
use crate::resolve::{spec_resolve, MainField};
use crate::synth::{
    augmented_predicates, enum_body_text, enum_tys, spec_augmented, spec_classify_all,
    spec_enum_body, spec_enum_noop, spec_enum_tys, spec_struct_body, spec_struct_tys,
    spec_trait_path, struct_body_text, struct_tys, trait_path_text, Variant,
};
use crate::text::{join, spec_join, views_of};

verus! {

/// The generic-parameter introducer of the impl header, e.g. `<T: Clone>`.
pub open spec fn spec_params_intro(params: Seq<Seq<char>>) -> Seq<char> {
    if params.len() == 0 {
        Seq::empty()
    } else {
        "<"@ + spec_join(params, ", "@) + ">"@
    }
}

/// The generic arguments of the target type, e.g. `<T>`.
pub open spec fn spec_args_intro(args: Seq<Seq<char>>) -> Seq<char> {
    if args.len() == 0 {
        Seq::empty()
    } else {
        "<"@ + spec_join(args, ", "@) + ">"@
    }
}

/// The where-clause, or nothing when there is no predicate.
pub open spec fn spec_where_clause(preds: Seq<Seq<char>>) -> Seq<char> {
    if preds.len() == 0 {
        Seq::empty()
    } else {
        " where "@ + spec_join(preds, ", "@)
    }
}

/// The single required formatting function, with an inlining hint when the
/// body is a plain delegation or no-op.
pub open spec fn spec_fmt_fn(inline: bool, fname: Seq<char>, body: Seq<char>) -> Seq<char> {
    (if inline {
        "#[inline] "@
    } else {
        Seq::<char>::empty()
    }) + "fn fmt(&self, "@ + fname + ": &mut ::core::fmt::Formatter<'_>) -> ::core::fmt::Result { "@
        + body + " }"@
}

/// The whole generated implementation.
pub open spec fn spec_impl_text(
    name: Seq<char>,
    params: Seq<Seq<char>>,
    args: Seq<Seq<char>>,
    preds: Seq<Seq<char>>,
    t: FmtTrait,
    inline: bool,
    fname: Seq<char>,
    body: Seq<char>,
) -> Seq<char> {
    "#[automatically_derived] impl"@ + spec_params_intro(params) + " "@ + spec_trait_path(t)
        + " for "@ + name + spec_args_intro(args) + spec_where_clause(preds) + " { "@
        + spec_fmt_fn(inline, fname, body) + " }"@
}

/// Assembles the whole generated implementation as text.
fn impl_text(
    name: &String,
    g: &GenericsModel,
    preds: &Vec<String>,
    t: FmtTrait,
    inline: bool,
    fname: &str,
    body: &String,
) -> (r: String)
    ensures
        r@ == spec_impl_text(
            name@,
            views_of(g.params@),
            views_of(g.args@),
            views_of(preds@),
            t,
            inline,
            fname@,
            body@,
        ),
{
    let mut out = "#[automatically_derived] impl".to_owned();
    if g.params.len() > 0 {
        out.append("<");
        out.append(join(&g.params, ", ").as_str());
        out.append(">");
    }
    proof {
        assert(out@ =~= "#[automatically_derived] impl"@ + spec_params_intro(
            views_of(g.params@),
        ));
    }
    let ghost h1 = out@;
    out.append(" ");
    out.append(trait_path_text(t).as_str());
    out.append(" for ");
    out.append(name.as_str());
    let ghost h2 = out@;
    proof {
        assert(h2 =~= h1 + " "@ + spec_trait_path(t) + " for "@ + name@);
    }
    if g.args.len() > 0 {
        out.append("<");
        out.append(join(&g.args, ", ").as_str());
        out.append(">");
    }
    proof {
        assert(out@ =~= h2 + spec_args_intro(views_of(g.args@)));
    }
    let ghost h3 = out@;
    if preds.len() > 0 {
        out.append(" where ");
        out.append(join(preds, ", ").as_str());
    }
    proof {
        assert(out@ =~= h3 + spec_where_clause(views_of(preds@)));
    }
    let ghost h4 = out@;
    out.append(" { ");
    if inline {
        out.append("#[inline] ");
    }
    out.append("fn fmt(&self, ");
    out.append(fname);
    out.append(": &mut ::core::fmt::Formatter<'_>) -> ::core::fmt::Result { ");
    out.append(body.as_str());
    out.append(" }");
    out.append(" }");
    proof {
        assert(out@ =~= h4 + " { "@ + spec_fmt_fn(inline, fname@, body@) + " }"@);
        assert(out@ =~= spec_impl_text(
            name@,
            views_of(g.params@),
            views_of(g.args@),
            views_of(preds@),
            t,
            inline,
            fname@,
            body@,
        ));
    }
    out
}

/// The implementation generated for a record shape.
pub open spec fn spec_impl_struct(
    name: Seq<char>,
    g: GenericsModel,
    opts: OptionsV,
    t: FmtTrait,
    main: Option<MainField>,
) -> Seq<char> {
    spec_impl_text(
        name,
        views_of(g.params@),
        views_of(g.args@),
        spec_augmented(g, opts, spec_struct_tys(main), t),
        t,
        true,
        if main is Some {
            "f"@
        } else {
            "_"@
        },
        spec_struct_body(main, opts.delegate_to, t),
    )
}

/// The implementation generated for a tagged union.
pub open spec fn spec_impl_enum(
    name: Seq<char>,
    g: GenericsModel,
    opts: OptionsV,
    t: FmtTrait,
    vs: Seq<Variant>,
) -> Seq<char> {
    spec_impl_text(
        name,
        views_of(g.params@),
        views_of(g.args@),
        spec_augmented(g, opts, spec_enum_tys(vs), t),
        t,
        vs.len() == 0,
        if spec_enum_noop(vs) {
            "_"@
        } else {
            "f"@
        },
        spec_enum_body(vs, opts.delegate_to, t),
    )
}

/// Synthesis for one declaration, one trait and one already-merged set of
/// options: the only failures left are structural ones.
pub open spec fn spec_derive_data(decl: Declaration, t: FmtTrait, opts: OptionsV) -> Result<
    Seq<char>,
    DeriveError,
> {
    match decl.data {
        DataModel::Struct(fields) => match spec_resolve(fields, spec_attr_name(t)) {
            Err(e) => Err(e),
            Ok(mf) => Ok(spec_impl_struct(decl.name@, decl.generics, opts, t, mf)),
        },
        DataModel::Enum(vds) => match spec_classify_all(vds@, spec_attr_name(t)) {
            Err(e) => Err(e),
            Ok(vs) => Ok(spec_impl_enum(decl.name@, decl.generics, opts, t, vs)),
        },
        DataModel::Union => Err(DeriveError::UnsupportedUnion),
    }
}

/// The whole single-trait derivation: container options resolved first, then
/// the shape, then synthesis.
pub open spec fn spec_derive_one(decl: Declaration, t: FmtTrait) -> Result<
    Seq<char>,
    DeriveError,
> {
    match spec_resolve_opts(decl.attrs@, spec_attr_name(t)) {
        Err(e) => Err(e),
        Ok(o) => spec_derive_data(decl, t, o),
    }
}

/// Whether an executable text result agrees with a specification-level one.
pub open spec fn text_result_matches(
    r: Result<String, DeriveError>,
    s: Result<Seq<char>, DeriveError>,
) -> bool {
    match r {
        Ok(txt) => s is Ok && txt@ == s->Ok_0,
        Err(e) => s is Err && e == s->Err_0,
    }
}

/// Synthesises the implementation for one declaration, one trait and one
/// already-merged set of options, as `spec_derive_data` describes it.
pub fn derive_data(decl: &Declaration, t: FmtTrait, opts: &ContainerOptions) -> (r: Result<
    String,
    DeriveError,
>)
    ensures
        text_result_matches(r, spec_derive_data(*decl, t, opts@)),
{
    let attr = t.attr_name();
    match &decl.data {
        DataModel::Struct(fields) => {
            match MainField::resolve_from_fields(fields, &attr) {
                Err(e) => Err(e),
                Ok(mf) => {
                    let tys = struct_tys(&mf);
                    let preds = augmented_predicates(&decl.generics, opts, &tys, t);
                    let body = struct_body_text(&mf, &opts.delegate_to, t);
                    let fname: &str = if mf.is_some() {
                        "f"
                    } else {
                        "_"
                    };
                    Ok(impl_text(&decl.name, &decl.generics, &preds, t, true, fname, &body))
                },
            }
        },
        DataModel::Enum(vds) => {
            match Variant::classify_all(vds, &attr) {
                Err(e) => Err(e),
                Ok(vs) => {
                    let tys = enum_tys(&vs);
                    let preds = augmented_predicates(&decl.generics, opts, &tys, t);
                    let body = enum_body_text(&vs, &opts.delegate_to, t);
                    let noop = crate::synth::all_fieldless(&vs);
                    let fname: &str = if noop {
                        "_"
                    } else {
                        "f"
                    };
                    Ok(impl_text(&decl.name, &decl.generics, &preds, t, vs.len() == 0, fname, &body))
                },
            }
        },
        DataModel::Union => Err(DeriveError::UnsupportedUnion),
    }
}

/// Derives one trait for one declaration, as `spec_derive_one` describes it.
pub fn derive_one(decl: &Declaration, t: FmtTrait) -> (r: Result<String, DeriveError>)
    ensures
        text_result_matches(r, spec_derive_one(*decl, t)),
{
    let attr = t.attr_name();
    match ContainerOptions::resolve(&decl.attrs, &attr) {
        Err(e) => Err(e),
        Ok(opts) => derive_data(decl, t, &opts),
    }
}

/// The texts of the first `k` resolved multi-trait derivations.
pub open spec fn spec_texts_upto(
    decl: Declaration,
    pairs: Seq<(FmtTrait, OptionsV)>,
    k: int,
) -> Result<Seq<Seq<char>>, DeriveError>
    decreases k,
{
    if k <= 0 {
        Ok(Seq::empty())
    } else {
        match spec_texts_upto(decl, pairs, k - 1) {
            Err(e) => Err(e),
            Ok(s) => match spec_derive_data(decl, pairs[k - 1].0, pairs[k - 1].1) {
                Err(e) => Err(e),
                Ok(txt) => Ok(s.push(txt)),
            },
        }
    }
}

/// The whole multi-trait derivation: every supplied per-trait block resolved
/// and synthesised in the fixed trait order, the texts joined by one space;
/// supplying no per-trait block at all is an error.
pub open spec fn spec_derive_compound(decl: Declaration, m: MultiContainerOptions) -> Result<
    Seq<char>,
    DeriveError,
> {
    match spec_multi_pairs(m) {
        Err(e) => Err(e),
        Ok(pairs) => if pairs.len() == 0 {
            Err(DeriveError::MissingConfiguration)
        } else {
            match spec_texts_upto(decl, pairs, pairs.len() as int) {
                Err(e) => Err(e),
                Ok(ts) => Ok(spec_join(ts, " "@)),
            }
        },
    }
}

proof fn lemma_texts_err_persists(
    decl: Declaration,
    pairs: Seq<(FmtTrait, OptionsV)>,
    k: int,
    n: int,
    e: DeriveError,
)
    requires
        0 < k <= n,
        spec_texts_upto(decl, pairs, k) == Err::<Seq<Seq<char>>, DeriveError>(e),
    ensures
        spec_texts_upto(decl, pairs, n) == Err::<Seq<Seq<char>>, DeriveError>(e),
    decreases n - k,
{
    if n > k {
        lemma_texts_err_persists(decl, pairs, k, n - 1, e);
    }
}

/// Derives every configured trait at once, as `spec_derive_compound`
/// describes it.
pub fn derive_compound(decl: &Declaration, m: &MultiContainerOptions) -> (r: Result<
    String,
    DeriveError,
>)
    ensures
        text_result_matches(r, spec_derive_compound(*decl, *m)),
{
    let pairs = match m.into_iter() {
        Ok(p) => p,
        Err(e) => {
            return Err(e);
        },
    };
    if pairs.len() == 0 {
        return Err(DeriveError::MissingConfiguration);
    }
    let ghost sp = spec_multi_pairs(*m)->Ok_0;
    let mut texts: Vec<String> = Vec::new();
    let mut k: usize = 0;
    while k < pairs.len()
        invariant
            k <= pairs@.len(),
            spec_multi_pairs(*m) is Ok,
            sp == spec_multi_pairs(*m)->Ok_0,
            sp.len() > 0,
            pairs@.len() == sp.len(),
            pairs_match(pairs@, sp),
            texts@.len() == k as int,
            spec_texts_upto(*decl, sp, k as int) is Ok,
            views_of(texts@) == spec_texts_upto(*decl, sp, k as int)->Ok_0,
        decreases pairs.len() - k,
    {
        let (t, opts) = &pairs[k];
        match derive_data(decl, *t, opts) {
            Ok(txt) => {
                let ghost before = texts@;
                texts.push(txt);
                proof {
                    crate::text::lemma_views_push(before, texts@.last());
                    assert(spec_texts_upto(*decl, sp, k + 1) is Ok);
                    assert(views_of(texts@) =~= spec_texts_upto(*decl, sp, k + 1)->Ok_0);
                }
            },
            Err(e) => {
                proof {
                    assert(pairs@[k as int].0 == sp[k as int].0 && pairs@[k as int].1@
                        == sp[k as int].1);
                    let sd = spec_derive_data(*decl, sp[k as int].0, sp[k as int].1);
                    assert(sd is Err && sd->Err_0 == e);
                    assert(sd == Err::<Seq<char>, DeriveError>(e));
                    assert(spec_texts_upto(*decl, sp, k + 1) == Err::<
                        Seq<Seq<char>>,
                        DeriveError,
                    >(e));
                    lemma_texts_err_persists(*decl, sp, k + 1, sp.len() as int, e);
                }
                return Err(e);
            },
        }
        k = k + 1;
    }
    Ok(join(&texts, " "))
}

/// The diagnostic text of each failure, for the derivation whose specific
/// marker attribute is `attr`.
pub open spec fn spec_error_message(e: DeriveError, attr: Seq<char>) -> Seq<char> {
    match e {
        DeriveError::UnsupportedUnion => "Unions not supported"@,
        DeriveError::MultipleMarked { catch_all, .. } => "Multiple fields marked with #["@ + (
        if catch_all {
            spec_attr_any()
        } else {
            attr
        }) + "]"@,
        DeriveError::NoMarkedField => "At least one field must be marked with #["@ + attr
            + "] or #[dany] on types with more than one field"@,
        DeriveError::DuplicateAttr { catch_all, .. } => "Cannot specify `"@ + (if catch_all {
            spec_attr_any()
        } else {
            attr
        }) + "` more than once"@,
        DeriveError::BoundsConflict => "Cannot specify `bounds` and `base_bounds` together"@,
        DeriveError::MissingConfiguration => "Missing #[dfmt] attribute."@,
    }
}

/// Renders the diagnostic text of a failure, as `spec_error_message`
/// describes it.
pub fn error_message(e: &DeriveError, attr_name: &String) -> (r: String)
    ensures
        r@ == spec_error_message(*e, attr_name@),
{
    match e {
        DeriveError::UnsupportedUnion => "Unions not supported".to_owned(),
        DeriveError::MultipleMarked { catch_all, .. } => {
            let mut out = "Multiple fields marked with #[".to_owned();
            if *catch_all {
                out.append(crate::model::attr_any().as_str());
            } else {
                out.append(attr_name.as_str());
            }
            out.append("]");
            out
        },
        DeriveError::NoMarkedField => {
            let mut out = "At least one field must be marked with #[".to_owned();
            out.append(attr_name.as_str());
            out.append("] or #[dany] on types with more than one field");
            out
        },
        DeriveError::DuplicateAttr { catch_all, .. } => {
            let mut out = "Cannot specify `".to_owned();
            if *catch_all {
                out.append(crate::model::attr_any().as_str());
            } else {
                out.append(attr_name.as_str());
            }
            out.append("` more than once");
            out
        },
        DeriveError::BoundsConflict => "Cannot specify `bounds` and `base_bounds` together".to_owned(),
        DeriveError::MissingConfiguration => "Missing #[dfmt] attribute.".to_owned(),
    }
}

} // verus!

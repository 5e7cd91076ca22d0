//! Code synthesis: from the resolved shape to the text of the generated
//! formatting-trait implementation.

use vstd::prelude::*;
use crate::model::{
    DeriveError, FieldStyle, FmtTrait, GenericsModel, VariantDef, spec_trait_name,
};
use crate::opts::{opt_view, ContainerOptions, OptionsV};
use crate::resolve::{spec_resolve, MainField};
use crate::text::{
    append_clones, contains_str, dec_rep, dec_string, join, lemma_has_string_is_contains,
    lemma_views_concat, lemma_views_push, spec_join, views_of,
};

verus! {

/// The full path of the formatting trait in generated code.
pub open spec fn spec_trait_path(t: FmtTrait) -> Seq<char> {
    "::core::fmt::"@ + spec_trait_name(t)
}

/// The full path of the formatting trait, e.g. `::core::fmt::Display`.
pub fn trait_path_text(t: FmtTrait) -> (r: String)
    ensures
        r@ == spec_trait_path(t),
{
    let mut out = "::core::fmt::".to_owned();
    out.append(t.trait_name().as_str());
    out
}

/// What stands after `self.` when the struct's main field is read: the
/// field's name, or its decimal position for a positional field.
pub open spec fn spec_access(mf: MainField) -> Seq<char> {
    match mf.name {
        Some(n) => n@,
        None => dec_rep(mf.idx as nat),
    }
}

/// The type the delegation goes through: the override when one is set, the
/// field's own type otherwise.
pub open spec fn spec_target_ty(mf: MainField, dt: Option<Seq<char>>) -> Seq<char> {
    match dt {
        Some(t) => t,
        None => mf.ty@,
    }
}

/// The qualified call prefix `<TY as ::core::fmt::T>::fmt`.
pub open spec fn spec_del_prefix(mf: MainField, dt: Option<Seq<char>>, t: FmtTrait) -> Seq<char> {
    "<"@ + spec_target_ty(mf, dt) + " as "@ + spec_trait_path(t) + ">::fmt"@
}

/// The body of a record implementation: an unconditional success when there
/// is no field to delegate to, otherwise a single qualified call on a
/// reference to the main field.
pub open spec fn spec_struct_body(
    main: Option<MainField>,
    dt: Option<Seq<char>>,
    t: FmtTrait,
) -> Seq<char> {
    match main {
        None => "::core::result::Result::Ok(())"@,
        Some(mf) => spec_del_prefix(mf, dt, t) + "(&self."@ + spec_access(mf) + ", f)"@,
    }
}

impl MainField {
    /// The access text of the struct's main field, e.g. `foo` or `0`.
    pub fn ident_for_struct(&self) -> (r: String)
        ensures
            r@ == spec_access(*self),
    {
        match &self.name {
            Some(n) => n.clone(),
            None => dec_string(self.idx),
        }
    }

    /// The binding list of a positional match arm: an `_` for every sibling
    /// field and `v` at the main field's position.
    pub fn args_for_tuple_enum(&self) -> (r: Vec<String>)
        ensures
            views_of(r@) == spec_tuple_args(self.idx as int, self.num_fields as int),
    {
        let mut out: Vec<String> = Vec::new();
        let mut j: usize = 0;
        while j < self.num_fields
            invariant
                j <= self.num_fields,
                out@.len() == j as int,
                forall|k: int|
                    0 <= k < j ==> (#[trigger] out@[k])@ == (if k == self.idx as int {
                        "v"@
                    } else {
                        "_"@
                    }),
            decreases self.num_fields - j,
        {
            if j == self.idx {
                out.push("v".to_owned());
            } else {
                out.push("_".to_owned());
            }
            j = j + 1;
        }
        proof {
            let s = spec_tuple_args(self.idx as int, self.num_fields as int);
            assert forall|k: int| 0 <= k < out@.len() implies views_of(out@)[k] == s[k] by {
                assert(views_of(out@)[k] == out@[k]@);
            }
            assert(views_of(out@) =~= s);
        }
        out
    }
}

/// The binding list of a positional match arm, as views.
pub open spec fn spec_tuple_args(idx: int, num: int) -> Seq<Seq<char>> {
    Seq::new(num as nat, |j: int| if j == idx { "v"@ } else { "_"@ })
}

/// One classified case of a tagged union: its name, how its fields are
/// written, and its resolved main field, if it has fields at all.
pub struct Variant {
    pub name: String,
    pub style: FieldStyle,
    pub main_field: Option<MainField>,
}

/// Classification of one declared case.
pub open spec fn spec_classify(v: VariantDef, attr: Seq<char>) -> Result<Variant, DeriveError> {
    match spec_resolve(v.fields, attr) {
        Err(e) => Err(e),
        Ok(mf) => Ok(Variant { name: v.name, style: v.fields.style, main_field: mf }),
    }
}

/// Classification of every declared case, stopping at the first failure.
pub open spec fn spec_classify_upto(vs: Seq<VariantDef>, attr: Seq<char>, k: int) -> Result<
    Seq<Variant>,
    DeriveError,
>
    decreases k,
{
    if k <= 0 {
        Ok(Seq::empty())
    } else {
        match spec_classify_upto(vs, attr, k - 1) {
            Err(e) => Err(e),
            Ok(s) => match spec_classify(vs[k - 1], attr) {
                Err(e) => Err(e),
                Ok(v) => Ok(s.push(v)),
            },
        }
    }
}

/// Classification of a whole case list.
pub open spec fn spec_classify_all(vs: Seq<VariantDef>, attr: Seq<char>) -> Result<
    Seq<Variant>,
    DeriveError,
> {
    spec_classify_upto(vs, attr, vs.len() as int)
}

proof fn lemma_classify_err_persists(vs: Seq<VariantDef>, attr: Seq<char>, k: int, n: int, e: DeriveError)
    requires
        0 < k <= n,
        spec_classify_upto(vs, attr, k) == Err::<Seq<Variant>, DeriveError>(e),
    ensures
        spec_classify_upto(vs, attr, n) == Err::<Seq<Variant>, DeriveError>(e),
    decreases n - k,
{
    if n > k {
        lemma_classify_err_persists(vs, attr, k, n - 1, e);
    }
}

impl Variant {
    /// Classifies one declared case, resolving its main field.
    pub fn from_def(v: &VariantDef, attr_name: &String) -> (r: Result<Variant, DeriveError>)
        ensures
            r == spec_classify(*v, attr_name@),
    {
        match MainField::resolve_from_fields(&v.fields, attr_name) {
            Err(e) => Err(e),
            Ok(mf) => Ok(Variant { name: v.name.clone(), style: v.fields.style, main_field: mf }),
        }
    }

    /// Classifies every declared case, stopping at the first failure.
    pub fn classify_all(vs: &Vec<VariantDef>, attr_name: &String) -> (r: Result<
        Vec<Variant>,
        DeriveError,
    >)
        ensures
            match r {
                Ok(out) => spec_classify_all(vs@, attr_name@) == Ok::<Seq<Variant>, DeriveError>(
                    out@,
                ),
                Err(e) => spec_classify_all(vs@, attr_name@) == Err::<Seq<Variant>, DeriveError>(
                    e,
                ),
            },
    {
        let mut out: Vec<Variant> = Vec::new();
        let mut k: usize = 0;
        while k < vs.len()
            invariant
                k <= vs@.len(),
                spec_classify_upto(vs@, attr_name@, k as int) == Ok::<Seq<Variant>, DeriveError>(
                    out@,
                ),
            decreases vs.len() - k,
        {
            match Variant::from_def(&vs[k], attr_name) {
                Ok(v) => {
                    out.push(v);
                    proof {
                        assert(spec_classify_upto(vs@, attr_name@, k + 1) == Ok::<
                            Seq<Variant>,
                            DeriveError,
                        >(out@));
                    }
                },
                Err(e) => {
                    proof {
                        assert(spec_classify_upto(vs@, attr_name@, k + 1) == Err::<
                            Seq<Variant>,
                            DeriveError,
                        >(e));
                        lemma_classify_err_persists(vs@, attr_name@, k + 1, vs@.len() as int, e);
                    }
                    return Err(e);
                },
            }
            k = k + 1;
        }
        Ok(out)
    }
}

/// Whether every case carries no field at all.
pub open spec fn spec_all_fieldless(vs: Seq<Variant>) -> bool {
    forall|i: int| 0 <= i < vs.len() ==> (#[trigger] vs[i]).main_field is None
}

/// Whether a union body degenerates to the global no-op: no case at all, or
/// no case with any field.
pub open spec fn spec_enum_noop(vs: Seq<Variant>) -> bool {
    spec_all_fieldless(vs)
}

/// The text of one match arm: a fieldless case writes its own name as a
/// literal, a positional case binds the main field as `v` among `_` siblings,
/// and a named case binds the main field by name, eliding the siblings.
pub open spec fn spec_arm(v: Variant, dt: Option<Seq<char>>, t: FmtTrait) -> Seq<char> {
    match v.main_field {
        None => "Self::"@ + v.name@ + " => f.write_str(\""@ + v.name@ + "\")"@,
        Some(mf) => match v.style {
            FieldStyle::Tuple => "Self::"@ + v.name@ + "("@ + spec_join(
                spec_tuple_args(mf.idx as int, mf.num_fields as int),
                ", "@,
            ) + ") => "@ + spec_del_prefix(mf, dt, t) + "(v, f)"@,
            _ => "Self::"@ + v.name@ + " { "@ + (match mf.name {
                Some(n) => n@,
                None => Seq::empty(),
            }) + ": v"@ + (if mf.num_fields > 1 {
                ", .."@
            } else {
                Seq::empty()
            }) + " } => "@ + spec_del_prefix(mf, dt, t) + "(v, f)"@,
        },
    }
}

/// The arm texts of every case, in declaration order.
pub open spec fn spec_arms(vs: Seq<Variant>, dt: Option<Seq<char>>, t: FmtTrait) -> Seq<
    Seq<char>,
> {
    vs.map_values(|v: Variant| spec_arm(v, dt, t))
}

/// The body of a union implementation: the global no-op when no case has a
/// field, otherwise a match with one arm per case.  Resolution has already
/// guaranteed an arm for every case, so no fallback arm is needed: the match
/// is exhaustive as written.
pub open spec fn spec_enum_body(vs: Seq<Variant>, dt: Option<Seq<char>>, t: FmtTrait) -> Seq<
    char,
> {
    if spec_enum_noop(vs) {
        "::core::result::Result::Ok(())"@
    } else {
        "match self { "@ + spec_join(spec_arms(vs, dt, t), ", "@) + " }"@
    }
}

/// The qualified call prefix as text.
fn del_prefix_text(mf: &MainField, dt: &Option<String>, t: FmtTrait) -> (r: String)
    ensures
        r@ == spec_del_prefix(*mf, opt_view(*dt), t),
{
    let mut out = "<".to_owned();
    match dt {
        Some(d) => out.append(d.as_str()),
        None => out.append(mf.ty.as_str()),
    }
    out.append(" as ");
    out.append(trait_path_text(t).as_str());
    out.append(">::fmt");
    out
}

/// The body of a record implementation as text.
pub fn struct_body_text(main: &Option<MainField>, dt: &Option<String>, t: FmtTrait) -> (r: String)
    ensures
        r@ == spec_struct_body(*main, opt_view(*dt), t),
{
    match main {
        None => "::core::result::Result::Ok(())".to_owned(),
        Some(mf) => {
            let mut out = del_prefix_text(mf, dt, t);
            out.append("(&self.");
            out.append(mf.ident_for_struct().as_str());
            out.append(", f)");
            out
        },
    }
}

/// The text of one match arm.
fn arm_text(v: &Variant, dt: &Option<String>, t: FmtTrait) -> (r: String)
    ensures
        r@ == spec_arm(*v, opt_view(*dt), t),
{
    match &v.main_field {
        None => {
            let mut out = "Self::".to_owned();
            out.append(v.name.as_str());
            out.append(" => f.write_str(\"");
            out.append(v.name.as_str());
            out.append("\")");
            out
        },
        Some(mf) => {
            let mut out = "Self::".to_owned();
            out.append(v.name.as_str());
            match v.style {
                FieldStyle::Tuple => {
                    out.append("(");
                    let args = mf.args_for_tuple_enum();
                    out.append(join(&args, ", ").as_str());
                    out.append(") => ");
                },
                _ => {
                    out.append(" { ");
                    match &mf.name {
                        Some(n) => out.append(n.as_str()),
                        None => {},
                    }
                    out.append(": v");
                    if mf.num_fields > 1 {
                        out.append(", ..");
                    }
                    out.append(" } => ");
                },
            }
            out.append(del_prefix_text(mf, dt, t).as_str());
            out.append("(v, f)");
            out
        },
    }
}

/// Whether no case of `vs` carries a field.
pub fn all_fieldless(vs: &Vec<Variant>) -> (r: bool)
    ensures
        r == spec_all_fieldless(vs@),
{
    let mut i: usize = 0;
    while i < vs.len()
        invariant
            i <= vs@.len(),
            forall|j: int| 0 <= j < i ==> (#[trigger] vs@[j]).main_field is None,
        decreases vs.len() - i,
    {
        if vs[i].main_field.is_some() {
            return false;
        }
        i = i + 1;
    }
    true
}

/// The body of a union implementation as text.
pub fn enum_body_text(vs: &Vec<Variant>, dt: &Option<String>, t: FmtTrait) -> (r: String)
    ensures
        r@ == spec_enum_body(vs@, opt_view(*dt), t),
{
    if all_fieldless(vs) {
        return "::core::result::Result::Ok(())".to_owned();
    }
    let mut arms: Vec<String> = Vec::new();
    let mut i: usize = 0;
    while i < vs.len()
        invariant
            i <= vs@.len(),
            arms@.len() == i as int,
            forall|k: int|
                0 <= k < i ==> (#[trigger] arms@[k])@ == spec_arm(vs@[k], opt_view(*dt), t),
        decreases vs.len() - i,
    {
        arms.push(arm_text(&vs[i], dt, t));
        i = i + 1;
    }
    proof {
        let s = spec_arms(vs@, opt_view(*dt), t);
        assert forall|k: int| 0 <= k < arms@.len() implies views_of(arms@)[k] == s[k] by {
            assert(views_of(arms@)[k] == arms@[k]@);
        }
        assert(views_of(arms@) =~= s);
    }
    let mut out = "match self { ".to_owned();
    out.append(join(&arms, ", ").as_str());
    out.append(" }");
    out
}

/// The predicate constraining `ty` to the trait, e.g. `T: ::core::fmt::Display`.
pub open spec fn spec_pred_of(ty: Seq<char>, t: FmtTrait) -> Seq<char> {
    ty + ": "@ + spec_trait_path(t)
}

/// The predicate constraining `ty` to the trait, as text.
pub fn pred_of(ty: &String, t: FmtTrait) -> (r: String)
    ensures
        r@ == spec_pred_of(ty@, t),
{
    let mut out = ty.clone();
    out.append(": ");
    out.append(trait_path_text(t).as_str());
    out
}

/// The sequence with every later repetition of an element removed.
pub open spec fn spec_dedup(s: Seq<Seq<char>>) -> Seq<Seq<char>>
    decreases s.len(),
{
    if s.len() == 0 {
        Seq::empty()
    } else {
        let d = spec_dedup(s.drop_last());
        if d.contains(s.last()) {
            d
        } else {
            d.push(s.last())
        }
    }
}

/// Removes every later repetition of a string, keeping first occurrences in
/// order.
pub fn dedup_strings(tys: &Vec<String>) -> (r: Vec<String>)
    ensures
        views_of(r@) == spec_dedup(views_of(tys@)),
{
    let mut out: Vec<String> = Vec::new();
    let mut i: usize = 0;
    while i < tys.len()
        invariant
            i <= tys@.len(),
            views_of(out@) == spec_dedup(views_of(tys@).take(i as int)),
        decreases tys.len() - i,
    {
        let ghost s = views_of(tys@);
        proof {
            assert(s.take(i + 1).drop_last() =~= s.take(i as int));
            assert(s.take(i + 1).last() == tys@[i as int]@);
        }
        let dup = contains_str(&out, &tys[i]);
        proof {
            lemma_has_string_is_contains(out@, tys@[i as int]@);
        }
        if !dup {
            let ghost prev = out@;
            out.push(tys[i].clone());
            proof {
                lemma_views_push(prev, tys@[i as int]);
                assert(views_of(out@) =~= spec_dedup(s.take(i + 1)));
            }
        }
        proof {
            assert(views_of(out@) =~= spec_dedup(s.take(i + 1)));
        }
        i = i + 1;
    }
    proof {
        assert(views_of(tys@).take(tys@.len() as int) =~= views_of(tys@));
        assert(views_of(out@) =~= spec_dedup(views_of(tys@)));
    }
    out
}

/// The delegate-field types a record shape contributes to bound inference.
pub open spec fn spec_struct_tys(main: Option<MainField>) -> Seq<Seq<char>> {
    match main {
        Some(mf) => seq![mf.ty@],
        None => Seq::empty(),
    }
}

/// The delegate-field types of a record shape, as text.
pub fn struct_tys(main: &Option<MainField>) -> (r: Vec<String>)
    ensures
        views_of(r@) == spec_struct_tys(*main),
{
    let mut out: Vec<String> = Vec::new();
    match main {
        Some(mf) => {
            let ghost prev = out@;
            out.push(mf.ty.clone());
            proof {
                lemma_views_push(prev, mf.ty);
                assert(views_of(out@) =~= spec_struct_tys(*main));
            }
        },
        None => {
            proof {
                assert(views_of(out@) =~= spec_struct_tys(*main));
            }
        },
    }
    out
}

/// The delegate-field types every union case contributes, in case order.
pub open spec fn spec_enum_tys(vs: Seq<Variant>) -> Seq<Seq<char>>
    decreases vs.len(),
{
    if vs.len() == 0 {
        Seq::empty()
    } else {
        spec_enum_tys(vs.drop_last()) + (match vs.last().main_field {
            Some(mf) => seq![mf.ty@],
            None => Seq::empty(),
        })
    }
}

/// The delegate-field types of every union case, as text.
pub fn enum_tys(vs: &Vec<Variant>) -> (r: Vec<String>)
    ensures
        views_of(r@) == spec_enum_tys(vs@),
{
    let mut out: Vec<String> = Vec::new();
    let mut i: usize = 0;
    while i < vs.len()
        invariant
            i <= vs@.len(),
            views_of(out@) == spec_enum_tys(vs@.take(i as int)),
        decreases vs.len() - i,
    {
        proof {
            assert(vs@.take(i + 1).drop_last() =~= vs@.take(i as int));
            assert(vs@.take(i + 1).last() == vs@[i as int]);
        }
        match &vs[i].main_field {
            Some(mf) => {
                let ghost prev = out@;
                out.push(mf.ty.clone());
                proof {
                    lemma_views_push(prev, mf.ty);
                    assert(views_of(out@) =~= spec_enum_tys(vs@.take(i + 1)));
                }
            },
            None => {
                proof {
                    assert(views_of(out@) =~= spec_enum_tys(vs@.take(i + 1)));
                }
            },
        }
        i = i + 1;
    }
    proof {
        assert(vs@.take(vs@.len() as int) =~= vs@);
    }
    out
}

/// The full predicate list of the generated where-clause.  The declaration's
/// own predicates always stay; new ones are appended only when the type is
/// generic at all, with a fixed precedence: explicit bounds replace every
/// other source; otherwise a delegation override is constrained itself;
/// otherwise the base-bounds flag constrains every generic type parameter;
/// otherwise each distinct delegate-field type is constrained.
pub open spec fn spec_augmented(
    g: GenericsModel,
    opts: OptionsV,
    tys: Seq<Seq<char>>,
    t: FmtTrait,
) -> Seq<Seq<char>> {
    let existing = views_of(g.predicates@);
    if g.params@.len() == 0 {
        existing
    } else if opts.bounds.len() > 0 {
        existing + opts.bounds
    } else if opts.delegate_to is Some {
        existing.push(spec_pred_of(opts.delegate_to->0, t))
    } else if opts.base_bounds {
        existing + views_of(g.type_params@).map_values(|p: Seq<char>| spec_pred_of(p, t))
    } else {
        existing + spec_dedup(tys).map_values(|ty: Seq<char>| spec_pred_of(ty, t))
    }
}

/// Computes the full predicate list of the generated where-clause.
pub fn augmented_predicates(
    g: &GenericsModel,
    opts: &ContainerOptions,
    tys: &Vec<String>,
    t: FmtTrait,
) -> (r: Vec<String>)
    ensures
        views_of(r@) == spec_augmented(*g, opts@, views_of(tys@), t),
{
    let mut out: Vec<String> = Vec::new();
    append_clones(&mut out, &g.predicates);
    let ghost existing = views_of(g.predicates@);
    proof {
        assert(views_of(out@) =~= existing);
    }
    if g.params.len() == 0 {
        return out;
    }
    if opts.bounds.len() > 0 {
        let ghost before = out@;
        append_clones(&mut out, &opts.bounds);
        proof {
            lemma_views_concat(before, opts.bounds@);
            assert(views_of(out@) =~= existing + views_of(opts.bounds@));
        }
        return out;
    }
    match &opts.delegate_to {
        Some(d) => {
            let ghost before = out@;
            out.push(pred_of(d, t));
            proof {
                lemma_views_push(before, out@.last());
                assert(views_of(out@) =~= existing.push(spec_pred_of(opts.delegate_to->0@, t)));
            }
            return out;
        },
        None => {},
    }
    if opts.base_bounds {
        let ghost mapped = views_of(g.type_params@).map_values(|p: Seq<char>| spec_pred_of(p, t));
        let mut k: usize = 0;
        while k < g.type_params.len()
            invariant
                k <= g.type_params@.len(),
                mapped == views_of(g.type_params@).map_values(
                    |p: Seq<char>| spec_pred_of(p, t),
                ),
                views_of(out@) == existing + mapped.take(k as int),
                existing == views_of(g.predicates@),
            decreases g.type_params.len() - k,
        {
            let ghost before = out@;
            out.push(pred_of(&g.type_params[k], t));
            proof {
                lemma_views_push(before, out@.last());
                assert(views_of(g.type_params@)[k as int] == g.type_params@[k as int]@);
                assert(views_of(out@) =~= existing + mapped.take(k + 1));
            }
            k = k + 1;
        }
        proof {
            assert(mapped.take(mapped.len() as int) =~= mapped);
        }
        out
    } else {
        let dd = dedup_strings(tys);
        let ghost mapped = spec_dedup(views_of(tys@)).map_values(|ty: Seq<char>| spec_pred_of(ty, t));
        let mut k: usize = 0;
        while k < dd.len()
            invariant
                k <= dd@.len(),
                views_of(dd@) == spec_dedup(views_of(tys@)),
                mapped == spec_dedup(views_of(tys@)).map_values(
                    |ty: Seq<char>| spec_pred_of(ty, t),
                ),
                views_of(out@) == existing + mapped.take(k as int),
                existing == views_of(g.predicates@),
            decreases dd.len() - k,
        {
            let ghost before = out@;
            out.push(pred_of(&dd[k], t));
            proof {
                lemma_views_push(before, out@.last());
                assert(views_of(dd@)[k as int] == dd@[k as int]@);
                assert(views_of(out@) =~= existing + mapped.take(k + 1));
            }
            k = k + 1;
        }
        proof {
            assert(mapped.take(mapped.len() as int) =~= mapped);
        }
        out
    }
}

} // verus!

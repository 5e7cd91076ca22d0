//! The library's laws: what holds of every derivation, proved once and for
//! all over the specification functions that the executable contracts use.

use vstd::prelude::*;
use crate::model::{
    spec_attr_name, AttrKind, DataModel, Declaration, DeriveError, FieldDef, Fields, FmtTrait,
};
use crate::opts::OptionsV;
use crate::render::{lemma_find_case_first, spec_case_output, spec_record_rendered};
use crate::resolve::{spec_mark, spec_resolve, spec_scan, MainField};
use crate::synth::{spec_all_fieldless, spec_enum_body, spec_enum_noop, spec_struct_body, Variant};
use crate::driver::spec_derive_data;

verus! {

/// A record shape with exactly one field always resolves, to that very
/// field, however the field is named or marked; the generated body is a
/// single delegation to that field; and the derived implementation's
/// run-time output is exactly what the field's own implementation writes.
pub proof fn lemma_single_field_record(fields: Fields, attr: Seq<char>, inner: Seq<char>)
    requires
        fields.list@.len() == 1,
    ensures
        spec_resolve(fields, attr) matches Ok(Some(mf)) && mf.idx == 0 && mf.name
            == fields.list@[0].name && mf.ty == fields.list@[0].ty && mf.num_fields == 1,
        spec_resolve(fields, attr) == Ok::<Option<MainField>, DeriveError>(
            Some(spec_resolve_winner0(fields, attr)),
        ),
        forall|dt: Option<Seq<char>>, t: FmtTrait|
            #[trigger] spec_struct_body(Some(spec_resolve_winner0(fields, attr)), dt, t)
                == crate::synth::spec_del_prefix(spec_resolve_winner0(fields, attr), dt, t)
                + "(&self."@ + crate::synth::spec_access(spec_resolve_winner0(fields, attr))
                + ", f)"@,
        spec_record_rendered(fields, attr, Some(inner)) == Ok::<Seq<char>, DeriveError>(inner),
{
    assert(spec_scan(fields.list@, attr, 1, spec_resolve_winner0(fields, attr))
        == Ok::<MainField, DeriveError>(spec_resolve_winner0(fields, attr)));
}

/// The candidate the resolution scan starts from.
pub open spec fn spec_resolve_winner0(fields: Fields, attr: Seq<char>) -> MainField {
    crate::resolve::spec_winner(
        fields.list@[0],
        0,
        fields.list@.len() as int,
        spec_mark(fields.list@[0], attr),
    )
}

/// A record shape with no field at all resolves to no main field, its
/// generated body is the unconditional success, and its run-time output is
/// empty -- for a bare record and for one with an explicit empty field list
/// alike.
pub proof fn lemma_empty_record_noop(
    fields: Fields,
    attr: Seq<char>,
    dt: Option<Seq<char>>,
    t: FmtTrait,
    inner: Option<Seq<char>>,
)
    requires
        fields.list@.len() == 0,
    ensures
        spec_resolve(fields, attr) == Ok::<Option<MainField>, DeriveError>(None),
        spec_record_rendered(fields, attr, inner) == Ok::<Seq<char>, DeriveError>(Seq::empty()),
        spec_struct_body(None, dt, t) == "::core::result::Result::Ok(())"@,
{
}

/// In a union where at least one case carries a field, a fieldless case
/// formats to exactly its own name, and a case with a resolved main field
/// formats to exactly what that field's own implementation writes.  (In a
/// union where no case carries a field the body degenerates to the global
/// no-op instead, and every case formats to nothing.)
pub proof fn lemma_union_case_output(vs: Seq<Variant>, i: int, inner: Seq<char>)
    requires
        !spec_all_fieldless(vs),
        0 <= i < vs.len(),
        forall|j: int| 0 <= j < i ==> (#[trigger] vs[j]).name@ != vs[i].name@,
    ensures
        vs[i].main_field is None ==> spec_case_output(vs, vs[i].name@, Some(inner))
            == vs[i].name@,
        vs[i].main_field is None ==> spec_case_output(vs, vs[i].name@, None) == vs[i].name@,
        vs[i].main_field is Some ==> spec_case_output(vs, vs[i].name@, Some(inner)) == inner,
{
    lemma_find_case_first(vs, vs[i].name@, i);
}

/// A union with no case at all still derives: classification cannot fail,
/// the body degenerates to the unconditional success, and synthesis goes
/// through for every trait and every option set.
pub proof fn lemma_empty_union_noop(
    decl: Declaration,
    dt: Option<Seq<char>>,
    t: FmtTrait,
    opts: OptionsV,
)
    requires
        decl.data matches DataModel::Enum(vds) && vds@.len() == 0,
    ensures
        spec_enum_noop(Seq::<Variant>::empty()),
        spec_enum_body(Seq::<Variant>::empty(), dt, t) == "::core::result::Result::Ok(())"@,
        spec_derive_data(decl, t, opts) is Ok,
{
}

/// Formatting the debug style of a field's value through the delegation
/// writes exactly the text the field's own debug style writes: a one-field
/// record derived for the debug trait round-trips its field's debug output
/// unchanged.
pub proof fn lemma_debug_round_trip(fields: Fields, inner: Seq<char>)
    requires
        fields.list@.len() == 1,
    ensures
        spec_record_rendered(fields, spec_attr_name(FmtTrait::Debug), Some(inner)) == Ok::<
            Seq<char>,
            DeriveError,
        >(inner),
{
    lemma_single_field_record(fields, spec_attr_name(FmtTrait::Debug), inner);
}

proof fn lemma_scan_all_unmarked(fields: Seq<FieldDef>, attr: Seq<char>, i: int, w: MainField)
    requires
        forall|k: int| i <= k < fields.len() ==> spec_mark(#[trigger] fields[k], attr) is None,
    ensures
        spec_scan(fields, attr, i, w) == Ok::<MainField, DeriveError>(w),
    decreases fields.len() - i,
{
    if 0 <= i < fields.len() {
        lemma_scan_all_unmarked(fields, attr, i + 1, w);
    }
}

proof fn lemma_scan_err_primary_winner(fields: Seq<FieldDef>, attr: Seq<char>, i: int, w: MainField, k: int)
    requires
        w.mark == Some(AttrKind::Primary),
        0 <= i <= k < fields.len(),
        spec_mark(fields[k], attr) == Some(AttrKind::Primary),
    ensures
        spec_scan(fields, attr, i, w) is Err,
    decreases fields.len() - i,
{
    match spec_mark(fields[i], attr) {
        Some(AttrKind::Primary) => {},
        _ => {
            lemma_scan_err_primary_winner(fields, attr, i + 1, w, k);
        },
    }
}

proof fn lemma_scan_err_two_primary(
    fields: Seq<FieldDef>,
    attr: Seq<char>,
    i: int,
    w: MainField,
    k1: int,
    k2: int,
)
    requires
        0 <= i <= k1 < k2 < fields.len(),
        spec_mark(fields[k1], attr) == Some(AttrKind::Primary),
        spec_mark(fields[k2], attr) == Some(AttrKind::Primary),
    ensures
        spec_scan(fields, attr, i, w) is Err,
    decreases fields.len() - i,
{
    match spec_mark(fields[i], attr) {
        Some(AttrKind::Primary) => {
            match w.mark {
                Some(AttrKind::Primary) => {},
                _ => {
                    let w2 = crate::resolve::spec_winner(
                        fields[i],
                        i,
                        w.num_fields as int,
                        Some(AttrKind::Primary),
                    );
                    lemma_scan_err_primary_winner(fields, attr, i + 1, w2, k2);
                },
            }
        },
        Some(AttrKind::CatchAll) => {
            match w.mark {
                Some(AttrKind::CatchAll) => {},
                Some(AttrKind::Primary) => {
                    lemma_scan_err_primary_winner(fields, attr, i + 1, w, k2);
                },
                None => {
                    let w2 = crate::resolve::spec_winner(
                        fields[i],
                        i,
                        w.num_fields as int,
                        Some(AttrKind::CatchAll),
                    );
                    lemma_scan_err_two_primary(fields, attr, i + 1, w2, k1, k2);
                },
            }
        },
        None => {
            lemma_scan_err_two_primary(fields, attr, i + 1, w, k1, k2);
        },
    }
}

/// A shape with more than one field and not a single marked field never
/// resolves: it fails with the missing-marker error, never with a silent
/// guess at a field.
pub proof fn lemma_unmarked_multi_field_fails(fields: Fields, attr: Seq<char>)
    requires
        fields.list@.len() >= 2,
        forall|k: int|
            0 <= k < fields.list@.len() ==> spec_mark(#[trigger] fields.list@[k], attr) is None,
    ensures
        spec_resolve(fields, attr) == Err::<Option<MainField>, DeriveError>(
            DeriveError::NoMarkedField,
        ),
{
    lemma_scan_all_unmarked(fields.list@, attr, 1, spec_resolve_winner0(fields, attr));
}

/// Two fields bearing the trait-specific marker never resolve, wherever in
/// the shape the two markers stand.
pub proof fn lemma_two_specific_markers_fail(fields: Fields, attr: Seq<char>, i: int, j: int)
    requires
        0 <= i < j < fields.list@.len(),
        spec_mark(fields.list@[i], attr) == Some(AttrKind::Primary),
        spec_mark(fields.list@[j], attr) == Some(AttrKind::Primary),
    ensures
        spec_resolve(fields, attr) is Err,
{
    let w0 = spec_resolve_winner0(fields, attr);
    if i == 0 {
        lemma_scan_err_primary_winner(fields.list@, attr, 1, w0, j);
    } else {
        lemma_scan_err_two_primary(fields.list@, attr, 1, w0, i, j);
    }
}

} // verus!

//! Locating the main field: the single field of a record shape or union case
//! whose own formatting implementation the container delegates to.

use vstd::prelude::*;
use crate::model::{attr_any, spec_attr_any, AttrKind, DeriveError, FieldDef, Fields};
use crate::text::{has_string, lemma_has_string_step};

verus! {

/// The marker a field with attribute names `attrs` carries for the trait
/// whose specific marker attribute is `attr`: the trait-specific marker wins
/// over the catch-all marker, and anything else is no marker at all.
pub open spec fn spec_aggregate(attrs: Seq<String>, attr: Seq<char>) -> Option<AttrKind> {
    if has_string(attrs, attr) {
        Some(AttrKind::Primary)
    } else if has_string(attrs, spec_attr_any()) {
        Some(AttrKind::CatchAll)
    } else {
        None
    }
}

/// The marker carried by field `f`.
pub open spec fn spec_mark(f: FieldDef, attr: Seq<char>) -> Option<AttrKind> {
    spec_aggregate(f.attrs@, attr)
}

impl AttrKind {
    /// Reduces a field's attribute names to the marker they amount to for the
    /// trait whose specific marker attribute is `attr_name`.
    pub fn aggregate(attrs: &Vec<String>, attr_name: &String) -> (r: Option<AttrKind>)
        ensures
            r == spec_aggregate(attrs@, attr_name@),
    {
        let any = attr_any();
        let mut has_primary = false;
        let mut has_catch = false;
        let mut i: usize = 0;
        while i < attrs.len()
            invariant
                i <= attrs.len(),
                any@ == spec_attr_any(),
                has_primary == has_string(attrs@.take(i as int), attr_name@),
                has_catch == has_string(attrs@.take(i as int), spec_attr_any()),
            decreases attrs.len() - i,
        {
            proof {
                lemma_has_string_step(attrs@, attr_name@, i as int);
                lemma_has_string_step(attrs@, spec_attr_any(), i as int);
            }
            if attrs[i] == *attr_name {
                has_primary = true;
            }
            if attrs[i] == any {
                has_catch = true;
            }
            i = i + 1;
        }
        proof {
            assert(attrs@.take(attrs@.len() as int) =~= attrs@);
        }
        if has_primary {
            Some(AttrKind::Primary)
        } else if has_catch {
            Some(AttrKind::CatchAll)
        } else {
            None
        }
    }
}

/// The resolved delegate target of one record shape or union case.
#[derive(Debug)]
pub struct MainField {
    /// The field's position within the shape.
    pub idx: usize,
    /// The field's name; `None` for a positional field.
    pub name: Option<String>,
    /// The field's declared type, verbatim.
    pub ty: String,
    /// How many fields the whole shape has.
    pub num_fields: usize,
    /// Which marker tier selected the field; `None` when a lone field was
    /// selected automatically.
    pub mark: Option<AttrKind>,
}

/// The candidate record for field `i` of a shape of `num_fields` fields.
pub open spec fn spec_winner(
    f: FieldDef,
    i: int,
    num_fields: int,
    mark: Option<AttrKind>,
) -> MainField {
    MainField { idx: i as usize, name: f.name, ty: f.ty, num_fields: num_fields as usize, mark }
}

/// One pass over the fields from position `i` on, carrying the current
/// winner `w`: a specific marker displaces an unmarked or catch-all winner, a
/// second specific marker is an error, a catch-all marker displaces only an
/// unmarked winner, and a second catch-all winner is an error unless a
/// specific marker already won.
pub open spec fn spec_scan(
    fields: Seq<FieldDef>,
    attr: Seq<char>,
    i: int,
    w: MainField,
) -> Result<MainField, DeriveError>
    decreases fields.len() - i,
{
    if i < 0 || i >= fields.len() {
        Ok(w)
    } else {
        match spec_mark(fields[i], attr) {
            None => spec_scan(fields, attr, i + 1, w),
            Some(AttrKind::Primary) => match w.mark {
                Some(AttrKind::Primary) => Err(
                    DeriveError::MultipleMarked { catch_all: false, field_idx: i as usize },
                ),
                _ => spec_scan(
                    fields,
                    attr,
                    i + 1,
                    spec_winner(fields[i], i, w.num_fields as int, Some(AttrKind::Primary)),
                ),
            },
            Some(AttrKind::CatchAll) => match w.mark {
                None => spec_scan(
                    fields,
                    attr,
                    i + 1,
                    spec_winner(fields[i], i, w.num_fields as int, Some(AttrKind::CatchAll)),
                ),
                Some(AttrKind::Primary) => spec_scan(fields, attr, i + 1, w),
                Some(AttrKind::CatchAll) => Err(
                    DeriveError::MultipleMarked { catch_all: true, field_idx: i as usize },
                ),
            },
        }
    }
}

/// Resolution over a plain field list: an empty list resolves to no main
/// field, a single field is selected automatically, and a longer list must
/// elect exactly one marked field.
pub open spec fn spec_resolve_list(
    fields: Seq<FieldDef>,
    attr: Seq<char>,
) -> Result<Option<MainField>, DeriveError> {
    if fields.len() == 0 {
        Ok(None)
    } else {
        let w0 = spec_winner(fields[0], 0, fields.len() as int, spec_mark(fields[0], attr));
        match spec_scan(fields, attr, 1, w0) {
            Err(e) => Err(e),
            Ok(w) => if fields.len() > 1 && w.mark is None {
                Err(DeriveError::NoMarkedField)
            } else {
                Ok(Some(w))
            },
        }
    }
}

/// Resolution over a whole field list, unit shapes included.
pub open spec fn spec_resolve(fields: Fields, attr: Seq<char>) -> Result<
    Option<MainField>,
    DeriveError,
> {
    spec_resolve_list(fields.list@, attr)
}

fn clone_opt_name(o: &Option<String>) -> (r: Option<String>)
    ensures
        r == *o,
{
    match o {
        Some(s) => Some(s.clone()),
        None => None,
    }
}

impl MainField {
    /// Scans a plain field list for the delegate target, as `spec_resolve_list`
    /// describes it.
    pub fn resolve_from_iter(list: &Vec<FieldDef>, attr_name: &String) -> (r: Result<
        Option<MainField>,
        DeriveError,
    >)
        ensures
            r == spec_resolve_list(list@, attr_name@),
    {
        if list.len() == 0 {
            return Ok(None);
        }
        let mut winner = MainField {
            idx: 0,
            name: clone_opt_name(&list[0].name),
            ty: list[0].ty.clone(),
            num_fields: list.len(),
            mark: AttrKind::aggregate(&list[0].attrs, attr_name),
        };
        let ghost w0 = spec_winner(
            list@[0],
            0,
            list@.len() as int,
            spec_mark(list@[0], attr_name@),
        );
        proof {
            assert(winner == w0);
        }
        let mut i: usize = 1;
        while i < list.len()
            invariant
                1 <= i <= list@.len(),
                winner.num_fields == list@.len(),
                w0 == spec_winner(list@[0], 0, list@.len() as int, spec_mark(list@[0], attr_name@)),
                spec_scan(list@, attr_name@, i as int, winner) == spec_scan(
                    list@,
                    attr_name@,
                    1,
                    w0,
                ),
            decreases list@.len() - i,
        {
            let ghost prev = winner;
            let m = AttrKind::aggregate(&list[i].attrs, attr_name);
            match m {
                None => {},
                Some(AttrKind::Primary) => {
                    match winner.mark {
                        Some(AttrKind::Primary) => {
                            proof {
                                assert(spec_scan(list@, attr_name@, i as int, prev) == Err::<
                                    MainField,
                                    DeriveError,
                                >(DeriveError::MultipleMarked { catch_all: false, field_idx: i }));
                            }
                            return Err(
                                DeriveError::MultipleMarked { catch_all: false, field_idx: i },
                            );
                        },
                        _ => {
                            winner = MainField {
                                idx: i,
                                name: clone_opt_name(&list[i].name),
                                ty: list[i].ty.clone(),
                                num_fields: winner.num_fields,
                                mark: Some(AttrKind::Primary),
                            };
                            proof {
                                assert(winner == spec_winner(
                                    list@[i as int],
                                    i as int,
                                    list@.len() as int,
                                    Some(AttrKind::Primary),
                                ));
                            }
                        },
                    }
                },
                Some(AttrKind::CatchAll) => {
                    match winner.mark {
                        None => {
                            winner = MainField {
                                idx: i,
                                name: clone_opt_name(&list[i].name),
                                ty: list[i].ty.clone(),
                                num_fields: winner.num_fields,
                                mark: Some(AttrKind::CatchAll),
                            };
                            proof {
                                assert(winner == spec_winner(
                                    list@[i as int],
                                    i as int,
                                    list@.len() as int,
                                    Some(AttrKind::CatchAll),
                                ));
                            }
                        },
                        Some(AttrKind::Primary) => {},
                        Some(AttrKind::CatchAll) => {
                            proof {
                                assert(spec_scan(list@, attr_name@, i as int, prev) == Err::<
                                    MainField,
                                    DeriveError,
                                >(DeriveError::MultipleMarked { catch_all: true, field_idx: i }));
                            }
                            return Err(
                                DeriveError::MultipleMarked { catch_all: true, field_idx: i },
                            );
                        },
                    }
                },
            }
            proof {
                assert(spec_scan(list@, attr_name@, i as int, prev) == spec_scan(
                    list@,
                    attr_name@,
                    i + 1,
                    winner,
                ));
            }
            i = i + 1;
        }
        if list.len() > 1 && winner.mark.is_none() {
            Err(DeriveError::NoMarkedField)
        } else {
            Ok(Some(winner))
        }
    }

    /// Resolves the delegate target of one shape's field list.
    pub fn resolve_from_fields(fields: &Fields, attr_name: &String) -> (r: Result<
        Option<MainField>,
        DeriveError,
    >)
        ensures
            r == spec_resolve(*fields, attr_name@),
    {
        MainField::resolve_from_iter(&fields.list, attr_name)
    }
}

} // verus!

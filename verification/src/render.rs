//! What the generated implementation writes at run time.
//!
//! The generated code only ever does three things: nothing, write one case
//! name, or hand the sink to the main field's own implementation of the same
//! trait.  So the run-time output is a function of the resolved shape, the
//! value's case, and the text that the delegate field's own implementation
//! writes.  This module states that function and computes it, so that the
//! delegation behaviour itself can be proved and tested, not just the
//! emitted text.

use vstd::prelude::*;
use crate::model::{DeriveError, Fields, FmtTrait, VariantDef};
use crate::opts::opt_view;
use crate::resolve::{spec_resolve, MainField};
use crate::synth::{spec_classify_all, spec_enum_noop, Variant};

verus! {

/// The text a derived record implementation writes, given the text `inner`
/// that the main field's own implementation writes: nothing without a main
/// field, `inner` otherwise.
pub open spec fn spec_record_output(
    main: Option<MainField>,
    inner: Option<Seq<char>>,
) -> Seq<char> {
    match main {
        None => Seq::empty(),
        Some(_) => match inner {
            Some(s) => s,
            None => Seq::empty(),
        },
    }
}

/// The first case named `name`, if any.
pub open spec fn spec_find_case(vs: Seq<Variant>, name: Seq<char>) -> Option<int>
    decreases vs.len(),
{
    if vs.len() == 0 {
        None
    } else if vs[0].name@ == name {
        Some(0)
    } else {
        match spec_find_case(vs.drop_first(), name) {
            Some(i) => Some(i + 1),
            None => None,
        }
    }
}

/// The text a derived union implementation writes for a value in case
/// `case`, given the text `inner` that the case's main field writes: nothing
/// when no case has a field (the body degenerated to the global no-op), the
/// case's own name for a fieldless case, and `inner` for a case with a
/// resolved main field.
pub open spec fn spec_case_output(
    vs: Seq<Variant>,
    case: Seq<char>,
    inner: Option<Seq<char>>,
) -> Seq<char> {
    if spec_enum_noop(vs) {
        Seq::empty()
    } else {
        match spec_find_case(vs, case) {
            None => Seq::empty(),
            Some(i) => match vs[i].main_field {
                None => case,
                Some(_) => match inner {
                    Some(s) => s,
                    None => Seq::empty(),
                },
            },
        }
    }
}

/// The run-time output of a record derivation, resolution included.
pub open spec fn spec_record_rendered(
    fields: Fields,
    attr: Seq<char>,
    inner: Option<Seq<char>>,
) -> Result<Seq<char>, DeriveError> {
    match spec_resolve(fields, attr) {
        Err(e) => Err(e),
        Ok(mf) => Ok(spec_record_output(mf, inner)),
    }
}

/// The run-time output of a union derivation, classification included.
pub open spec fn spec_case_rendered(
    vds: Seq<VariantDef>,
    attr: Seq<char>,
    case: Seq<char>,
    inner: Option<Seq<char>>,
) -> Result<Seq<char>, DeriveError> {
    match spec_classify_all(vds, attr) {
        Err(e) => Err(e),
        Ok(vs) => Ok(spec_case_output(vs, case, inner)),
    }
}

pub proof fn lemma_find_case_first(vs: Seq<Variant>, name: Seq<char>, i: int)
    requires
        0 <= i < vs.len(),
        vs[i].name@ == name,
        forall|j: int| 0 <= j < i ==> (#[trigger] vs[j]).name@ != name,
    ensures
        spec_find_case(vs, name) == Some(i),
    decreases vs.len(),
{
    if i == 0 {
    } else {
        assert(vs[0].name@ != name);
        let rest = vs.drop_first();
        assert(rest[i - 1] == vs[i]);
        assert forall|j: int| 0 <= j < i - 1 implies (#[trigger] rest[j]).name@ != name by {
            assert(rest[j] == vs[j + 1]);
        }
        lemma_find_case_first(rest, name, i - 1);
    }
}

pub proof fn lemma_find_case_none(vs: Seq<Variant>, name: Seq<char>)
    requires
        forall|j: int| 0 <= j < vs.len() ==> (#[trigger] vs[j]).name@ != name,
    ensures
        spec_find_case(vs, name) is None,
    decreases vs.len(),
{
    if vs.len() > 0 {
        let rest = vs.drop_first();
        assert forall|j: int| 0 <= j < rest.len() implies (#[trigger] rest[j]).name@ != name by {
            assert(rest[j] == vs[j + 1]);
        }
        lemma_find_case_none(rest, name);
    }
}

/// Finds the first case named `case`.
pub fn find_case(vs: &Vec<Variant>, case: &String) -> (r: Option<usize>)
    ensures
        match r {
            Some(i) => 0 <= i < vs@.len() && spec_find_case(vs@, case@) == Some(i as int),
            None => spec_find_case(vs@, case@) is None,
        },
{
    let mut i: usize = 0;
    while i < vs.len()
        invariant
            i <= vs@.len(),
            forall|j: int| 0 <= j < i ==> (#[trigger] vs@[j]).name@ != case@,
        decreases vs.len() - i,
    {
        if vs[i].name == *case {
            proof {
                lemma_find_case_first(vs@, case@, i as int);
            }
            return Some(i);
        }
        i = i + 1;
    }
    proof {
        lemma_find_case_none(vs@, case@);
    }
    None
}

/// The text a value of this record formats to at run time: `inner` is what
/// the main field's own implementation of the derived trait writes for the
/// value's field.
pub fn record_output(fields: &Fields, t: FmtTrait, inner: &Option<String>) -> (r: Result<
    String,
    DeriveError,
>)
    ensures
        match r {
            Ok(txt) => spec_record_rendered(*fields, crate::model::spec_attr_name(t), opt_view(*inner))
                == Ok::<Seq<char>, DeriveError>(txt@),
            Err(e) => spec_record_rendered(*fields, crate::model::spec_attr_name(t), opt_view(*inner))
                == Err::<Seq<char>, DeriveError>(e),
        },
{
    let attr = t.attr_name();
    match MainField::resolve_from_fields(fields, &attr) {
        Err(e) => Err(e),
        Ok(mf) => match mf {
            None => Ok(String::new()),
            Some(_) => match inner {
                Some(s) => Ok(s.clone()),
                None => Ok(String::new()),
            },
        },
    }
}

/// The text a value of this union in case `case` formats to at run time:
/// `inner` is what the case's main field writes for the value's field, when
/// the case has one.
pub fn case_output(vds: &Vec<VariantDef>, t: FmtTrait, case: &String, inner: &Option<String>) -> (r: Result<
    String,
    DeriveError,
>)
    ensures
        match r {
            Ok(txt) => spec_case_rendered(
                vds@,
                crate::model::spec_attr_name(t),
                case@,
                opt_view(*inner),
            ) == Ok::<Seq<char>, DeriveError>(txt@),
            Err(e) => spec_case_rendered(
                vds@,
                crate::model::spec_attr_name(t),
                case@,
                opt_view(*inner),
            ) == Err::<Seq<char>, DeriveError>(e),
        },
{
    let attr = t.attr_name();
    match Variant::classify_all(vds, &attr) {
        Err(e) => Err(e),
        Ok(vs) => {
            if crate::synth::all_fieldless(&vs) {
                return Ok(String::new());
            }
            match find_case(&vs, case) {
                None => Ok(String::new()),
                Some(i) => match &vs[i].main_field {
                    None => Ok(case.clone()),
                    Some(_) => match inner {
                        Some(s) => Ok(s.clone()),
                        None => Ok(String::new()),
                    },
                },
            }
        },
    }
}

} // verus!

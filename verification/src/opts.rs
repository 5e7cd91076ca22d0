//! Merging container-level configuration: the catch-all attribute and the
//! trait-specific attribute, reduced to one set of options per derivation.

use vstd::prelude::*;
use crate::model::{
    spec_attr_any, spec_all_traits, ContainerAttr, DeriveError, FmtTrait, OptionsInput,
};
use crate::text::{append_clones, views_of};

verus! {

/// The mathematical content of a set of options: bound predicates, the
/// delegation-target override, and the base-bounds flag.
pub struct OptionsV {
    pub bounds: Seq<Seq<char>>,
    pub delegate_to: Option<Seq<char>>,
    pub base_bounds: bool,
}

/// The view of an optional owned string.
pub open spec fn opt_view(o: Option<String>) -> Option<Seq<char>> {
    match o {
        Some(s) => Some(s@),
        None => None,
    }
}

impl View for OptionsInput {
    type V = OptionsV;

    open spec fn view(&self) -> OptionsV {
        OptionsV {
            bounds: views_of(self.bounds@),
            delegate_to: opt_view(self.delegate_to),
            base_bounds: self.base_bounds,
        }
    }
}

/// The merged configuration of one derivation.
#[derive(Debug)]
pub struct ContainerOptions {
    /// Explicit where-clause predicates, catch-all ones first.
    pub bounds: Vec<String>,
    /// The delegation-target override; the trait-specific attribute's wins.
    pub delegate_to: Option<String>,
    /// Whether every generic type parameter is to be bound to the trait.
    pub base_bounds: bool,
}

impl View for ContainerOptions {
    type V = OptionsV;

    open spec fn view(&self) -> OptionsV {
        OptionsV {
            bounds: views_of(self.bounds@),
            delegate_to: opt_view(self.delegate_to),
            base_bounds: self.base_bounds,
        }
    }
}

/// One pass over the container attributes from position `i` on, remembering
/// where the catch-all and the trait-specific attribute stand; a second
/// occurrence of either is an error at the duplicate's position.
pub open spec fn spec_collect(
    attrs: Seq<ContainerAttr>,
    specific: Seq<char>,
    i: int,
    ca: Option<int>,
    sp: Option<int>,
) -> Result<(Option<int>, Option<int>), DeriveError>
    decreases attrs.len() - i,
{
    if i < 0 || i >= attrs.len() {
        Ok((ca, sp))
    } else if attrs[i].name@ == specific {
        if sp is Some {
            Err(DeriveError::DuplicateAttr { catch_all: false, attr_idx: i as usize })
        } else {
            spec_collect(attrs, specific, i + 1, ca, Some(i))
        }
    } else if attrs[i].name@ == spec_attr_any() {
        if ca is Some {
            Err(DeriveError::DuplicateAttr { catch_all: true, attr_idx: i as usize })
        } else {
            spec_collect(attrs, specific, i + 1, Some(i), sp)
        }
    } else {
        spec_collect(attrs, specific, i + 1, ca, sp)
    }
}

/// The ordered merge of the catch-all options and the trait-specific options:
/// bound lists are concatenated with the catch-all's first; the trait-specific
/// delegation target, when given, replaces the catch-all's; the base-bounds
/// flag follows the trait-specific attribute when one is present, and the
/// catch-all otherwise.  Carrying both bounds and the base-bounds flag is an
/// error.
pub open spec fn spec_merge(ca: Option<OptionsV>, sp: Option<OptionsV>) -> Result<
    OptionsV,
    DeriveError,
> {
    let ca_bounds = match ca {
        Some(o) => o.bounds,
        None => Seq::empty(),
    };
    let sp_bounds = match sp {
        Some(o) => o.bounds,
        None => Seq::empty(),
    };
    let bounds = ca_bounds + sp_bounds;
    let delegate_to = match sp {
        Some(o) if o.delegate_to is Some => o.delegate_to,
        _ => match ca {
            Some(o) => o.delegate_to,
            None => None,
        },
    };
    let base_bounds = match sp {
        Some(o) => o.base_bounds,
        None => match ca {
            Some(o) => o.base_bounds,
            None => false,
        },
    };
    if base_bounds && bounds.len() > 0 {
        Err(DeriveError::BoundsConflict)
    } else {
        Ok(OptionsV { bounds, delegate_to, base_bounds })
    }
}

/// The view of the options at position `i`, when there is one.
pub open spec fn spec_opts_at(attrs: Seq<ContainerAttr>, i: Option<int>) -> Option<OptionsV> {
    match i {
        Some(i) => Some(attrs[i].options@),
        None => None,
    }
}

/// Resolution of the container attributes for the trait whose specific
/// attribute is named `specific`.
pub open spec fn spec_resolve_opts(attrs: Seq<ContainerAttr>, specific: Seq<char>) -> Result<
    OptionsV,
    DeriveError,
> {
    match spec_collect(attrs, specific, 0, None, None) {
        Err(e) => Err(e),
        Ok((ca, sp)) => spec_merge(spec_opts_at(attrs, ca), spec_opts_at(attrs, sp)),
    }
}

/// Whether an executable result agrees with a specification-level one.
pub open spec fn opts_result_matches(
    r: Result<ContainerOptions, DeriveError>,
    s: Result<OptionsV, DeriveError>,
) -> bool {
    match r {
        Ok(c) => s is Ok && c@ == s->Ok_0,
        Err(e) => s is Err && e == s->Err_0,
    }
}

/// Merges the catch-all and the trait-specific options, as `spec_merge`
/// describes it.
pub fn merge_options(ca: Option<&OptionsInput>, sp: Option<&OptionsInput>) -> (r: Result<
    ContainerOptions,
    DeriveError,
>)
    ensures
        opts_result_matches(
            r,
            spec_merge(
                match ca {
                    Some(o) => Some(o@),
                    None => None,
                },
                match sp {
                    Some(o) => Some(o@),
                    None => None,
                },
            ),
        ),
{
    let mut bounds: Vec<String> = Vec::new();
    if let Some(o) = ca {
        append_clones(&mut bounds, &o.bounds);
    }
    if let Some(o) = sp {
        append_clones(&mut bounds, &o.bounds);
    }
    let delegate_to: Option<String> = {
        let from_sp: Option<String> = match sp {
            Some(o) => match &o.delegate_to {
                Some(s) => Some(s.clone()),
                None => None,
            },
            None => None,
        };
        match from_sp {
            Some(s) => Some(s),
            None => match ca {
                Some(o) => match &o.delegate_to {
                    Some(s) => Some(s.clone()),
                    None => None,
                },
                None => None,
            },
        }
    };
    let base_bounds: bool = match sp {
        Some(o) => o.base_bounds,
        None => match ca {
            Some(o) => o.base_bounds,
            None => false,
        },
    };
    proof {
        let cav = match ca {
            Some(o) => Some(o@),
            None => None,
        };
        let spv = match sp {
            Some(o) => Some(o@),
            None => None,
        };
        let ca_bounds: Seq<Seq<char>> = match cav {
            Some(o) => o.bounds,
            None => Seq::empty(),
        };
        let sp_bounds: Seq<Seq<char>> = match spv {
            Some(o) => o.bounds,
            None => Seq::empty(),
        };
        assert(views_of(bounds@) =~= ca_bounds + sp_bounds);
    }
    if base_bounds && bounds.len() > 0 {
        Err(DeriveError::BoundsConflict)
    } else {
        Ok(ContainerOptions { bounds, delegate_to, base_bounds })
    }
}

impl ContainerOptions {
    /// Resolves the container attributes for the trait whose specific
    /// attribute is named `attr_name`, as `spec_resolve_opts` describes it.
    pub fn resolve(attrs: &Vec<ContainerAttr>, attr_name: &String) -> (r: Result<
        ContainerOptions,
        DeriveError,
    >)
        ensures
            opts_result_matches(r, spec_resolve_opts(attrs@, attr_name@)),
    {
        let any = crate::model::attr_any();
        let mut ca_idx: Option<usize> = None;
        let mut sp_idx: Option<usize> = None;
        let ghost s = attrs@;
        let mut i: usize = 0;
        while i < attrs.len()
            invariant
                i <= s.len(),
                s == attrs@,
                any@ == spec_attr_any(),
                ca_idx is Some ==> 0 <= ca_idx->0 < s.len(),
                sp_idx is Some ==> 0 <= sp_idx->0 < s.len(),
                spec_collect(s, attr_name@, i as int, idx_view(ca_idx), idx_view(sp_idx))
                    == spec_collect(s, attr_name@, 0, None, None),
            decreases s.len() - i,
        {
            let ghost prev_ca = idx_view(ca_idx);
            let ghost prev_sp = idx_view(sp_idx);
            if attrs[i].name == *attr_name {
                if sp_idx.is_some() {
                    proof {
                        assert(spec_collect(s, attr_name@, i as int, prev_ca, prev_sp) == Err::<
                            (Option<int>, Option<int>),
                            DeriveError,
                        >(DeriveError::DuplicateAttr { catch_all: false, attr_idx: i }));
                    }
                    return Err(DeriveError::DuplicateAttr { catch_all: false, attr_idx: i });
                }
                sp_idx = Some(i);
            } else if attrs[i].name == any {
                if ca_idx.is_some() {
                    proof {
                        assert(spec_collect(s, attr_name@, i as int, prev_ca, prev_sp) == Err::<
                            (Option<int>, Option<int>),
                            DeriveError,
                        >(DeriveError::DuplicateAttr { catch_all: true, attr_idx: i }));
                    }
                    return Err(DeriveError::DuplicateAttr { catch_all: true, attr_idx: i });
                }
                ca_idx = Some(i);
            }
            proof {
                assert(spec_collect(s, attr_name@, i as int, prev_ca, prev_sp) == spec_collect(
                    s,
                    attr_name@,
                    i + 1,
                    idx_view(ca_idx),
                    idx_view(sp_idx),
                ));
            }
            i = i + 1;
        }
        let ca = match ca_idx {
            Some(ci) => Some(&attrs[ci].options),
            None => None,
        };
        let sp = match sp_idx {
            Some(si) => Some(&attrs[si].options),
            None => None,
        };
        merge_options(ca, sp)
    }
}

/// The view of an optional index.
pub open spec fn idx_view(o: Option<usize>) -> Option<int> {
    match o {
        Some(i) => Some(i as int),
        None => None,
    }
}

/// The per-trait configuration blocks of one multi-trait derivation, as the
/// host-side parser hands them over: at most one block per supported trait,
/// and at most one catch-all block.
pub struct MultiContainerOptions {
    pub dany: Option<OptionsInput>,
    pub dbinary: Option<OptionsInput>,
    pub ddebug: Option<OptionsInput>,
    pub ddisplay: Option<OptionsInput>,
    pub dlexp: Option<OptionsInput>,
    pub dlhex: Option<OptionsInput>,
    pub doctal: Option<OptionsInput>,
    pub dpointer: Option<OptionsInput>,
    pub duexp: Option<OptionsInput>,
    pub duhex: Option<OptionsInput>,
}

/// The configuration block supplied for trait `t`, if any.
pub open spec fn spec_entry(m: MultiContainerOptions, t: FmtTrait) -> Option<OptionsInput> {
    match t {
        FmtTrait::Binary => m.dbinary,
        FmtTrait::Debug => m.ddebug,
        FmtTrait::Display => m.ddisplay,
        FmtTrait::LowerExp => m.dlexp,
        FmtTrait::LowerHex => m.dlhex,
        FmtTrait::Octal => m.doctal,
        FmtTrait::Pointer => m.dpointer,
        FmtTrait::UpperExp => m.duexp,
        FmtTrait::UpperHex => m.duhex,
    }
}

/// The view of the catch-all block, if any.
pub open spec fn spec_dany_view(m: MultiContainerOptions) -> Option<OptionsV> {
    match m.dany {
        Some(o) => Some(o@),
        None => None,
    }
}

/// The resolved (trait, options) pairs among the first `k` supported traits,
/// in the fixed trait order: each supplied block merged over the catch-all
/// block.
pub open spec fn spec_pairs_upto(m: MultiContainerOptions, k: int) -> Result<
    Seq<(FmtTrait, OptionsV)>,
    DeriveError,
>
    decreases k,
{
    if k <= 0 {
        Ok(Seq::empty())
    } else {
        match spec_pairs_upto(m, k - 1) {
            Err(e) => Err(e),
            Ok(s) => {
                let t = spec_all_traits()[k - 1];
                match spec_entry(m, t) {
                    None => Ok(s),
                    Some(o) => match spec_merge(spec_dany_view(m), Some(o@)) {
                        Err(e) => Err(e),
                        Ok(v) => Ok(s.push((t, v))),
                    },
                }
            },
        }
    }
}

/// The resolved (trait, options) pairs of one multi-trait derivation.
pub open spec fn spec_multi_pairs(m: MultiContainerOptions) -> Result<
    Seq<(FmtTrait, OptionsV)>,
    DeriveError,
> {
    spec_pairs_upto(m, spec_all_traits().len() as int)
}

/// Whether the executable pair list agrees with the specification-level one.
pub open spec fn pairs_match(r: Seq<(FmtTrait, ContainerOptions)>, s: Seq<(FmtTrait, OptionsV)>) -> bool {
    &&& r.len() == s.len()
    &&& forall|i: int|
        0 <= i < r.len() ==> (#[trigger] r[i]).0 == s[i].0 && r[i].1@ == s[i].1
}

impl MultiContainerOptions {
    fn entry(&self, t: FmtTrait) -> (r: &Option<OptionsInput>)
        ensures
            *r == spec_entry(*self, t),
    {
        match t {
            FmtTrait::Binary => &self.dbinary,
            FmtTrait::Debug => &self.ddebug,
            FmtTrait::Display => &self.ddisplay,
            FmtTrait::LowerExp => &self.dlexp,
            FmtTrait::LowerHex => &self.dlhex,
            FmtTrait::Octal => &self.doctal,
            FmtTrait::Pointer => &self.dpointer,
            FmtTrait::UpperExp => &self.duexp,
            FmtTrait::UpperHex => &self.duhex,
        }
    }

    /// Resolves every supplied per-trait block over the catch-all block, in
    /// the fixed trait order, as `spec_multi_pairs` describes it.
    pub fn into_iter(&self) -> (r: Result<Vec<(FmtTrait, ContainerOptions)>, DeriveError>)
        ensures
            match r {
                Ok(v) => spec_multi_pairs(*self) is Ok && pairs_match(
                    v@,
                    spec_multi_pairs(*self)->Ok_0,
                ),
                Err(e) => spec_multi_pairs(*self) == Err::<Seq<(FmtTrait, OptionsV)>, DeriveError>(
                    e,
                ),
            },
    {
        let traits = FmtTrait::all();
        let mut out: Vec<(FmtTrait, ContainerOptions)> = Vec::new();
        let mut k: usize = 0;
        while k < traits.len()
            invariant
                k <= traits.len(),
                traits@ == spec_all_traits(),
                spec_pairs_upto(*self, k as int) is Ok,
                pairs_match(out@, spec_pairs_upto(*self, k as int)->Ok_0),
            decreases traits.len() - k,
        {
            let t = traits[k];
            let dany_ref: Option<&OptionsInput> = match &self.dany {
                Some(o) => Some(o),
                None => None,
            };
            match self.entry(t) {
                None => {},
                Some(o) => {
                    match merge_options(dany_ref, Some(o)) {
                        Ok(c) => {
                            out.push((t, c));
                        },
                        Err(e) => {
                            proof {
                                assert(spec_pairs_upto(*self, k + 1) == Err::<
                                    Seq<(FmtTrait, OptionsV)>,
                                    DeriveError,
                                >(e));
                                lemma_pairs_err_persists(*self, k + 1, spec_all_traits().len() as int, e);
                            }
                            return Err(e);
                        },
                    }
                },
            }
            proof {
                assert(spec_pairs_upto(*self, k + 1) is Ok);
                assert(pairs_match(out@, spec_pairs_upto(*self, k + 1)->Ok_0));
            }
            k = k + 1;
        }
        Ok(out)
    }
}

proof fn lemma_pairs_err_persists(m: MultiContainerOptions, k: int, n: int, e: DeriveError)
    requires
        0 < k <= n,
        spec_pairs_upto(m, k) == Err::<Seq<(FmtTrait, OptionsV)>, DeriveError>(e),
    ensures
        spec_pairs_upto(m, n) == Err::<Seq<(FmtTrait, OptionsV)>, DeriveError>(e),
    decreases n - k,
{
    if n > k {
        lemma_pairs_err_persists(m, k, n - 1, e);
    }
}

} // verus!

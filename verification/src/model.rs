//! The data model of one derivation: the declaration as handed over by the
//! host toolchain's parser, reduced to plain values, and the errors that a
//! derivation can end in.

use vstd::prelude::*;

verus! {

/// The formatting traits that can be derived, as a closed enumeration.
#[derive(Clone, Copy, PartialEq, Eq, Structural, Debug)]
pub enum FmtTrait {
    Binary,
    Debug,
    Display,
    LowerExp,
    LowerHex,
    Octal,
    Pointer,
    UpperExp,
    UpperHex,
}

/// The configuration attribute name that selects options for `t` alone.
pub open spec fn spec_attr_name(t: FmtTrait) -> Seq<char> {
    match t {
        FmtTrait::Binary => "dbinary"@,
        FmtTrait::Debug => "ddebug"@,
        FmtTrait::Display => "ddisplay"@,
        FmtTrait::LowerExp => "dlexp"@,
        FmtTrait::LowerHex => "dlhex"@,
        FmtTrait::Octal => "doctal"@,
        FmtTrait::Pointer => "dpointer"@,
        FmtTrait::UpperExp => "duexp"@,
        FmtTrait::UpperHex => "duhex"@,
    }
}

/// The simple name of the trait within the formatting module.
pub open spec fn spec_trait_name(t: FmtTrait) -> Seq<char> {
    match t {
        FmtTrait::Binary => "Binary"@,
        FmtTrait::Debug => "Debug"@,
        FmtTrait::Display => "Display"@,
        FmtTrait::LowerExp => "LowerExp"@,
        FmtTrait::LowerHex => "LowerHex"@,
        FmtTrait::Octal => "Octal"@,
        FmtTrait::Pointer => "Pointer"@,
        FmtTrait::UpperExp => "UpperExp"@,
        FmtTrait::UpperHex => "UpperHex"@,
    }
}

/// The name of the catch-all configuration attribute, which applies to every
/// derived trait unless a trait-specific attribute overrides it.
pub open spec fn spec_attr_any() -> Seq<char> {
    "dany"@
}

impl FmtTrait {
    /// The trait-specific configuration attribute name, e.g. `ddisplay`.
    pub fn attr_name(&self) -> (r: String)
        ensures
            r@ == spec_attr_name(*self),
    {
        match self {
            FmtTrait::Binary => "dbinary".to_owned(),
            FmtTrait::Debug => "ddebug".to_owned(),
            FmtTrait::Display => "ddisplay".to_owned(),
            FmtTrait::LowerExp => "dlexp".to_owned(),
            FmtTrait::LowerHex => "dlhex".to_owned(),
            FmtTrait::Octal => "doctal".to_owned(),
            FmtTrait::Pointer => "dpointer".to_owned(),
            FmtTrait::UpperExp => "duexp".to_owned(),
            FmtTrait::UpperHex => "duhex".to_owned(),
        }
    }

    /// The simple trait name, e.g. `Display`.
    pub fn trait_name(&self) -> (r: String)
        ensures
            r@ == spec_trait_name(*self),
    {
        match self {
            FmtTrait::Binary => "Binary".to_owned(),
            FmtTrait::Debug => "Debug".to_owned(),
            FmtTrait::Display => "Display".to_owned(),
            FmtTrait::LowerExp => "LowerExp".to_owned(),
            FmtTrait::LowerHex => "LowerHex".to_owned(),
            FmtTrait::Octal => "Octal".to_owned(),
            FmtTrait::Pointer => "Pointer".to_owned(),
            FmtTrait::UpperExp => "UpperExp".to_owned(),
            FmtTrait::UpperHex => "UpperHex".to_owned(),
        }
    }

    /// Every supported trait, in the fixed order the multi-trait driver uses.
    pub fn all() -> (r: Vec<FmtTrait>)
        ensures
            r@ == spec_all_traits(),
    {
        let mut out: Vec<FmtTrait> = Vec::new();
        out.push(FmtTrait::Binary);
        out.push(FmtTrait::Debug);
        out.push(FmtTrait::Display);
        out.push(FmtTrait::LowerExp);
        out.push(FmtTrait::LowerHex);
        out.push(FmtTrait::Octal);
        out.push(FmtTrait::Pointer);
        out.push(FmtTrait::UpperExp);
        out.push(FmtTrait::UpperHex);
        proof {
            assert(out@ =~= spec_all_traits());
        }
        out
    }
}

/// The fixed order in which the multi-trait driver emits implementations.
pub open spec fn spec_all_traits() -> Seq<FmtTrait> {
    seq![
        FmtTrait::Binary,
        FmtTrait::Debug,
        FmtTrait::Display,
        FmtTrait::LowerExp,
        FmtTrait::LowerHex,
        FmtTrait::Octal,
        FmtTrait::Pointer,
        FmtTrait::UpperExp,
        FmtTrait::UpperHex,
    ]
}

/// The catch-all configuration attribute name as an owned string.
pub fn attr_any() -> (r: String)
    ensures
        r@ == spec_attr_any(),
{
    "dany".to_owned()
}

/// How the fields of one record shape or union case are written down.
#[derive(Clone, Copy, PartialEq, Eq, Structural, Debug)]
pub enum FieldStyle {
    /// Curly braces, every field named.
    Named,
    /// Parentheses, fields addressed by position.
    Tuple,
    /// No field list at all.
    Unit,
}

/// One field of a record shape or union case.
pub struct FieldDef {
    /// The field's name; `None` for a positional field.
    pub name: Option<String>,
    /// The declared type, verbatim.
    pub ty: String,
    /// The names of the attributes attached to the field.
    pub attrs: Vec<String>,
}

/// The field list of a record shape or of one union case.
pub struct Fields {
    pub style: FieldStyle,
    pub list: Vec<FieldDef>,
}

impl Fields {
    /// The style and the field list agree: named shapes name every field,
    /// positional shapes none, and a unit shape has no fields.
    pub open spec fn wf(&self) -> bool {
        match self.style {
            FieldStyle::Named => forall|i: int|
                0 <= i < self.list@.len() ==> (#[trigger] self.list@[i]).name is Some,
            FieldStyle::Tuple => forall|i: int|
                0 <= i < self.list@.len() ==> (#[trigger] self.list@[i]).name is None,
            FieldStyle::Unit => self.list@.len() == 0,
        }
    }
}

/// One case of a tagged union, as declared.
pub struct VariantDef {
    pub name: String,
    pub fields: Fields,
}

/// The shape of the declared type.
pub enum DataModel {
    Struct(Fields),
    Enum(Vec<VariantDef>),
    /// Untagged unions are recognised only to be rejected.
    Union,
}

impl DataModel {
    pub open spec fn wf(&self) -> bool {
        match self {
            DataModel::Struct(fields) => fields.wf(),
            DataModel::Enum(variants) => forall|i: int|
                0 <= i < variants@.len() ==> (#[trigger] variants@[i]).fields.wf(),
            DataModel::Union => true,
        }
    }

    /// Whether the generated formatting function carries an inlining hint: a
    /// record body is always a plain delegation or no-op, and a union
    /// degenerates to one only when it has no case at all.
    pub fn is_inlinable(&self) -> (r: bool)
        ensures
            r == spec_inlinable(*self),
    {
        match self {
            DataModel::Struct(_) => true,
            DataModel::Enum(variants) => variants.len() == 0,
            DataModel::Union => false,
        }
    }
}

/// Whether the generated formatting function carries an inlining hint.
pub open spec fn spec_inlinable(d: DataModel) -> bool {
    match d {
        DataModel::Struct(_) => true,
        DataModel::Enum(variants) => variants@.len() == 0,
        DataModel::Union => false,
    }
}

/// The generic parameters of the declaration, reduced to the pieces the
/// derivation reads: each parameter's declaration and argument text verbatim,
/// the names of the type parameters among them, and the predicates of an
/// existing where-clause.
pub struct GenericsModel {
    /// The declaration of each generic parameter, in order, e.g. `T: Clone`.
    pub params: Vec<String>,
    /// The names of the type parameters, e.g. `T`; a subset of `params`.
    pub type_params: Vec<String>,
    /// The argument each parameter contributes to the target type, e.g. `T`.
    pub args: Vec<String>,
    /// The predicates of the declaration's own where-clause, verbatim.
    pub predicates: Vec<String>,
}

/// The options carried by one configuration attribute, already split into
/// fields by the host-side attribute parser.
pub struct OptionsInput {
    /// Explicit where-clause predicates from `bounds(...)`, verbatim.
    pub bounds: Vec<String>,
    /// The override type from `delegate_to(...)`, verbatim.
    pub delegate_to: Option<String>,
    /// Whether `base_bounds` was given.
    pub base_bounds: bool,
}

/// One container-level attribute: its name and its options.
pub struct ContainerAttr {
    pub name: String,
    pub options: OptionsInput,
}

/// One type declaration handed over for derivation.
pub struct Declaration {
    pub name: String,
    pub generics: GenericsModel,
    pub attrs: Vec<ContainerAttr>,
    pub data: DataModel,
}

impl Declaration {
    pub open spec fn wf(&self) -> bool {
        self.data.wf()
    }
}

/// Which marker tier selected a field.
#[derive(Clone, Copy, PartialEq, Eq, Structural, Debug)]
pub enum AttrKind {
    /// Marked with the catch-all attribute.
    CatchAll,
    /// Marked with the trait-specific attribute.
    Primary,
}

/// Everything a derivation can fail with.  Each failure names enough of its
/// cause for the host toolchain to anchor a diagnostic.
#[derive(Clone, Copy, PartialEq, Eq, Structural, Debug)]
pub enum DeriveError {
    /// The declaration is an untagged union.
    UnsupportedUnion,
    /// A second field carries the same marker; `field_idx` is the position of
    /// the duplicate, and `catch_all` tells which marker was duplicated.
    MultipleMarked { catch_all: bool, field_idx: usize },
    /// A shape with more than one field has no marked field.
    NoMarkedField,
    /// The same container attribute appears twice; `attr_idx` is the position
    /// of the second occurrence.
    DuplicateAttr { catch_all: bool, attr_idx: usize },
    /// `bounds(...)` and `base_bounds` were both supplied.
    BoundsConflict,
    /// The multi-trait driver found no trait-specific configuration at all.
    MissingConfiguration,
}

} // verus!

//! Field resolution: which field wins, and which shapes are rejected.

use delegate_display::model::{
    AttrKind, DataModel, Declaration, DeriveError, FieldDef, FieldStyle, Fields, FmtTrait,
    GenericsModel, VariantDef,
};
use delegate_display::driver::derive_one;
use delegate_display::resolve::MainField;

fn field(name: Option<&str>, ty: &str, attrs: &[&str]) -> FieldDef {
    FieldDef {
        name: name.map(|s| s.to_string()),
        ty: ty.to_string(),
        attrs: attrs.iter().map(|s| s.to_string()).collect(),
    }
}

fn bare_decl(name: &str, data: DataModel) -> Declaration {
    Declaration {
        name: name.to_string(),
        generics: GenericsModel {
            params: vec![],
            type_params: vec![],
            args: vec![],
            predicates: vec![],
        },
        attrs: vec![],
        data,
    }
}

#[test]
fn multi_field_idx_struct() {
    let fields = Fields {
        style: FieldStyle::Tuple,
        list: vec![field(None, "u8", &[]), field(None, "u8", &[])],
    };
    let decl = bare_decl("X", DataModel::Struct(fields));
    assert!(derive_one(&decl, FmtTrait::Display).is_err());
}

#[test]
fn multi_field_named_struct() {
    let fields = Fields {
        style: FieldStyle::Named,
        list: vec![field(Some("x"), "u8", &[]), field(Some("y"), "u8", &[])],
    };
    let decl = bare_decl("X", DataModel::Struct(fields));
    assert!(derive_one(&decl, FmtTrait::Display).is_err());
}

#[test]
fn multi_field_unnamed_enum() {
    let variants = vec![
        VariantDef { name: "A".to_string(), fields: Fields { style: FieldStyle::Unit, list: vec![] } },
        VariantDef {
            name: "B".to_string(),
            fields: Fields {
                style: FieldStyle::Tuple,
                list: vec![field(None, "u8", &[]), field(None, "u16", &[])],
            },
        },
    ];
    let decl = bare_decl("X", DataModel::Enum(variants));
    assert!(derive_one(&decl, FmtTrait::Display).is_err());
}

#[test]
fn multi_field_named_enum() {
    let variants = vec![
        VariantDef { name: "A".to_string(), fields: Fields { style: FieldStyle::Unit, list: vec![] } },
        VariantDef {
            name: "B".to_string(),
            fields: Fields {
                style: FieldStyle::Named,
                list: vec![field(Some("x"), "String", &[]), field(Some("y"), "u8", &[])],
            },
        },
    ];
    let decl = bare_decl("X", DataModel::Enum(variants));
    assert!(derive_one(&decl, FmtTrait::Display).is_err());
}

#[test]
fn unmarked_multi_field_is_no_marker_error() {
    let fields = Fields {
        style: FieldStyle::Tuple,
        list: vec![field(None, "u8", &[]), field(None, "u8", &[])],
    };
    let attr = "ddebug".to_string();
    let r = MainField::resolve_from_fields(&fields, &attr);
    assert_eq!(r.unwrap_err(), DeriveError::NoMarkedField);
}

#[test]
fn single_field_resolves_automatically() {
    let fields = Fields { style: FieldStyle::Named, list: vec![field(Some("foo"), "i8", &[])] };
    let attr = "ddisplay".to_string();
    let mf = MainField::resolve_from_fields(&fields, &attr).unwrap().unwrap();
    assert_eq!(mf.idx, 0);
    assert_eq!(mf.name.as_deref(), Some("foo"));
    assert_eq!(mf.ty, "i8");
    assert_eq!(mf.num_fields, 1);
    assert!(mf.mark.is_none());
}

#[test]
fn empty_field_list_resolves_to_none() {
    let fields = Fields { style: FieldStyle::Unit, list: vec![] };
    let attr = "ddisplay".to_string();
    assert!(MainField::resolve_from_fields(&fields, &attr).unwrap().is_none());
}

#[test]
fn specific_marker_elects_the_field() {
    let fields = Fields {
        style: FieldStyle::Named,
        list: vec![field(Some("label"), "String", &[]), field(Some("value"), "T", &["ddisplay"])],
    };
    let attr = "ddisplay".to_string();
    let mf = MainField::resolve_from_fields(&fields, &attr).unwrap().unwrap();
    assert_eq!(mf.idx, 1);
    assert_eq!(mf.name.as_deref(), Some("value"));
    assert_eq!(mf.mark, Some(AttrKind::Primary));
}

#[test]
fn catch_all_marker_elects_the_field() {
    let fields = Fields {
        style: FieldStyle::Tuple,
        list: vec![field(None, "u8", &[]), field(None, "u16", &["dany"])],
    };
    let attr = "ddebug".to_string();
    let mf = MainField::resolve_from_fields(&fields, &attr).unwrap().unwrap();
    assert_eq!(mf.idx, 1);
    assert_eq!(mf.mark, Some(AttrKind::CatchAll));
}

#[test]
fn specific_marker_beats_catch_all_in_either_order() {
    let attr = "ddebug".to_string();
    let first = Fields {
        style: FieldStyle::Tuple,
        list: vec![field(None, "u8", &["ddebug"]), field(None, "u16", &["dany"])],
    };
    let mf = MainField::resolve_from_fields(&first, &attr).unwrap().unwrap();
    assert_eq!(mf.idx, 0);
    assert_eq!(mf.mark, Some(AttrKind::Primary));
    let second = Fields {
        style: FieldStyle::Tuple,
        list: vec![field(None, "u8", &["dany"]), field(None, "u16", &["ddebug"])],
    };
    let mf = MainField::resolve_from_fields(&second, &attr).unwrap().unwrap();
    assert_eq!(mf.idx, 1);
    assert_eq!(mf.mark, Some(AttrKind::Primary));
}

#[test]
fn two_specific_markers_fail_in_either_order() {
    let attr = "ddebug".to_string();
    let fields = Fields {
        style: FieldStyle::Tuple,
        list: vec![field(None, "u8", &["ddebug"]), field(None, "u16", &["ddebug"])],
    };
    let e = MainField::resolve_from_fields(&fields, &attr).unwrap_err();
    assert_eq!(e, DeriveError::MultipleMarked { catch_all: false, field_idx: 1 });
    let fields = Fields {
        style: FieldStyle::Tuple,
        list: vec![
            field(None, "u8", &["ddebug"]),
            field(None, "u16", &[]),
            field(None, "u32", &["ddebug"]),
        ],
    };
    let e = MainField::resolve_from_fields(&fields, &attr).unwrap_err();
    assert_eq!(e, DeriveError::MultipleMarked { catch_all: false, field_idx: 2 });
}

#[test]
fn two_catch_all_markers_fail_without_a_specific_winner() {
    let attr = "ddebug".to_string();
    let fields = Fields {
        style: FieldStyle::Tuple,
        list: vec![field(None, "u8", &["dany"]), field(None, "u16", &["dany"])],
    };
    let e = MainField::resolve_from_fields(&fields, &attr).unwrap_err();
    assert_eq!(e, DeriveError::MultipleMarked { catch_all: true, field_idx: 1 });
}

#[test]
fn catch_all_yields_once_a_specific_marker_won() {
    // A catch-all marker after a specific winner is simply ignored.
    let attr = "ddebug".to_string();
    let fields = Fields {
        style: FieldStyle::Tuple,
        list: vec![
            field(None, "u8", &["dany"]),
            field(None, "u16", &["ddebug"]),
            field(None, "u32", &["dany"]),
        ],
    };
    let mf = MainField::resolve_from_fields(&fields, &attr).unwrap().unwrap();
    assert_eq!(mf.idx, 1);
    assert_eq!(mf.mark, Some(AttrKind::Primary));
}

#[test]
fn marker_on_both_tiers_counts_as_specific() {
    let attr = "ddebug".to_string();
    let fields = Fields {
        style: FieldStyle::Tuple,
        list: vec![field(None, "u8", &["dany", "ddebug"]), field(None, "u16", &[])],
    };
    let mf = MainField::resolve_from_fields(&fields, &attr).unwrap().unwrap();
    assert_eq!(mf.idx, 0);
    assert_eq!(mf.mark, Some(AttrKind::Primary));
}

#[test]
fn unions_are_rejected() {
    let decl = bare_decl("Foo", DataModel::Union);
    assert_eq!(derive_one(&decl, FmtTrait::Debug).unwrap_err(), DeriveError::UnsupportedUnion);
}

#[test]
fn marked_named_enum_case_elides_siblings() {
    let variants = vec![VariantDef {
        name: "Bar".to_string(),
        fields: Fields {
            style: FieldStyle::Named,
            list: vec![field(Some("baz"), "u8", &[]), field(Some("qux"), "u8", &["ddebug"])],
        },
    }];
    let decl = bare_decl("MyEnum", DataModel::Enum(variants));
    let out = derive_one(&decl, FmtTrait::Debug).unwrap();
    assert_eq!(
        out,
        "#[automatically_derived] impl ::core::fmt::Debug for MyEnum { fn fmt(&self, f: &mut ::core::fmt::Formatter<'_>) -> ::core::fmt::Result { match self { Self::Bar { qux: v, .. } => <u8 as ::core::fmt::Debug>::fmt(v, f) } } }"
    );
}

#[test]
fn marked_tuple_enum_case_binds_by_position() {
    let variants = vec![VariantDef {
        name: "Foo".to_string(),
        fields: Fields {
            style: FieldStyle::Tuple,
            list: vec![field(None, "String", &["ddebug"]), field(None, "u8", &[])],
        },
    }];
    let decl = bare_decl("MyEnum", DataModel::Enum(variants));
    let out = derive_one(&decl, FmtTrait::Debug).unwrap();
    assert_eq!(
        out,
        "#[automatically_derived] impl ::core::fmt::Debug for MyEnum { fn fmt(&self, f: &mut ::core::fmt::Formatter<'_>) -> ::core::fmt::Result { match self { Self::Foo(v, _) => <String as ::core::fmt::Debug>::fmt(v, f) } } }"
    );
}

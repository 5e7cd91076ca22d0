//! Container configuration: collection, merging, precedence and diagnostics.

use delegate_display::driver::{derive_one, error_message};
use delegate_display::model::{
    ContainerAttr, DataModel, Declaration, DeriveError, FieldDef, FieldStyle, Fields, FmtTrait,
    GenericsModel, OptionsInput,
};
use delegate_display::opts::ContainerOptions;
use delegate_display::text::dec_string;

fn options(bounds: &[&str], delegate_to: Option<&str>, base_bounds: bool) -> OptionsInput {
    OptionsInput {
        bounds: bounds.iter().map(|s| s.to_string()).collect(),
        delegate_to: delegate_to.map(|s| s.to_string()),
        base_bounds,
    }
}

fn attr(name: &str, o: OptionsInput) -> ContainerAttr {
    ContainerAttr { name: name.to_string(), options: o }
}

#[test]
fn no_attribute_yields_default_options() {
    let attrs: Vec<ContainerAttr> = vec![];
    let o = ContainerOptions::resolve(&attrs, &"ddebug".to_string()).unwrap();
    assert!(o.bounds.is_empty());
    assert!(o.delegate_to.is_none());
    assert!(!o.base_bounds);
}

#[test]
fn unrelated_attributes_are_ignored() {
    let attrs = vec![attr("ddisplay", options(&["T: Clone"], None, false))];
    let o = ContainerOptions::resolve(&attrs, &"ddebug".to_string()).unwrap();
    assert!(o.bounds.is_empty());
}

#[test]
fn specific_delegate_replaces_catch_all() {
    let attrs = vec![
        attr("dany", options(&[], Some("u8"), false)),
        attr("ddebug", options(&[], Some("str"), false)),
    ];
    let o = ContainerOptions::resolve(&attrs, &"ddebug".to_string()).unwrap();
    assert_eq!(o.delegate_to.as_deref(), Some("str"));
}

#[test]
fn catch_all_delegate_survives_a_silent_specific() {
    let attrs = vec![
        attr("dany", options(&[], Some("u8"), false)),
        attr("ddebug", options(&["T: Debug"], None, false)),
    ];
    let o = ContainerOptions::resolve(&attrs, &"ddebug".to_string()).unwrap();
    assert_eq!(o.delegate_to.as_deref(), Some("u8"));
    assert_eq!(o.bounds, vec!["T: Debug".to_string()]);
}

#[test]
fn bound_lists_concatenate_catch_all_first() {
    let attrs = vec![
        attr("ddebug", options(&["B: Debug"], None, false)),
        attr("dany", options(&["A: Clone"], None, false)),
    ];
    let o = ContainerOptions::resolve(&attrs, &"ddebug".to_string()).unwrap();
    assert_eq!(o.bounds, vec!["A: Clone".to_string(), "B: Debug".to_string()]);
}

#[test]
fn duplicate_specific_attribute_is_an_error() {
    let attrs = vec![
        attr("ddebug", options(&[], None, false)),
        attr("ddebug", options(&[], None, false)),
    ];
    let e = ContainerOptions::resolve(&attrs, &"ddebug".to_string()).unwrap_err();
    assert_eq!(e, DeriveError::DuplicateAttr { catch_all: false, attr_idx: 1 });
}

#[test]
fn duplicate_catch_all_attribute_is_an_error() {
    let attrs = vec![
        attr("dany", options(&[], None, false)),
        attr("ddisplay", options(&[], None, false)),
        attr("dany", options(&[], None, false)),
    ];
    let e = ContainerOptions::resolve(&attrs, &"ddisplay".to_string()).unwrap_err();
    assert_eq!(e, DeriveError::DuplicateAttr { catch_all: true, attr_idx: 2 });
}

#[test]
fn bounds_and_base_bounds_together_are_an_error() {
    let attrs = vec![attr("ddebug", options(&["T: Debug"], None, true))];
    let e = ContainerOptions::resolve(&attrs, &"ddebug".to_string()).unwrap_err();
    assert_eq!(e, DeriveError::BoundsConflict);
    // The conflict is checked on the merged value: catch-all bounds plus a
    // specific base-bounds flag collide too.
    let attrs = vec![
        attr("dany", options(&["T: Debug"], None, false)),
        attr("ddebug", options(&[], None, true)),
    ];
    let e = ContainerOptions::resolve(&attrs, &"ddebug".to_string()).unwrap_err();
    assert_eq!(e, DeriveError::BoundsConflict);
}

#[test]
fn specific_attribute_overrides_catch_all_base_bounds() {
    // The flag follows the specific attribute when one is present, so a
    // catch-all flag combined with specific bounds is no conflict.
    let attrs = vec![
        attr("dany", options(&[], None, true)),
        attr("ddebug", options(&["A: Displayable", "B: Debug"], None, false)),
    ];
    let o = ContainerOptions::resolve(&attrs, &"ddebug".to_string()).unwrap();
    assert!(!o.base_bounds);
    assert_eq!(o.bounds, vec!["A: Displayable".to_string(), "B: Debug".to_string()]);
}

#[test]
fn resolution_errors_reach_the_driver() {
    let fields = Fields { style: FieldStyle::Tuple, list: vec![FieldDef {
        name: None,
        ty: "u8".to_string(),
        attrs: vec![],
    }] };
    let decl = Declaration {
        name: "X".to_string(),
        generics: GenericsModel {
            params: vec![],
            type_params: vec![],
            args: vec![],
            predicates: vec![],
        },
        attrs: vec![
            attr("ddisplay", options(&[], None, false)),
            attr("ddisplay", options(&[], None, false)),
        ],
        data: DataModel::Struct(fields),
    };
    let e = derive_one(&decl, FmtTrait::Display).unwrap_err();
    assert_eq!(e, DeriveError::DuplicateAttr { catch_all: false, attr_idx: 1 });
}

#[test]
fn diagnostic_texts_are_exact() {
    let attr_name = "ddebug".to_string();
    assert_eq!(
        error_message(&DeriveError::UnsupportedUnion, &attr_name),
        "Unions not supported"
    );
    assert_eq!(
        error_message(&DeriveError::MultipleMarked { catch_all: false, field_idx: 1 }, &attr_name),
        "Multiple fields marked with #[ddebug]"
    );
    assert_eq!(
        error_message(&DeriveError::MultipleMarked { catch_all: true, field_idx: 2 }, &attr_name),
        "Multiple fields marked with #[dany]"
    );
    assert_eq!(
        error_message(&DeriveError::NoMarkedField, &attr_name),
        "At least one field must be marked with #[ddebug] or #[dany] on types with more than one field"
    );
    assert_eq!(
        error_message(&DeriveError::DuplicateAttr { catch_all: false, attr_idx: 1 }, &attr_name),
        "Cannot specify `ddebug` more than once"
    );
    assert_eq!(
        error_message(&DeriveError::DuplicateAttr { catch_all: true, attr_idx: 0 }, &attr_name),
        "Cannot specify `dany` more than once"
    );
    assert_eq!(
        error_message(&DeriveError::BoundsConflict, &attr_name),
        "Cannot specify `bounds` and `base_bounds` together"
    );
    assert_eq!(
        error_message(&DeriveError::MissingConfiguration, &attr_name),
        "Missing #[dfmt] attribute."
    );
}

#[test]
fn every_trait_has_its_attribute_and_name() {
    let pairs = [
        (FmtTrait::Binary, "dbinary", "Binary"),
        (FmtTrait::Debug, "ddebug", "Debug"),
        (FmtTrait::Display, "ddisplay", "Display"),
        (FmtTrait::LowerExp, "dlexp", "LowerExp"),
        (FmtTrait::LowerHex, "dlhex", "LowerHex"),
        (FmtTrait::Octal, "doctal", "Octal"),
        (FmtTrait::Pointer, "dpointer", "Pointer"),
        (FmtTrait::UpperExp, "duexp", "UpperExp"),
        (FmtTrait::UpperHex, "duhex", "UpperHex"),
    ];
    for (t, attr_name, trait_name) in pairs {
        assert_eq!(t.attr_name(), attr_name);
        assert_eq!(t.trait_name(), trait_name);
    }
    assert_eq!(FmtTrait::all().len(), 9);
}

#[test]
fn decimal_positions_render_exactly() {
    assert_eq!(dec_string(0), "0");
    assert_eq!(dec_string(7), "7");
    assert_eq!(dec_string(10), "10");
    assert_eq!(dec_string(210), "210");
    assert_eq!(dec_string(usize::MAX), format!("{}", usize::MAX));
}

#[test]
fn deep_tuple_positions_use_decimal_access() {
    let list: Vec<FieldDef> = (0..11)
        .map(|i| FieldDef {
            name: None,
            ty: "u8".to_string(),
            attrs: if i == 10 { vec!["ddebug".to_string()] } else { vec![] },
        })
        .collect();
    let fields = Fields { style: FieldStyle::Tuple, list };
    let decl = Declaration {
        name: "Wide".to_string(),
        generics: GenericsModel {
            params: vec![],
            type_params: vec![],
            args: vec![],
            predicates: vec![],
        },
        attrs: vec![],
        data: DataModel::Struct(fields),
    };
    let out = derive_one(&decl, FmtTrait::Debug).unwrap();
    assert!(out.contains("<u8 as ::core::fmt::Debug>::fmt(&self.10, f)"));
}

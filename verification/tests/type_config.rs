use derivative_attr::dispatch::Config;
use derivative_attr::{
    AttrPath, Attribute, CanonicalMeta, Input, Lit, Meta, NestedMeta, PathSegment,
};

fn predicates(clause: &str) -> Vec<syn::WherePredicate> {
    let clause: syn::WhereClause = syn::parse_str(clause).unwrap();
    clause.predicates.into_iter().collect()
}

fn word(name: &str) -> NestedMeta {
    NestedMeta::Meta(Meta::Word(name.to_string()))
}

fn name_value(name: &str, value: &str) -> NestedMeta {
    NestedMeta::Meta(Meta::NameValue(name.to_string(), Lit::Str(value.to_string())))
}

fn list(name: &str, entries: Vec<(&str, &str)>) -> NestedMeta {
    NestedMeta::Meta(Meta::List(
        name.to_string(),
        entries.into_iter().map(|(key, value)| name_value(key, value)).collect(),
    ))
}

fn attribute(name: &str, meta: Option<Meta>) -> Attribute {
    Attribute {
        path: AttrPath {
            global: false,
            segments: vec![PathSegment { ident: name.to_string(), has_arguments: false }],
        },
        meta,
    }
}

fn derivative(entries: Vec<NestedMeta>) -> Attribute {
    attribute("derivative", Some(Meta::List("derivative".to_string(), entries)))
}

fn derive(names: Vec<&str>) -> Attribute {
    attribute(
        "derive",
        Some(Meta::List("derive".to_string(), names.into_iter().map(word).collect())),
    )
}

fn marker() -> Attribute {
    attribute("rustc_copy_clone_marker", Some(Meta::Word("rustc_copy_clone_marker".to_string())))
}

fn block(name: &str, values: Vec<(&str, Option<&str>)>) -> CanonicalMeta {
    CanonicalMeta {
        name: name.to_string(),
        values: values
            .into_iter()
            .map(|(key, value)| (key.to_string(), value.map(|value| value.to_string())))
            .collect(),
    }
}

fn assert_neutral(input: &Input) {
    assert!(input.clone.is_none());
    assert!(input.copy.is_none());
    assert!(input.debug.is_none());
    assert!(input.default.is_none());
    assert!(input.eq.is_none());
    assert!(input.hash.is_none());
    assert!(input.partial_eq.is_none());
    assert_eq!(input.clone_bound(), None);
    assert_eq!(input.clone_from(), false);
    assert_eq!(input.copy_bound(), None);
    assert_eq!(input.derives_clone(), false);
    assert_eq!(input.debug_bound(), None);
    assert_eq!(input.debug_transparent(), false);
    assert_eq!(input.default_bound(), None);
    assert_eq!(input.default_new(), false);
    assert_eq!(input.eq_bound(), None);
    assert_eq!(input.hash_bound(), None);
    assert_eq!(input.rustc_copy_clone_marker(), false);
    assert_eq!(input.partial_eq_bound(), None);
    assert_eq!(input.partial_eq_on_enum(), false);
}

#[test]
fn a_type_without_attributes_has_no_capability() {
    assert_neutral(&Input::from_ast(&[]).unwrap());
}

#[test]
fn attributes_outside_the_namespace_are_skipped() {
    let attrs = vec![
        derive(vec!["Clone", "Debug"]),
        marker(),
        attribute("doc", Some(Meta::NameValue("doc".to_string(), Lit::Str("text".to_string())))),
        attribute("inline", Some(Meta::Word("inline".to_string()))),
        attribute("unread", None),
        attribute("serde", Some(Meta::List("serde".to_string(), vec![word("Foo")]))),
    ];
    assert_neutral(&Input::from_ast(&attrs).unwrap());
}

#[test]
fn an_empty_derivative_attribute_asks_for_nothing() {
    assert_neutral(&Input::from_ast(&[derivative(vec![])]).unwrap());
}

#[test]
fn the_default_configuration_is_neutral() {
    assert_neutral(&Input::default());
}

#[test]
fn a_bare_capability_is_present_with_neutral_options() {
    let attrs = vec![derivative(vec![
        word("Clone"),
        word("Copy"),
        word("Debug"),
        word("Default"),
        word("Eq"),
        word("Hash"),
        word("PartialEq"),
    ])];
    let input = Input::from_ast(&attrs).unwrap();
    assert!(input.clone.is_some());
    assert!(input.copy.is_some());
    assert!(input.debug.is_some());
    assert!(input.default.is_some());
    assert!(input.eq.is_some());
    assert!(input.hash.is_some());
    assert!(input.partial_eq.is_some());
    assert_eq!(input.clone_bound(), None);
    assert_eq!(input.clone_from(), false);
    assert_eq!(input.copy_bound(), None);
    assert_eq!(input.derives_clone(), false);
    assert_eq!(input.debug_bound(), None);
    assert_eq!(input.debug_transparent(), false);
    assert_eq!(input.default_bound(), None);
    assert_eq!(input.default.as_ref().unwrap().new, false);
    assert_eq!(input.default_new(), false);
    assert_eq!(input.eq_bound(), None);
    assert_eq!(input.hash_bound(), None);
    assert_eq!(input.rustc_copy_clone_marker(), false);
    assert_eq!(input.partial_eq_bound(), None);
    assert_eq!(input.partial_eq_on_enum(), false);
}

#[test]
fn debug_with_a_bound_and_a_bare_toggle() {
    let debug = block("Debug", vec![("bound", Some("T: Copy")), ("transparent", None)]);
    let input = Input::default().apply_block(&[], debug).unwrap();
    let expected = predicates("where T: Copy");
    assert!(input.debug.is_some());
    assert_eq!(input.debug_bound(), Some(&expected[..]));
    assert_eq!(input.debug_transparent(), true);
    assert!(input.clone.is_none());
    assert!(input.partial_eq.is_none());
}

#[test]
fn debug_with_a_bound_and_a_spelled_toggle() {
    let attrs = vec![derivative(vec![list(
        "Debug",
        vec![("bound", "T: Copy"), ("transparent", "true")],
    )])];
    let input = Input::from_ast(&attrs).unwrap();
    let expected = predicates("where T: Copy");
    assert_eq!(input.debug_bound(), Some(&expected[..]));
    assert_eq!(input.debug_transparent(), true);
    assert_eq!(input.debug.as_ref().unwrap().transparent, true);
}

#[test]
fn copy_beside_a_derived_clone() {
    let attrs = vec![derive(vec!["Clone"]), derivative(vec![word("Copy")])];
    let input = Input::from_ast(&attrs).unwrap();
    assert!(input.copy.is_some());
    assert_eq!(input.derives_clone(), true);
    assert_eq!(input.copy_bound(), None);
    assert!(input.clone.is_none());
}

#[test]
fn a_derive_after_the_block_counts_too() {
    let attrs = vec![derivative(vec![word("Copy")]), derive(vec!["Debug", "Clone"])];
    assert_eq!(Input::from_ast(&attrs).unwrap().derives_clone(), true);
}

#[test]
fn copy_without_a_derived_clone() {
    let attrs = vec![derive(vec!["Debug", "Eq"]), derivative(vec![word("Copy")])];
    assert_eq!(Input::from_ast(&attrs).unwrap().derives_clone(), false);
    let attrs = vec![derivative(vec![word("Copy"), word("Clone")])];
    assert_eq!(Input::from_ast(&attrs).unwrap().derives_clone(), false);
    let cloned = attribute("derive", Some(Meta::Word("derive".to_string())));
    assert_eq!(
        Input::from_ast(&[cloned, derivative(vec![word("Copy")])]).unwrap().derives_clone(),
        false
    );
    let literal = attribute(
        "derive",
        Some(Meta::List(
            "derive".to_string(),
            vec![NestedMeta::Literal(Lit::Str("Clone".to_string()))],
        )),
    );
    assert_eq!(
        Input::from_ast(&[literal, derivative(vec![word("Copy")])]).unwrap().derives_clone(),
        false
    );
}

#[test]
fn a_derived_clone_alone_leaves_copy_absent() {
    let input = Input::from_ast(&[derive(vec!["Clone"])]).unwrap();
    assert!(input.copy.is_none());
    assert_eq!(input.derives_clone(), false);
}

#[test]
fn clone_beside_the_marker() {
    let attrs = vec![derivative(vec![word("Clone")]), marker()];
    let input = Input::from_ast(&attrs).unwrap();
    assert_eq!(input.rustc_copy_clone_marker(), true);
    assert_eq!(input.clone.as_ref().unwrap().rustc_copy_clone_marker, true);
    assert_eq!(input.clone_from(), false);
}

#[test]
fn the_marker_is_one_plain_name() {
    let clone = || derivative(vec![word("Clone")]);
    let global = Attribute {
        path: AttrPath {
            global: true,
            segments: vec![PathSegment {
                ident: "rustc_copy_clone_marker".to_string(),
                has_arguments: false,
            }],
        },
        meta: Some(Meta::Word("rustc_copy_clone_marker".to_string())),
    };
    assert_eq!(Input::from_ast(&[clone(), global]).unwrap().rustc_copy_clone_marker(), false);
    let with_arguments = Attribute {
        path: AttrPath {
            global: false,
            segments: vec![PathSegment {
                ident: "rustc_copy_clone_marker".to_string(),
                has_arguments: true,
            }],
        },
        meta: None,
    };
    assert_eq!(
        Input::from_ast(&[clone(), with_arguments]).unwrap().rustc_copy_clone_marker(),
        false
    );
    let longer = Attribute {
        path: AttrPath {
            global: false,
            segments: vec![
                PathSegment { ident: "rustc_copy_clone_marker".to_string(), has_arguments: false },
                PathSegment { ident: "rustc_copy_clone_marker".to_string(), has_arguments: false },
            ],
        },
        meta: None,
    };
    assert_eq!(Input::from_ast(&[clone(), longer]).unwrap().rustc_copy_clone_marker(), false);
    let other = attribute("rustc_copy_clone", None);
    assert_eq!(Input::from_ast(&[clone(), other]).unwrap().rustc_copy_clone_marker(), false);
    let unread = attribute("rustc_copy_clone_marker", None);
    assert_eq!(Input::from_ast(&[clone(), unread]).unwrap().rustc_copy_clone_marker(), true);
}

#[test]
fn the_marker_alone_leaves_clone_absent() {
    let input = Input::from_ast(&[marker()]).unwrap();
    assert!(input.clone.is_none());
    assert_eq!(input.rustc_copy_clone_marker(), false);
}

#[test]
fn every_bare_toggle_of_a_type_is_set() {
    let attrs = vec![derivative(vec![
        name_value("Clone", "clone_from"),
        name_value("Debug", "transparent"),
        name_value("Default", "new"),
        name_value("PartialEq", "feature_allow_slow_enum"),
    ])];
    let input = Input::from_ast(&attrs).unwrap();
    assert_eq!(input.clone_from(), true);
    assert_eq!(input.debug_transparent(), true);
    assert_eq!(input.default.as_ref().unwrap().new, true);
    assert_eq!(input.default_new(), true);
    assert_eq!(input.partial_eq_on_enum(), true);
}

#[test]
fn every_toggle_of_a_type_can_be_spelled() {
    let attrs = vec![derivative(vec![
        list("Clone", vec![("clone_from", "true")]),
        list("Debug", vec![("transparent", "true")]),
        list("Default", vec![("new", "true")]),
        list("PartialEq", vec![("feature_allow_slow_enum", "true")]),
    ])];
    let input = Input::from_ast(&attrs).unwrap();
    assert_eq!(input.clone_from(), true);
    assert_eq!(input.debug_transparent(), true);
    assert_eq!(input.default.as_ref().unwrap().new, true);
    assert_eq!(input.default_new(), true);
    assert_eq!(input.partial_eq_on_enum(), true);
    let attrs = vec![derivative(vec![
        list("Clone", vec![("clone_from", "false")]),
        list("Debug", vec![("transparent", "false")]),
        list("Default", vec![("new", "false")]),
        list("PartialEq", vec![("feature_allow_slow_enum", "false")]),
    ])];
    let input = Input::from_ast(&attrs).unwrap();
    assert_eq!(input.clone_from(), false);
    assert_eq!(input.debug_transparent(), false);
    assert_eq!(input.default.as_ref().unwrap().new, false);
    assert_eq!(input.default_new(), false);
    assert_eq!(input.partial_eq_on_enum(), false);
}

#[test]
fn a_later_toggle_wins() {
    let attrs = vec![derivative(vec![
        name_value("Debug", "transparent"),
        list("Debug", vec![("transparent", "false")]),
    ])];
    assert_eq!(Input::from_ast(&attrs).unwrap().debug_transparent(), false);
    let attrs = vec![derivative(vec![list(
        "Debug",
        vec![("transparent", "false"), ("transparent", "true")],
    )])];
    assert_eq!(Input::from_ast(&attrs).unwrap().debug_transparent(), true);
}

#[test]
fn a_misspelled_toggle_payload_is_refused() {
    for (capability, toggle) in [
        ("Clone", "clone_from"),
        ("Debug", "transparent"),
        ("Default", "new"),
        ("PartialEq", "feature_allow_slow_enum"),
    ] {
        let attrs = vec![derivative(vec![list(capability, vec![(toggle, "maybe")])])];
        assert_eq!(
            Input::from_ast(&attrs).unwrap_err(),
            format!("invalid value for `{}`", toggle)
        );
    }
}

#[test]
fn every_capability_of_a_type_takes_a_bound() {
    let attrs = vec![derivative(vec![
        list("Clone", vec![("bound", "A: Clone")]),
        list("Copy", vec![("bound", "B: Copy")]),
        list("Debug", vec![("bound", "C: Debug")]),
        list("Default", vec![("bound", "D: Default")]),
        list("Eq", vec![("bound", "E: Eq")]),
        list("Hash", vec![("bound", "F: Hash")]),
        list("PartialEq", vec![("bound", "G: PartialEq")]),
    ])];
    let input = Input::from_ast(&attrs).unwrap();
    assert_eq!(input.clone_bound(), Some(&predicates("where A: Clone")[..]));
    assert_eq!(input.copy_bound(), Some(&predicates("where B: Copy")[..]));
    assert_eq!(input.debug_bound(), Some(&predicates("where C: Debug")[..]));
    assert_eq!(input.default_bound(), Some(&predicates("where D: Default")[..]));
    assert_eq!(input.eq_bound(), Some(&predicates("where E: Eq")[..]));
    assert_eq!(input.hash_bound(), Some(&predicates("where F: Hash")[..]));
    assert_eq!(input.partial_eq_bound(), Some(&predicates("where G: PartialEq")[..]));
}

#[test]
fn an_empty_bound_makes_the_list_present_and_empty() {
    let attrs = vec![derivative(vec![list("Eq", vec![("bound", "")])])];
    let input = Input::from_ast(&attrs).unwrap();
    assert_eq!(input.eq_bound(), Some(&[][..]));
}

#[test]
fn two_blocks_come_to_one_with_the_options_of_both() {
    let twice = vec![derivative(vec![
        list("Debug", vec![("bound", "T: Copy")]),
        list("Debug", vec![("transparent", "true"), ("bound", "U: Clone")]),
    ])];
    let apart = vec![
        derivative(vec![list("Debug", vec![("bound", "T: Copy")])]),
        derive(vec!["Clone"]),
        derivative(vec![list("Debug", vec![("transparent", "true"), ("bound", "U: Clone")])]),
    ];
    let once = vec![derivative(vec![list(
        "Debug",
        vec![("bound", "T: Copy"), ("transparent", "true"), ("bound", "U: Clone")],
    )])];
    let expected = predicates("where T: Copy, U: Clone");
    for attrs in [twice, apart, once] {
        let input = Input::from_ast(&attrs).unwrap();
        assert_eq!(input.debug_bound(), Some(&expected[..]));
        assert_eq!(input.debug_transparent(), true);
        assert!(input.clone.is_none());
    }
}

#[test]
fn the_order_of_two_blocks_is_the_order_of_their_bounds() {
    let attrs = vec![derivative(vec![
        list("Hash", vec![("bound", "U: Hash")]),
        list("Hash", vec![("bound", "T: Hash")]),
    ])];
    let input = Input::from_ast(&attrs).unwrap();
    assert_eq!(input.hash_bound(), Some(&predicates("where U: Hash, T: Hash")[..]));
    assert_ne!(input.hash_bound(), Some(&predicates("where T: Hash, U: Hash")[..]));
}

#[test]
fn blocks_of_other_capabilities_do_not_interfere() {
    let attrs = vec![derivative(vec![
        list("Clone", vec![("bound", "T: Clone")]),
        name_value("Debug", "transparent"),
        list("Clone", vec![("clone_from", "true")]),
    ])];
    let input = Input::from_ast(&attrs).unwrap();
    assert_eq!(input.clone_bound(), Some(&predicates("where T: Clone")[..]));
    assert_eq!(input.clone_from(), true);
    assert_eq!(input.debug_transparent(), true);
    assert_eq!(input.debug_bound(), None);
}

#[test]
fn an_unknown_capability_is_refused() {
    let attrs = vec![derivative(vec![word("Foo")])];
    assert_eq!(Input::from_ast(&attrs).unwrap_err(), "unknown trait `Foo`".to_string());
    let attrs = vec![derivative(vec![word("Debug"), list("clone", vec![("bound", "")])])];
    assert_eq!(Input::from_ast(&attrs).unwrap_err(), "unknown trait `clone`".to_string());
    let attrs = vec![derivative(vec![word("")])];
    assert_eq!(Input::from_ast(&attrs).unwrap_err(), "unknown trait ``".to_string());
}

#[test]
fn an_unknown_option_is_refused() {
    for capability in ["Clone", "Copy", "Debug", "Default", "Eq", "Hash", "PartialEq"] {
        let attrs = vec![derivative(vec![list(capability, vec![("bogus", "true")])])];
        assert_eq!(Input::from_ast(&attrs).unwrap_err(), "unknown attribute `bogus`".to_string());
    }
    let attrs = vec![derivative(vec![name_value("Copy", "clone_from")])];
    assert_eq!(Input::from_ast(&attrs).unwrap_err(), "unknown attribute `clone_from`".to_string());
    let attrs = vec![derivative(vec![name_value("Debug", "ignore")])];
    assert_eq!(Input::from_ast(&attrs).unwrap_err(), "unknown attribute `ignore`".to_string());
    let attrs = vec![derivative(vec![name_value("Eq", "not an identifier")])];
    assert_eq!(
        Input::from_ast(&attrs).unwrap_err(),
        "unknown attribute `not an identifier`".to_string()
    );
}

#[test]
fn a_bare_bound_is_refused() {
    for capability in ["Clone", "Copy", "Debug", "Default", "Eq", "Hash", "PartialEq"] {
        let attrs = vec![derivative(vec![name_value(capability, "bound")])];
        assert_eq!(Input::from_ast(&attrs).unwrap_err(), "`bound` needs a value".to_string());
    }
}

#[test]
fn a_malformed_bound_is_refused() {
    let expected = syn::parse_str::<syn::WhereClause>("where T:: :").unwrap_err().to_string();
    let attrs = vec![derivative(vec![list("Debug", vec![("bound", "T:: :")])])];
    assert_eq!(Input::from_ast(&attrs).unwrap_err(), expected);
}

#[test]
fn a_malformed_entry_is_refused() {
    let attrs = vec![derivative(vec![NestedMeta::Literal(Lit::Str("Debug".to_string()))])];
    assert_eq!(
        Input::from_ast(&attrs).unwrap_err(),
        "Expected meta but found literal".to_string()
    );
    let attrs = vec![derivative(vec![NestedMeta::Meta(Meta::List(
        "Debug".to_string(),
        vec![word("transparent")],
    ))])];
    assert_eq!(Input::from_ast(&attrs).unwrap_err(), "expected named value".to_string());
    let attrs =
        vec![derivative(vec![NestedMeta::Meta(Meta::NameValue("Debug".to_string(), Lit::Other))])];
    assert_eq!(Input::from_ast(&attrs).unwrap_err(), "expected string".to_string());
    let attrs = vec![derivative(vec![NestedMeta::Meta(Meta::List(
        "Debug".to_string(),
        vec![NestedMeta::Meta(Meta::NameValue("bound".to_string(), Lit::Other))],
    ))])];
    assert_eq!(Input::from_ast(&attrs).unwrap_err(), "expected named value".to_string());
}

#[test]
fn the_first_failure_in_source_order_is_reported() {
    let attrs = vec![
        derivative(vec![word("Debug"), list("Eq", vec![("bogus", "")]), word("Foo")]),
        derivative(vec![NestedMeta::Literal(Lit::Other)]),
    ];
    assert_eq!(Input::from_ast(&attrs).unwrap_err(), "unknown attribute `bogus`".to_string());
    let attrs = vec![
        derivative(vec![word("Debug"), word("Foo"), list("Eq", vec![("bogus", "")])]),
        derivative(vec![NestedMeta::Literal(Lit::Other)]),
    ];
    assert_eq!(Input::from_ast(&attrs).unwrap_err(), "unknown trait `Foo`".to_string());
    let attrs = vec![
        derivative(vec![NestedMeta::Literal(Lit::Other)]),
        derivative(vec![word("Foo")]),
    ];
    assert_eq!(
        Input::from_ast(&attrs).unwrap_err(),
        "Expected meta but found literal".to_string()
    );
}

#[test]
fn blocks_without_a_common_option_can_be_swapped() {
    let forth = vec![derivative(vec![
        list("PartialEq", vec![("bound", "T: Eq"), ("bound", "U: Eq")]),
        list("PartialEq", vec![("feature_allow_slow_enum", "true")]),
    ])];
    let back = vec![derivative(vec![
        list("PartialEq", vec![("feature_allow_slow_enum", "true")]),
        list("PartialEq", vec![("bound", "T: Eq"), ("bound", "U: Eq")]),
    ])];
    let forth = Input::from_ast(&forth).unwrap();
    let back = Input::from_ast(&back).unwrap();
    assert_eq!(format!("{:?}", forth), format!("{:?}", back));
    assert_eq!(back.partial_eq_bound(), Some(&predicates("where T: Eq, U: Eq")[..]));
    assert_eq!(back.partial_eq_on_enum(), true);
}

#[test]
fn swapped_blocks_hold_the_same_bounds() {
    let first = || block("Clone", vec![("bound", Some("T: Clone")), ("clone_from", Some("false"))]);
    let second = || block("Clone", vec![("clone_from", None), ("bound", Some("U: Clone, V: Clone"))]);
    let forth =
        Input::default().apply_block(&[], first()).unwrap().apply_block(&[], second()).unwrap();
    let back =
        Input::default().apply_block(&[], second()).unwrap().apply_block(&[], first()).unwrap();
    assert_eq!(forth.clone_bound(), Some(&predicates("where T: Clone, U: Clone, V: Clone")[..]));
    assert_eq!(back.clone_bound(), Some(&predicates("where U: Clone, V: Clone, T: Clone")[..]));
    assert_eq!(forth.clone_from(), true);
    assert_eq!(back.clone_from(), false);
    for fragment in forth.clone_bound().unwrap() {
        let there = back.clone_bound().unwrap().iter().filter(|other| *other == fragment).count();
        let here = forth.clone_bound().unwrap().iter().filter(|other| *other == fragment).count();
        assert_eq!(here, there);
    }
    assert_eq!(forth.clone_bound().unwrap().len(), back.clone_bound().unwrap().len());
}

#[test]
fn swapped_blocks_are_refused_together() {
    let good = || block("Debug", vec![("bound", Some("T: Debug"))]);
    let bad = || block("Debug", vec![("transparent", Some("perhaps"))]);
    assert!(Input::default().apply_block(&[], good()).unwrap().apply_block(&[], bad()).is_err());
    assert!(Input::default().apply_block(&[], bad()).is_err());
}

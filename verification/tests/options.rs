use derivative_attr::options::{
    as_slice, parse_boolean_meta_item, parse_bound, parse_expr_value, parse_options,
    parse_path_value, BoundList, OptionGroup,
};

fn predicates(clause: &str) -> Vec<syn::WherePredicate> {
    let clause: syn::WhereClause = syn::parse_str(clause).unwrap();
    clause.predicates.into_iter().collect()
}

fn some(text: &str) -> Option<String> {
    Some(text.to_string())
}

#[test]
fn a_bare_toggle_takes_its_default() {
    assert_eq!(parse_boolean_meta_item(None, true, "ignore"), Ok(true));
    assert_eq!(parse_boolean_meta_item(None, false, "ignore"), Ok(false));
}

#[test]
fn a_toggle_spells_true_or_false() {
    assert_eq!(parse_boolean_meta_item(some("true"), false, "new"), Ok(true));
    assert_eq!(parse_boolean_meta_item(some("false"), true, "new"), Ok(false));
}

#[test]
fn any_other_toggle_payload_is_refused() {
    assert_eq!(
        parse_boolean_meta_item(some("yes"), true, "clone_from"),
        Err("invalid value for `clone_from`".to_string())
    );
    assert_eq!(
        parse_boolean_meta_item(some(""), true, "ignore"),
        Err("invalid value for `ignore`".to_string())
    );
    assert_eq!(
        parse_boolean_meta_item(some("True"), true, "transparent"),
        Err("invalid value for `transparent`".to_string())
    );
    assert_eq!(
        parse_boolean_meta_item(some("true "), true, "feature_allow_slow_enum"),
        Err("invalid value for `feature_allow_slow_enum`".to_string())
    );
}

#[test]
fn a_bound_needs_a_value() {
    let mut bounds = None;
    assert_eq!(parse_bound(&mut bounds, None), Err("`bound` needs a value".to_string()));
    assert_eq!(bounds, None);
}

#[test]
fn a_bound_adds_its_predicates() {
    let mut bounds = None;
    assert_eq!(parse_bound(&mut bounds, some("T: Copy")), Ok(()));
    assert_eq!(bounds, Some(predicates("where T: Copy")));
}

#[test]
fn bounds_accumulate_in_their_order() {
    let mut bounds = None;
    assert_eq!(parse_bound(&mut bounds, some("T: Copy, U: Clone")), Ok(()));
    assert_eq!(parse_bound(&mut bounds, some("V: Default")), Ok(()));
    assert_eq!(bounds, Some(predicates("where T: Copy, U: Clone, V: Default")));
    assert_ne!(bounds, Some(predicates("where V: Default, T: Copy, U: Clone")));
}

#[test]
fn an_empty_bound_adds_nothing() {
    let mut bounds = None;
    assert_eq!(parse_bound(&mut bounds, some("")), Ok(()));
    assert_eq!(bounds, Some(vec![]));
    assert_eq!(parse_bound(&mut bounds, some("T: Copy")), Ok(()));
    assert_eq!(parse_bound(&mut bounds, some("")), Ok(()));
    assert_eq!(bounds, Some(predicates("where T: Copy")));
}

#[test]
fn a_malformed_bound_is_refused_in_syns_words() {
    let expected = syn::parse_str::<syn::WhereClause>("where T: :").unwrap_err().to_string();
    let mut bounds = Some(predicates("where T: Copy"));
    assert_eq!(parse_bound(&mut bounds, some("T: :")), Err(expected));
    assert_eq!(bounds, Some(predicates("where T: Copy")));
}

#[test]
fn a_bound_list_is_handed_out_as_a_slice() {
    assert_eq!(as_slice(&None), None);
    let bounds = Some(predicates("where T: Copy, U: Clone"));
    let expected = predicates("where T: Copy, U: Clone");
    assert_eq!(as_slice(&bounds), Some(&expected[..]));
}

#[test]
fn a_path_needs_a_value() {
    assert_eq!(
        parse_path_value("clone_with", None),
        Err("`clone_with` needs a value".to_string())
    );
    assert_eq!(
        parse_path_value("format_with", None),
        Err("`format_with` needs a value".to_string())
    );
}

#[test]
fn a_path_is_read_by_syn() {
    let expected: syn::Path = syn::parse_str("std::fmt::Debug::fmt").unwrap();
    assert_eq!(parse_path_value("format_with", some("std::fmt::Debug::fmt")), Ok(expected));
    let other: syn::Path = syn::parse_str("my_hash").unwrap();
    assert_ne!(parse_path_value("hash_with", some("std::fmt::Debug::fmt")), Ok(other));
}

#[test]
fn a_malformed_path_is_refused_in_syns_words() {
    let expected = syn::parse_str::<syn::Path>("1 + 1").unwrap_err().to_string();
    assert_eq!(parse_path_value("hash_with", some("1 + 1")), Err(expected));
    let unlexed = syn::parse_str::<syn::Path>("\"open").unwrap_err().to_string();
    assert_eq!(parse_path_value("hash_with", some("\"open")), Err(unlexed));
}

#[test]
fn an_expression_needs_a_value() {
    assert_eq!(parse_expr_value("value", None), Err("`value` needs a value".to_string()));
}

#[test]
fn an_expression_is_read_by_syn() {
    let expected: syn::Expr = syn::parse_str("42").unwrap();
    assert_eq!(parse_expr_value("value", some("42")), Ok(expected));
    let other: syn::Expr = syn::parse_str("43").unwrap();
    assert_ne!(parse_expr_value("value", some("42")), Ok(other));
}

#[test]
fn a_malformed_expression_is_refused_in_syns_words() {
    let expected = syn::parse_str::<syn::Expr>("+").unwrap_err().to_string();
    assert_eq!(parse_expr_value("value", some("+")), Err(expected));
}

#[test]
fn a_bound_list_takes_bound_only() {
    let group = BoundList { bounds: None };
    let group = group.set_option("bound", some("T: Eq")).unwrap();
    assert_eq!(group.bounds, Some(predicates("where T: Eq")));
    assert_eq!(
        group.set_option("ignore", None).unwrap_err(),
        "unknown attribute `ignore`".to_string()
    );
}

#[test]
fn options_are_read_in_their_order() {
    let values = vec![
        ("bound".to_string(), some("T: Eq")),
        ("bound".to_string(), some("")),
        ("bound".to_string(), some("U: Eq")),
    ];
    let group = parse_options(BoundList { bounds: None }, &values).unwrap();
    assert_eq!(group.bounds, Some(predicates("where T: Eq, U: Eq")));
}

#[test]
fn the_first_refused_option_ends_the_reading() {
    let values = vec![
        ("bound".to_string(), some("T: Eq")),
        ("bogus".to_string(), None),
        ("bound".to_string(), None),
    ];
    assert_eq!(
        parse_options(BoundList { bounds: None }, &values).unwrap_err(),
        "unknown attribute `bogus`".to_string()
    );
}

#[test]
fn no_options_leave_the_record_as_it_was() {
    let group = parse_options(BoundList { bounds: None }, &vec![]).unwrap();
    assert_eq!(group.bounds, None);
}

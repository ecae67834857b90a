use derivative_attr::meta::{derivative_attribute, read_meta, string_or_err};
use derivative_attr::{AttrPath, Attribute, CanonicalMeta, Lit, Meta, NestedMeta, PathSegment};

fn text(value: &str) -> Lit {
    Lit::Str(value.to_string())
}

fn word(name: &str) -> NestedMeta {
    NestedMeta::Meta(Meta::Word(name.to_string()))
}

fn name_value(name: &str, value: &str) -> NestedMeta {
    NestedMeta::Meta(Meta::NameValue(name.to_string(), text(value)))
}

fn list(name: &str, entries: Vec<NestedMeta>) -> NestedMeta {
    NestedMeta::Meta(Meta::List(name.to_string(), entries))
}

fn attribute(name: &str, meta: Option<Meta>) -> Attribute {
    Attribute {
        path: AttrPath {
            global: false,
            segments: vec![PathSegment { ident: name.to_string(), has_arguments: false }],
        },
        meta,
    }
}

fn canonical(name: &str, values: Vec<(&str, Option<&str>)>) -> CanonicalMeta {
    CanonicalMeta {
        name: name.to_string(),
        values: values
            .into_iter()
            .map(|(key, value)| (key.to_string(), value.map(|value| value.to_string())))
            .collect(),
    }
}

#[test]
fn a_string_literal_gives_its_value() {
    assert_eq!(string_or_err(&text("T: Copy")), Ok("T: Copy".to_string()));
    assert_eq!(string_or_err(&text("")), Ok(String::new()));
}

#[test]
fn another_literal_is_not_a_string() {
    assert_eq!(string_or_err(&Lit::Other), Err("expected string".to_string()));
}

#[test]
fn a_derivative_list_gives_its_entries() {
    let entries = vec![word("Debug"), name_value("Clone", "clone_from")];
    let attr = attribute("derivative", Some(Meta::List("derivative".to_string(), entries)));
    let content = derivative_attribute(&attr).unwrap();
    assert_eq!(content, &vec![word("Debug"), name_value("Clone", "clone_from")]);
}

#[test]
fn an_empty_derivative_list_gives_no_entry() {
    let attr = attribute("derivative", Some(Meta::List("derivative".to_string(), vec![])));
    assert_eq!(derivative_attribute(&attr), Some(&vec![]));
}

#[test]
fn other_attributes_are_skipped() {
    let derive = attribute("derive", Some(Meta::List("derive".to_string(), vec![word("Clone")])));
    assert_eq!(derivative_attribute(&derive), None);
    let bare = attribute("derivative", Some(Meta::Word("derivative".to_string())));
    assert_eq!(derivative_attribute(&bare), None);
    let valued = attribute(
        "derivative",
        Some(Meta::NameValue("derivative".to_string(), text("Debug"))),
    );
    assert_eq!(derivative_attribute(&valued), None);
    let unread = attribute("derivative", None);
    assert_eq!(derivative_attribute(&unread), None);
}

#[test]
fn a_bare_name_has_no_options() {
    assert_eq!(read_meta(&word("Debug")), Ok(canonical("Debug", vec![])));
}

#[test]
fn a_name_with_a_string_has_the_string_as_its_option() {
    assert_eq!(
        read_meta(&name_value("Debug", "transparent")),
        Ok(canonical("Debug", vec![("transparent", None)]))
    );
}

#[test]
fn a_name_with_a_list_has_the_pairs_as_its_options() {
    let entry = list("Debug", vec![name_value("bound", "T: Copy"), name_value("transparent", "true")]);
    assert_eq!(
        read_meta(&entry),
        Ok(canonical("Debug", vec![("bound", Some("T: Copy")), ("transparent", Some("true"))]))
    );
}

#[test]
fn a_name_with_an_empty_list_has_no_options() {
    assert_eq!(read_meta(&list("Eq", vec![])), Ok(canonical("Eq", vec![])));
}

#[test]
fn options_may_repeat() {
    let entry = list("Eq", vec![name_value("bound", "T: Eq"), name_value("bound", "U: Eq")]);
    assert_eq!(
        read_meta(&entry),
        Ok(canonical("Eq", vec![("bound", Some("T: Eq")), ("bound", Some("U: Eq"))]))
    );
}

#[test]
fn a_literal_is_no_block() {
    assert_eq!(
        read_meta(&NestedMeta::Literal(text("Debug"))),
        Err("Expected meta but found literal".to_string())
    );
    assert_eq!(
        read_meta(&NestedMeta::Literal(Lit::Other)),
        Err("Expected meta but found literal".to_string())
    );
}

#[test]
fn a_name_with_another_literal_is_refused() {
    let entry = NestedMeta::Meta(Meta::NameValue("Debug".to_string(), Lit::Other));
    assert_eq!(read_meta(&entry), Err("expected string".to_string()));
}

#[test]
fn a_list_takes_named_values_only() {
    let bare = list("Debug", vec![name_value("bound", "T: Copy"), word("transparent")]);
    assert_eq!(read_meta(&bare), Err("expected named value".to_string()));
    let nested = list("Debug", vec![list("bound", vec![])]);
    assert_eq!(read_meta(&nested), Err("expected named value".to_string()));
    let literal = list("Debug", vec![NestedMeta::Literal(text("transparent"))]);
    assert_eq!(read_meta(&literal), Err("expected named value".to_string()));
}

#[test]
fn a_list_takes_string_payloads_only() {
    let entry = list(
        "Debug",
        vec![NestedMeta::Meta(Meta::NameValue("transparent".to_string(), Lit::Other))],
    );
    assert_eq!(read_meta(&entry), Err("expected named value".to_string()));
    let entry = list(
        "Debug",
        vec![
            name_value("bound", "T: Copy"),
            NestedMeta::Meta(Meta::NameValue("bound".to_string(), Lit::Other)),
        ],
    );
    assert_eq!(read_meta(&entry), Err("expected named value".to_string()));
}

#[test]
fn the_first_bad_entry_of_a_list_is_reported() {
    let entry = list(
        "Debug",
        vec![
            name_value("bound", ""),
            NestedMeta::Meta(Meta::NameValue("transparent".to_string(), Lit::Other)),
            word("bound"),
        ],
    );
    assert_eq!(read_meta(&entry), Err("expected named value".to_string()));
    let entry = list(
        "Debug",
        vec![
            word("bound"),
            NestedMeta::Meta(Meta::NameValue("transparent".to_string(), Lit::Other)),
        ],
    );
    assert_eq!(read_meta(&entry), Err("expected named value".to_string()));
}

#[test]
fn a_reading_starts_with_its_name() {
    assert_eq!(Meta::Word("Clone".to_string()).name(), "Clone");
    assert_eq!(Meta::List("derive".to_string(), vec![]).name(), "derive");
    assert_eq!(Meta::NameValue("doc".to_string(), Lit::Other).name(), "doc");
}

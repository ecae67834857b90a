//! Annotations as this library reads them: an attribute's path, the
//! structured reading of its tokens, and the canonical form to which every
//! block of the namespace is brought.

use vstd::prelude::*;
use vstd::string::*;
use crate::failure::{Failure, reports_view, expected_meta, expected_named_value, expected_string};
use crate::text::same_text;

verus! {

/// A literal: a string, by its value, or a literal of any other kind.
#[derive(Debug, PartialEq, Eq)]
pub enum Lit {
    Str(String),
    Other,
}

/// The structured reading of an attribute's tokens.
#[derive(Debug, PartialEq, Eq)]
pub enum Meta {
    /// A bare name, as in `Debug`.
    Word(String),
    /// A name with a list, as in `Debug(bound = "T: Copy", transparent = "true")`.
    List(String, Vec<NestedMeta>),
    /// A name with a literal, as in `Debug = "transparent"`.
    NameValue(String, Lit),
}

/// An entry of a [`Meta::List`].
#[derive(Debug, PartialEq, Eq)]
pub enum NestedMeta {
    Meta(Meta),
    Literal(Lit),
}

/// A segment of an attribute's path.
#[derive(Debug, PartialEq, Eq)]
pub struct PathSegment {
    pub ident: String,
    /// Whether generic arguments follow the name.
    pub has_arguments: bool,
}

/// The path that names an attribute.
#[derive(Debug, PartialEq, Eq)]
pub struct AttrPath {
    /// Whether the path starts with `::`.
    pub global: bool,
    pub segments: Vec<PathSegment>,
}

/// An attribute of a declaration or of a field.
#[derive(Debug, PartialEq, Eq)]
pub struct Attribute {
    pub path: AttrPath,
    /// The reading of the attribute's tokens, where they have one.
    pub meta: Option<Meta>,
}

/// A block of the namespace in canonical form: the capability or option that
/// it names, and its options in source order. `Debug` has no options,
/// `Debug = "foo"` has the option `foo` without a payload, and
/// `Debug(foo = "bar")` has the option `foo` with the payload `bar`.
#[derive(Debug, PartialEq, Eq)]
pub struct CanonicalMeta {
    pub name: String,
    pub values: Vec<(String, Option<String>)>,
}

/// [`CanonicalMeta`] as the contracts see it: every string a sequence of
/// characters.
pub struct CanonicalMetaView {
    pub name: Seq<char>,
    pub values: Seq<(Seq<char>, Option<Seq<char>>)>,
}

impl View for CanonicalMeta {
    type V = CanonicalMetaView;

    open spec fn view(&self) -> CanonicalMetaView {
        CanonicalMetaView { name: self.name@, values: self.values.deep_view() }
    }
}

impl Meta {
    /// The name that the reading starts with.
    pub open spec fn ident(self) -> String {
        match self {
            Meta::Word(name) => name,
            Meta::List(name, _) => name,
            Meta::NameValue(name, _) => name,
        }
    }

    pub fn name(&self) -> (name: &String)
        ensures
            *name == self.ident(),
    {
        match self {
            Meta::Word(name) => name,
            Meta::List(name, _) => name,
            Meta::NameValue(name, _) => name,
        }
    }
}

/// The entries of the attribute, where it belongs to the namespace: where its
/// tokens read as a list under the name `derivative`.
pub open spec fn namespace_content(attr: Attribute) -> Option<Seq<NestedMeta>> {
    match attr.meta {
        Some(Meta::List(name, nested)) => if name@ == "derivative"@ {
            Some(nested@)
        } else {
            None
        },
        _ => None,
    }
}

/// The entries of a `derivative` attribute; `None` for any other attribute.
pub fn derivative_attribute(attr: &Attribute) -> (content: Option<&Vec<NestedMeta>>)
    ensures
        match namespace_content(*attr) {
            Some(entries) => content is Some && content->0@ == entries,
            None => content is None,
        },
{
    match &attr.meta {
        Some(Meta::List(name, nested)) => {
            if same_text(name.as_str(), "derivative") {
                Some(nested)
            } else {
                None
            }
        },
        _ => None,
    }
}

/// The value of a string literal; any other literal is refused.
pub open spec fn string_value(lit: Lit) -> Result<Seq<char>, Failure> {
    match lit {
        Lit::Str(text) => Ok(text@),
        Lit::Other => Err(Failure::ExpectedString),
    }
}

/// The string out of a string literal, or an error for any other literal.
pub fn string_or_err(lit: &Lit) -> (text: Result<String, String>)
    ensures
        reports_view(text, string_value(*lit)),
{
    match lit {
        Lit::Str(text) => Ok(text.clone()),
        Lit::Other => Err(expected_string()),
    }
}

/// The option that an entry of a block's list stands for. The entry has to be
/// of the form `name = "payload"`: a bare name, a nested list, a literal and a
/// name with a literal that is no string are all refused alike.
pub open spec fn named_value(entry: NestedMeta) -> Result<(Seq<char>, Option<Seq<char>>), Failure> {
    match entry {
        NestedMeta::Meta(Meta::NameValue(name, Lit::Str(text))) => Ok((name@, Some(text@))),
        _ => Err(Failure::ExpectedNamedValue),
    }
}

/// The options that the entries of a block's list stand for, in their order,
/// or the failure of the first entry that stands for none.
pub open spec fn named_values(entries: Seq<NestedMeta>) -> Result<
    Seq<(Seq<char>, Option<Seq<char>>)>,
    Failure,
>
    decreases entries.len(),
{
    if entries.len() == 0 {
        Ok(Seq::empty())
    } else {
        match named_value(entries[0]) {
            Err(failure) => Err(failure),
            Ok(first) => match named_values(entries.skip(1)) {
                Err(failure) => Err(failure),
                Ok(rest) => Ok(seq![first] + rest),
            },
        }
    }
}

/// The canonical form of an entry of a `derivative` attribute.
pub open spec fn canonical(entry: NestedMeta) -> Result<CanonicalMetaView, Failure> {
    match entry {
        NestedMeta::Literal(_) => Err(Failure::ExpectedMeta),
        NestedMeta::Meta(Meta::Word(name)) => Ok(
            CanonicalMetaView { name: name@, values: Seq::empty() },
        ),
        NestedMeta::Meta(Meta::List(name, nested)) => match named_values(nested@) {
            Ok(values) => Ok(CanonicalMetaView { name: name@, values }),
            Err(failure) => Err(failure),
        },
        NestedMeta::Meta(Meta::NameValue(name, lit)) => match string_value(lit) {
            Ok(text) => Ok(CanonicalMetaView { name: name@, values: seq![(text, None)] }),
            Err(failure) => Err(failure),
        },
    }
}

fn read_named_value(entry: &NestedMeta) -> (option: Result<(String, Option<String>), String>)
    ensures
        match named_value(*entry) {
            Ok(expected) => option is Ok && option->Ok_0.deep_view() == expected,
            Err(failure) => option is Err && failure.rendered_as(option->Err_0),
        },
{
    match entry {
        NestedMeta::Meta(Meta::NameValue(name, Lit::Str(text))) => Ok(
            (name.clone(), Some(text.clone())),
        ),
        _ => Err(expected_named_value()),
    }
}

/// `done`, followed by what `rest` gives.
spec fn after(
    done: Seq<(Seq<char>, Option<Seq<char>>)>,
    rest: Result<Seq<(Seq<char>, Option<Seq<char>>)>, Failure>,
) -> Result<Seq<(Seq<char>, Option<Seq<char>>)>, Failure> {
    match rest {
        Ok(more) => Ok(done + more),
        Err(failure) => Err(failure),
    }
}

/// Brings an entry of a `derivative` attribute to its canonical form.
pub fn read_meta(meta: &NestedMeta) -> (block: Result<CanonicalMeta, String>)
    ensures
        reports_view(block, canonical(*meta)),
{
    match meta {
        NestedMeta::Literal(_) => Err(expected_meta()),
        NestedMeta::Meta(Meta::Word(name)) => {
            let values: Vec<(String, Option<String>)> = Vec::new();
            assert(values.deep_view() =~= Seq::empty());
            Ok(CanonicalMeta { name: name.clone(), values })
        },
        NestedMeta::Meta(Meta::List(name, nested)) => {
            let mut values: Vec<(String, Option<String>)> = Vec::new();
            let mut i: usize = 0;
            assert(nested@.skip(0) =~= nested@);
            assert(values.deep_view() =~= Seq::empty());
            assert(after(values.deep_view(), named_values(nested@)) == named_values(nested@)) by {
                if let Ok(more) = named_values(nested@) {
                    assert(Seq::<(Seq<char>, Option<Seq<char>>)>::empty() + more =~= more);
                }
            }
            while i < nested.len()
                invariant
                    i <= nested.len(),
                    *meta == NestedMeta::Meta(Meta::List(*name, *nested)),
                    named_values(nested@) == after(
                        values.deep_view(),
                        named_values(nested@.skip(i as int)),
                    ),
                decreases nested.len() - i,
            {
                let ghost done = values.deep_view();
                let ghost rest = nested@.skip(i as int);
                assert(rest[0] == nested@[i as int]);
                assert(rest.skip(1) =~= nested@.skip(i + 1));
                match read_named_value(&nested[i]) {
                    Ok(option) => {
                        let ghost first = option.deep_view();
                        values.push(option);
                        assert(values.deep_view() =~= done.push(first));
                        proof {
                            if let Ok(more) = named_values(rest.skip(1)) {
                                assert(done + (seq![first] + more) =~= done.push(first) + more);
                            }
                        }
                    },
                    Err(message) => {
                        return Err(message);
                    },
                }
                i += 1;
            }
            assert(nested@.skip(i as int) =~= Seq::empty());
            assert(values.deep_view() + Seq::empty() =~= values.deep_view());
            Ok(CanonicalMeta { name: name.clone(), values })
        },
        NestedMeta::Meta(Meta::NameValue(name, lit)) => match string_or_err(lit) {
            Ok(text) => {
                let mut values: Vec<(String, Option<String>)> = Vec::new();
                values.push((text, None));
                assert(values.deep_view() =~= seq![(text@, None::<Seq<char>>)]);
                Ok(CanonicalMeta { name: name.clone(), values })
            },
            Err(message) => Err(message),
        },
    }
}

} // verus!

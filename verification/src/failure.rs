//! The ways in which a declaration's annotations are refused, and the message
//! that reports each.

use vstd::prelude::*;
use vstd::string::*;

verus! {

/// Why a declaration's annotations were refused.
pub enum Failure {
    /// A block names none of the seven capabilities.
    UnknownTrait(Seq<char>),
    /// A block holds an option that its capability does not have.
    UnknownAttribute(Seq<char>),
    /// A literal stands where a block was expected.
    ExpectedMeta,
    /// An entry of a block's list is not of the form `name = "payload"`.
    ExpectedNamedValue,
    /// The payload of a block written as `name = literal` is no string.
    ExpectedString,
    /// An option that needs a payload has none.
    NeedsValue(Seq<char>),
    /// A toggle's payload is neither `true` nor `false`.
    InvalidValue(Seq<char>),
    /// A payload is not of the syntax it should be written in.
    Syntax(syn::synom::ParseError),
}

impl Failure {
    /// Whether `message` is the text that reports this failure. A payload that
    /// `syn` refused is reported in the words of `syn`'s error.
    pub open spec fn rendered_as(self, message: String) -> bool {
        match self {
            Failure::UnknownTrait(name) => message@ == "unknown trait `"@ + name + "`"@,
            Failure::UnknownAttribute(name) => message@ == "unknown attribute `"@ + name + "`"@,
            Failure::ExpectedMeta => message@ == "Expected meta but found literal"@,
            Failure::ExpectedNamedValue => message@ == "expected named value"@,
            Failure::ExpectedString => message@ == "expected string"@,
            Failure::NeedsValue(name) => message@ == "`"@ + name + "` needs a value"@,
            Failure::InvalidValue(name) => message@ == "invalid value for `"@ + name + "`"@,
            Failure::Syntax(error) => to_string_from_display_ensures::<syn::synom::ParseError>(
                &error,
                message,
            ),
        }
    }
}

/// Whether `result` is the value that `expected` gives, or an error whose
/// message reports the failure that `expected` gives.
pub open spec fn reports<T>(result: Result<T, String>, expected: Result<T, Failure>) -> bool {
    match expected {
        Ok(value) => result == Ok::<T, String>(value),
        Err(failure) => result is Err && failure.rendered_as(result->Err_0),
    }
}

/// As [`reports`], for a value that is known by its view.
pub open spec fn reports_view<T: View>(
    result: Result<T, String>,
    expected: Result<T::V, Failure>,
) -> bool {
    match expected {
        Ok(value) => result is Ok && result->Ok_0@ == value,
        Err(failure) => result is Err && failure.rendered_as(result->Err_0),
    }
}

/// `before`, then `name`, then `after`, in one string.
fn around(before: &str, name: &str, after: &str) -> (text: String)
    ensures
        text@ == before@ + name@ + after@,
{
    let mut text = String::from_str(before);
    text.append(name);
    text.append(after);
    text
}

pub fn unknown_trait(name: &str) -> (message: String)
    ensures
        Failure::UnknownTrait(name@).rendered_as(message),
{
    around("unknown trait `", name, "`")
}

pub fn unknown_attribute(name: &str) -> (message: String)
    ensures
        Failure::UnknownAttribute(name@).rendered_as(message),
{
    around("unknown attribute `", name, "`")
}

pub fn expected_meta() -> (message: String)
    ensures
        Failure::ExpectedMeta.rendered_as(message),
{
    String::from_str("Expected meta but found literal")
}

pub fn expected_named_value() -> (message: String)
    ensures
        Failure::ExpectedNamedValue.rendered_as(message),
{
    String::from_str("expected named value")
}

pub fn expected_string() -> (message: String)
    ensures
        Failure::ExpectedString.rendered_as(message),
{
    String::from_str("expected string")
}

pub fn needs_value(name: &str) -> (message: String)
    ensures
        Failure::NeedsValue(name@).rendered_as(message),
{
    around("`", name, "` needs a value")
}

pub fn invalid_value(name: &str) -> (message: String)
    ensures
        Failure::InvalidValue(name@).rendered_as(message),
{
    around("invalid value for `", name, "`")
}

/// The message of a payload that `syn` refused: the error's own words.
pub fn syntax_error(error: &syn::synom::ParseError) -> (message: String)
    ensures
        Failure::Syntax(*error).rendered_as(message),
{
    error.to_string()
}

} // verus!

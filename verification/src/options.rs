//! The options of a capability's block: what each kind of payload means, and
//! how a list of options is folded into the capability's record.

use vstd::prelude::*;
use vstd::string::*;
use crate::failure::{
    Failure, reports, reports_view, invalid_value, needs_value, syntax_error, unknown_attribute,
};
use crate::syntax::{
    parse_path, parse_expr, parse_where_clause, path_syntax, expr_syntax, where_clause_syntax,
};
use crate::text::same_text;

verus! {

/// The text of a payload, where there is one.
pub open spec fn payload(value: Option<String>) -> Option<Seq<char>> {
    match value {
        Some(text) => Some(text@),
        None => None,
    }
}

/// What a toggle's payload says: `default` where the toggle stands bare, else
/// what the payload spells, which is `true` or `false`.
pub open spec fn boolean_value(item: Option<Seq<char>>, default: bool, name: Seq<char>) -> Result<
    bool,
    Failure,
> {
    match item {
        None => Ok(default),
        Some(text) => if text == "true"@ {
            Ok(true)
        } else if text == "false"@ {
            Ok(false)
        } else {
            Err(Failure::InvalidValue(name))
        },
    }
}

/// Reads a toggle's payload. `default` is the toggle's value where only its
/// name is written; `name` is the toggle's name, for the error's message.
pub fn parse_boolean_meta_item(item: Option<String>, default: bool, name: &str) -> (value: Result<
    bool,
    String,
>)
    ensures
        reports(value, boolean_value(payload(item), default, name@)),
{
    match item {
        None => Ok(default),
        Some(text) => {
            if same_text(text.as_str(), "true") {
                Ok(true)
            } else if same_text(text.as_str(), "false") {
                Ok(false)
            } else {
                Err(invalid_value(name))
            }
        },
    }
}

/// The fragments of a bound list; a list that is absent has none.
pub open spec fn fragments(bounds: Option<Seq<syn::WherePredicate>>) -> Seq<syn::WherePredicate> {
    match bounds {
        Some(list) => list,
        None => Seq::empty(),
    }
}

/// The bound list after one `bound` option. The option needs a payload. An
/// empty payload adds nothing; any other is read as the predicates of a
/// `where` clause, which are added behind those that the list holds. The list
/// is present afterwards in either case.
pub open spec fn bound_added(
    bounds: Option<Seq<syn::WherePredicate>>,
    value: Option<Seq<char>>,
) -> Result<Option<Seq<syn::WherePredicate>>, Failure> {
    match value {
        None => Err(Failure::NeedsValue("bound"@)),
        Some(text) => if text.len() == 0 {
            Ok(Some(fragments(bounds)))
        } else {
            match where_clause_syntax("where "@ + text) {
                Ok(predicates) => Ok(Some(fragments(bounds) + predicates)),
                Err(error) => Err(Failure::Syntax(error)),
            }
        },
    }
}

/// A bound list as a sequence of fragments.
pub open spec fn bounds_view(bounds: Option<Vec<syn::WherePredicate>>) -> Option<
    Seq<syn::WherePredicate>,
> {
    match bounds {
        Some(list) => Some(list@),
        None => None,
    }
}

/// Reads a `bound` option into the bound list. On an error the list is left
/// as it was.
pub fn parse_bound(
    opt_bounds: &mut Option<Vec<syn::WherePredicate>>,
    value: Option<String>,
) -> (done: Result<(), String>)
    ensures
        match bound_added(bounds_view(*old(opt_bounds)), payload(value)) {
            Ok(bounds) => done is Ok && bounds_view(*final(opt_bounds)) == bounds,
            Err(failure) => done is Err && failure.rendered_as(done->Err_0) && *final(opt_bounds)
                == *old(opt_bounds),
        },
{
    let bound = match value {
        Some(text) => text,
        None => {
            return Err(needs_value("bound"));
        },
    };
    let mut added: Vec<syn::WherePredicate> = Vec::new();
    if !bound.as_str().is_empty() {
        let mut clause = String::from_str("where ");
        clause.append(bound.as_str());
        match parse_where_clause(clause.as_str()) {
            Ok(predicates) => {
                added = predicates;
            },
            Err(error) => {
                return Err(syntax_error(&error));
            },
        }
    }
    let mut bounds = match opt_bounds.take() {
        Some(list) => list,
        None => Vec::new(),
    };
    assert(bounds@ == fragments(bounds_view(*old(opt_bounds))));
    bounds.append(&mut added);
    assert(bounds@ + Seq::<syn::WherePredicate>::empty() =~= bounds@);
    *opt_bounds = Some(bounds);
    Ok(())
}

/// The path that an option's payload names. The option needs a payload.
pub open spec fn path_value(name: Seq<char>, value: Option<Seq<char>>) -> Result<
    syn::Path,
    Failure,
> {
    match value {
        None => Err(Failure::NeedsValue(name)),
        Some(text) => match path_syntax(text) {
            Ok(path) => Ok(path),
            Err(error) => Err(Failure::Syntax(error)),
        },
    }
}

/// Reads the payload of the option `name` as the path of a function.
pub fn parse_path_value(name: &str, value: Option<String>) -> (path: Result<syn::Path, String>)
    ensures
        reports(path, path_value(name@, payload(value))),
{
    match value {
        None => Err(needs_value(name)),
        Some(text) => match parse_path(text.as_str()) {
            Ok(path) => Ok(path),
            Err(error) => Err(syntax_error(&error)),
        },
    }
}

/// The expression that an option's payload holds. The option needs a payload.
pub open spec fn expr_value(name: Seq<char>, value: Option<Seq<char>>) -> Result<
    syn::Expr,
    Failure,
> {
    match value {
        None => Err(Failure::NeedsValue(name)),
        Some(text) => match expr_syntax(text) {
            Ok(expr) => Ok(expr),
            Err(error) => Err(Failure::Syntax(error)),
        },
    }
}

/// Reads the payload of the option `name` as an expression.
pub fn parse_expr_value(name: &str, value: Option<String>) -> (expr: Result<syn::Expr, String>)
    ensures
        reports(expr, expr_value(name@, payload(value))),
{
    match value {
        None => Err(needs_value(name)),
        Some(text) => match parse_expr(text.as_str()) {
            Ok(expr) => Ok(expr),
            Err(error) => Err(syntax_error(&error)),
        },
    }
}

/// The record of one capability: the options that its block may hold.
pub trait OptionGroup: View + Sized {
    /// The bound list of the record.
    spec fn bounds(group: Self::V) -> Option<Seq<syn::WherePredicate>>;

    /// The record after one option, or the reason for which the option is
    /// refused.
    spec fn with_option(group: Self::V, name: Seq<char>, value: Option<Seq<char>>) -> Result<
        Self::V,
        Failure,
    >;

    /// Reads one option into the record.
    fn set_option(self, name: &str, value: Option<String>) -> (group: Result<Self, String>)
        ensures
            reports_view(group, Self::with_option(self@, name@, payload(value))),
    ;
}

/// The record after the options of a block, taken in their order: each starts
/// from what the one before it left. The first option that is refused ends it.
pub open spec fn with_options<G: OptionGroup>(
    group: G::V,
    options: Seq<(Seq<char>, Option<Seq<char>>)>,
) -> Result<G::V, Failure>
    decreases options.len(),
{
    if options.len() == 0 {
        Ok(group)
    } else {
        match G::with_option(group, options[0].0, options[0].1) {
            Ok(next) => with_options::<G>(next, options.skip(1)),
            Err(failure) => Err(failure),
        }
    }
}

/// The record of a capability whose only option is `bound`.
#[derive(Debug)]
pub struct BoundList {
    pub bounds: Option<Vec<syn::WherePredicate>>,
}

impl View for BoundList {
    type V = Option<Seq<syn::WherePredicate>>;

    open spec fn view(&self) -> Option<Seq<syn::WherePredicate>> {
        bounds_view(self.bounds)
    }
}

impl OptionGroup for BoundList {
    open spec fn bounds(group: Option<Seq<syn::WherePredicate>>) -> Option<
        Seq<syn::WherePredicate>,
    > {
        group
    }

    open spec fn with_option(
        group: Option<Seq<syn::WherePredicate>>,
        name: Seq<char>,
        value: Option<Seq<char>>,
    ) -> Result<Option<Seq<syn::WherePredicate>>, Failure> {
        if name == "bound"@ {
            bound_added(group, value)
        } else {
            Err(Failure::UnknownAttribute(name))
        }
    }

    fn set_option(self, name: &str, value: Option<String>) -> (group: Result<Self, String>) {
        let mut group = self;
        if same_text(name, "bound") {
            match parse_bound(&mut group.bounds, value) {
                Ok(()) => Ok(group),
                Err(message) => Err(message),
            }
        } else {
            Err(unknown_attribute(name))
        }
    }
}

/// A borrowed bound list as a sequence of fragments.
pub open spec fn slice_view(bounds: Option<&[syn::WherePredicate]>) -> Option<
    Seq<syn::WherePredicate>,
> {
    match bounds {
        Some(list) => Some(list@),
        None => None,
    }
}

/// The bound list as a slice, where it is present.
pub fn as_slice(bounds: &Option<Vec<syn::WherePredicate>>) -> (slice: Option<
    &[syn::WherePredicate],
>)
    ensures
        slice_view(slice) == bounds_view(*bounds),
{
    match bounds {
        Some(list) => Some(list.as_slice()),
        None => None,
    }
}

fn copy_of(value: &Option<String>) -> (copy: Option<String>)
    ensures
        payload(copy) == payload(*value),
{
    match value {
        Some(text) => Some(text.clone()),
        None => None,
    }
}

/// Reads the options of a block into the capability's record.
pub fn parse_options<G: OptionGroup>(
    group: G,
    values: &Vec<(String, Option<String>)>,
) -> (parsed: Result<G, String>)
    ensures
        reports_view(parsed, with_options::<G>(group@, values.deep_view())),
{
    let ghost options = values.deep_view();
    let mut current = group;
    let mut i: usize = 0;
    assert(options.skip(0) =~= options);
    while i < values.len()
        invariant
            i <= values.len(),
            options == values.deep_view(),
            with_options::<G>(group@, options) == with_options::<G>(
                current@,
                options.skip(i as int),
            ),
        decreases values.len() - i,
    {
        let ghost rest = options.skip(i as int);
        assert(rest[0] == options[i as int]);
        assert(rest.skip(1) =~= options.skip(i + 1));
        let value = copy_of(&values[i].1);
        match current.set_option(values[i].0.as_str(), value) {
            Ok(next) => {
                current = next;
            },
            Err(message) => {
                return Err(message);
            },
        }
        i += 1;
    }
    Ok(current)
}

} // verus!

//! The parts of Rust's syntax that an option's payload may hold, as `syn` reads
//! them. Nothing here is proved: each contract states what the named `syn`
//! function does.

use vstd::prelude::*;

verus! {

/// `syn::Path`: a parsed path, carried through unread.
#[verifier::external_type_specification]
#[verifier::external_body]
pub struct ExPath(syn::Path);

/// `syn::Expr`: a parsed expression, carried through unread.
#[verifier::external_type_specification]
#[verifier::external_body]
pub struct ExExpr(syn::Expr);

/// `syn::WherePredicate`: a parsed predicate of a `where` clause, carried
/// through unread.
#[verifier::external_type_specification]
#[verifier::external_body]
pub struct ExWherePredicate(syn::WherePredicate);

/// `syn::synom::ParseError`: the error with which `syn` refuses a text. Its
/// `Display` gives the message.
#[verifier::external_type_specification]
#[verifier::external_body]
pub struct ExParseError(syn::synom::ParseError);

/// What `syn::parse_str::<syn::Path>` makes of a text: the path it reads, or
/// the error with which it refuses the text.
pub uninterp spec fn path_syntax(text: Seq<char>) -> Result<syn::Path, syn::synom::ParseError>;

/// What `syn::parse_str::<syn::Expr>` makes of a text: the expression it
/// reads, or the error with which it refuses the text.
pub uninterp spec fn expr_syntax(text: Seq<char>) -> Result<syn::Expr, syn::synom::ParseError>;

/// What `syn::parse_str::<syn::WhereClause>` makes of a text: the predicates
/// of the clause it reads, in source order, or the error with which it refuses
/// the text.
pub uninterp spec fn where_clause_syntax(text: Seq<char>) -> Result<
    Seq<syn::WherePredicate>,
    syn::synom::ParseError,
>;

/// `syn::parse_str::<syn::Path>`. The outcome depends on the text alone, so it
/// is the one that [`path_syntax`] names.
#[verifier::external_body]
pub(crate) fn parse_path(text: &str) -> (parsed: Result<syn::Path, syn::synom::ParseError>)
    ensures
        parsed == path_syntax(text@),
{
    syn::parse_str::<syn::Path>(text)
}

/// `syn::parse_str::<syn::Expr>`. The outcome depends on the text alone, so it
/// is the one that [`expr_syntax`] names.
#[verifier::external_body]
pub(crate) fn parse_expr(text: &str) -> (parsed: Result<syn::Expr, syn::synom::ParseError>)
    ensures
        parsed == expr_syntax(text@),
{
    syn::parse_str::<syn::Expr>(text)
}

/// `syn::parse_str::<syn::WhereClause>`, with the clause's predicates moved
/// into a `Vec` in the order in which the clause lists them. The outcome
/// depends on the text alone, so it is the one that [`where_clause_syntax`]
/// names.
#[verifier::external_body]
pub(crate) fn parse_where_clause(text: &str) -> (parsed: Result<
    Vec<syn::WherePredicate>,
    syn::synom::ParseError,
>)
    ensures
        match parsed {
            Ok(predicates) => where_clause_syntax(text@) == Ok::<
                Seq<syn::WherePredicate>,
                syn::synom::ParseError,
            >(predicates@),
            Err(error) => where_clause_syntax(text@) == Err::<
                Seq<syn::WherePredicate>,
                syn::synom::ParseError,
            >(error),
        },
{
    match syn::parse_str::<syn::WhereClause>(text) {
        Ok(clause) => Ok(clause.predicates.into_iter().collect()),
        Err(error) => Err(error),
    }
}

} // verus!

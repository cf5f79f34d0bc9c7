//! The errors of the parser, and an adaptor for nom parsers that collapses
//! every failure to one kind.

use vstd::prelude::*;
use nom::IResult;

verus! {

/// The kinds of error that the parser of the language reports.
#[derive(Debug, PartialEq)]
pub enum ParseError {
    /// The indentation is wrong at this position.
    IndentationError(usize),
    /// This token was not expected.
    UnexpectedToken(String),
    /// This text is no expression.
    InvalidExpression(String),
}

/// nom's `Err`: what a parser that did not succeed returns.
#[verifier::external_type_specification]
#[verifier::external_body]
#[verifier::reject_recursive_types(E)]
pub struct ExErr<E>(nom::Err<E>);

/// nom's default error type: a position in the input and an error code.
#[verifier::external_type_specification]
#[verifier::external_body]
#[verifier::reject_recursive_types(I)]
pub struct ExError<I>(nom::error::Error<I>);

/// The recoverable nom error with the code `ErrorKind::Tag` at the position
/// `input`.
pub uninterp spec fn tag_error_at(input: &str) -> nom::Err<nom::error::Error<&str>>;

/// Builds `nom::Err::Error(nom::error::Error::new(input, ErrorKind::Tag))`.
/// Both are plain constructors, so the value depends on `input` alone; the
/// contract gives it its name and claims nothing else of it.
#[verifier::external_body]
fn tag_error<'a>(input: &'a str) -> (res: nom::Err<nom::error::Error<&'a str>>)
    ensures
        res == tag_error_at(input),
{
    nom::Err::Error(nom::error::Error::new(input, nom::error::ErrorKind::Tag))
}

/// A parser's result with its failure, if it is one, replaced by
/// `replacement`.
pub open spec fn replaced<'a, T>(
    result: IResult<&'a str, T>,
    replacement: nom::Err<nom::error::Error<&'a str>>,
) -> IResult<&'a str, T> {
    match result {
        Ok(parsed) => Ok(parsed),
        Err(_) => Err(replacement),
    }
}

/// Hands on a success untouched, and puts `replacement` in the place of a
/// failure, whatever the failure was.
pub fn replace_failure<'a, T>(
    result: IResult<&'a str, T>,
    replacement: nom::Err<nom::error::Error<&'a str>>,
) -> (res: IResult<&'a str, T>)
    ensures
        res == replaced(result, replacement),
{
    match result {
        Ok(parsed) => Ok(parsed),
        Err(_) => Err(replacement),
    }
}

/// What is left of the result of a parser that was run on `input` once its
/// failure has been collapsed: a success as it is, and, for every failure,
/// the recoverable error with the code `Tag` at `input`.
pub open spec fn collapsed<'a, T>(result: IResult<&'a str, T>, input: &'a str) -> IResult<
    &'a str,
    T,
> {
    replaced(result, tag_error_at(input))
}

/// Collapses the failure of a parser that was run on `input`, whatever it
/// was, to the recoverable error with the code `Tag` at `input`. A success
/// is handed on untouched.
pub fn collapse_failure<'a, T>(result: IResult<&'a str, T>, input: &'a str) -> (res: IResult<
    &'a str,
    T,
>)
    ensures
        res == collapsed(result, input),
{
    replace_failure(result, tag_error(input))
}

/// Wraps `parser` into a parser that can run wherever `parser` can, succeeds
/// where `parser` does, with the same result, and fails where it fails,
/// always with the recoverable error with the code `Tag` at the input that
/// it was given. The context is not used: the failure of the wrapped parser
/// and the context are both lost.
pub fn with_error_context<'a, T>(
    parser: impl Fn(&'a str) -> IResult<&'a str, T>,
    _context: &'a str,
) -> (wrapped: impl Fn(&'a str) -> IResult<&'a str, T>)
    ensures
        forall|input: &'a str|
            call_requires(parser, (input,)) ==> call_requires(wrapped, (input,)),
        forall|input: &'a str, res: IResult<&'a str, T>|
            call_ensures(wrapped, (input,), res) ==> exists|inner: IResult<&'a str, T>|
                call_ensures(parser, (input,), inner) && res == collapsed(inner, input),
{
    move |input: &'a str| -> (res: IResult<&'a str, T>)
        requires
            call_requires(parser, (input,)),
        ensures
            exists|inner: IResult<&'a str, T>|
                call_ensures(parser, (input,), inner) && res == collapsed(inner, input),
        { collapse_failure(parser(input), input) }
}

} // verus!

use interp_core::parse::{collapse_failure, replace_failure, with_error_context, ParseError};
use nom::error::{Error, ErrorKind};
use nom::IResult;

fn digits(input: &str) -> IResult<&str, u32> {
    let end = input.find(|c: char| !c.is_ascii_digit()).unwrap_or(input.len());
    if end == 0 {
        return Err(nom::Err::Failure(Error::new(&input[input.len()..], ErrorKind::Digit)));
    }
    Ok((&input[end..], input[..end].parse().unwrap()))
}

fn needs_more(_input: &str) -> IResult<&str, u32> {
    Err(nom::Err::Incomplete(nom::Needed::Unknown))
}

#[test]
fn wrapped_parser_hands_on_a_success() {
    let parser = with_error_context(digits, "a number");
    assert_eq!(parser("42 rest"), Ok((" rest", 42)));
}

#[test]
fn wrapped_parser_collapses_a_failure_to_a_tag_error_at_its_input() {
    let parser = with_error_context(digits, "a number");
    assert_eq!(digits("abc"), Err(nom::Err::Failure(Error::new("", ErrorKind::Digit))));
    assert_eq!(parser("abc"), Err(nom::Err::Error(Error::new("abc", ErrorKind::Tag))));
}

#[test]
fn wrapped_parser_collapses_an_incomplete_parse_too() {
    let parser = with_error_context(needs_more, "anything");
    assert_eq!(parser("abc"), Err(nom::Err::Error(Error::new("abc", ErrorKind::Tag))));
}

#[test]
fn wrapped_parser_ignores_the_context() {
    let first = with_error_context(digits, "one context");
    let second = with_error_context(digits, "");
    assert_eq!(first("x"), second("x"));
    assert_eq!(first("7"), second("7"));
}

#[test]
fn collapse_failure_replaces_the_error_only() {
    let ok: IResult<&str, char> = Ok(("bc", 'a'));
    assert_eq!(collapse_failure(ok, "abc"), Ok(("bc", 'a')));
    let failed: IResult<&str, char> = Err(nom::Err::Error(Error::new("c", ErrorKind::Char)));
    assert_eq!(
        collapse_failure(failed, "abc"),
        Err(nom::Err::Error(Error::new("abc", ErrorKind::Tag)))
    );
}

#[test]
fn replace_failure_puts_the_replacement_in_the_place_of_any_failure() {
    let replacement = || nom::Err::Failure(Error::new("here", ErrorKind::Eof));
    let ok: IResult<&str, char> = Ok(("bc", 'a'));
    assert_eq!(replace_failure(ok, replacement()), Ok(("bc", 'a')));
    let failed: IResult<&str, char> = Err(nom::Err::Error(Error::new("c", ErrorKind::Char)));
    assert_eq!(replace_failure(failed, replacement()), Err(replacement()));
    let incomplete: IResult<&str, char> = Err(nom::Err::Incomplete(nom::Needed::new(2)));
    assert_eq!(replace_failure(incomplete, replacement()), Err(replacement()));
}

#[test]
fn parse_errors_are_compared_by_kind_and_content() {
    assert_eq!(ParseError::IndentationError(4), ParseError::IndentationError(4));
    assert_ne!(ParseError::IndentationError(4), ParseError::IndentationError(8));
    assert_ne!(
        ParseError::UnexpectedToken("x".to_string()),
        ParseError::InvalidExpression("x".to_string())
    );
    assert_eq!(
        format!("{:?}", ParseError::UnexpectedToken("else".to_string())),
        "UnexpectedToken(\"else\")"
    );
}

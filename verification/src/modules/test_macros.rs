//! What the macros for testing expand to.

use vstd::prelude::*;
use vstd::string::*;
use crate::module::MacroHandler;
use crate::modules::tokens::{
    closing, copy_range, expression_at, ident, is_comma, opening, parse_expression, punct, string,
    stringified, stringify, tokens, Delimiter, MacroError, Quote, Token, TokenView,
};

verus! {

/// A message that is formatted.
pub open spec fn formatted(args: Seq<TokenView>) -> Seq<TokenView> {
    seq![
        punct("::"),
        ident("std"),
        punct("::"),
        ident("fmt"),
        punct("::"),
        ident("format"),
        punct("!"),
        opening(Delimiter::Paren),
    ] + args + seq![
        closing(Delimiter::Paren),
    ]
}

/// Quote a message that is formatted.
#[verifier::spinoff_prover]
fn format(args: Vec<Token>) -> (r: Vec<Token>)
    ensures
        tokens(r@) == formatted(tokens(args@)),
{
    let quote = Quote::new()
        .punct("::")
        .ident("std")
        .punct("::")
        .ident("fmt")
        .punct("::")
        .ident("format")
        .punct("!")
        .opening(Delimiter::Paren)
        .stream(args)
        .closing(Delimiter::Paren);
    assert(quote@ =~= formatted(tokens(args@)));
    quote.tokens
}

/// An assertion with a message.
pub open spec fn asserted_with(expr: Seq<TokenView>, message: Seq<TokenView>) -> Seq<TokenView> {
    seq![
        ident("if"),
        punct("!"),
        opening(Delimiter::Paren),
    ] + expr + seq![
        closing(Delimiter::Paren),
        opening(Delimiter::Brace),
        punct("::"),
        ident("std"),
        punct("::"),
        ident("panic"),
        opening(Delimiter::Paren),
        string("assertion failed: "),
        punct("+"),
        opening(Delimiter::Paren),
    ] + message + seq![
        closing(Delimiter::Paren),
        closing(Delimiter::Paren),
        punct(";"),
        closing(Delimiter::Brace),
    ]
}

/// Quote an assertion with a message.
#[verifier::spinoff_prover]
fn assert_with(expr: Vec<Token>, message: Vec<Token>) -> (r: Vec<Token>)
    ensures
        tokens(r@) == asserted_with(tokens(expr@), tokens(message@)),
{
    let quote = Quote::new()
        .ident("if")
        .punct("!")
        .opening(Delimiter::Paren)
        .stream(expr)
        .closing(Delimiter::Paren)
        .opening(Delimiter::Brace)
        .punct("::")
        .ident("std")
        .punct("::")
        .ident("panic")
        .opening(Delimiter::Paren)
        .string("assertion failed: ")
        .punct("+")
        .opening(Delimiter::Paren)
        .stream(message)
        .closing(Delimiter::Paren)
        .closing(Delimiter::Paren)
        .punct(";")
        .closing(Delimiter::Brace);
    assert(quote@ =~= asserted_with(tokens(expr@), tokens(message@)));
    quote.tokens
}

/// An assertion that panics with a text.
pub open spec fn asserted(expr: Seq<TokenView>, text: Seq<char>) -> Seq<TokenView> {
    seq![
        ident("if"),
        punct("!"),
        opening(Delimiter::Paren),
    ] + expr + seq![
        closing(Delimiter::Paren),
        opening(Delimiter::Brace),
        punct("::"),
        ident("std"),
        punct("::"),
        ident("panic"),
        opening(Delimiter::Paren),
        TokenView::Str(text),
        closing(Delimiter::Paren),
        punct(";"),
        closing(Delimiter::Brace),
    ]
}

/// Quote an assertion that panics with a text.
#[verifier::spinoff_prover]
fn assert_plain(expr: Vec<Token>, text: String) -> (r: Vec<Token>)
    ensures
        tokens(r@) == asserted(tokens(expr@), text@),
{
    let quote = Quote::new()
        .ident("if")
        .punct("!")
        .opening(Delimiter::Paren)
        .stream(expr)
        .closing(Delimiter::Paren)
        .opening(Delimiter::Brace)
        .punct("::")
        .ident("std")
        .punct("::")
        .ident("panic")
        .opening(Delimiter::Paren)
        .token(Token::Str(text))
        .closing(Delimiter::Paren)
        .punct(";")
        .closing(Delimiter::Brace);
    assert(quote@ =~= asserted(tokens(expr@), text@));
    quote.tokens
}

/// A variable that is bound to an expression.
#[verifier::opaque]
pub open spec fn bound(name: &'static str, expr: Seq<TokenView>) -> Seq<TokenView> {
    seq![ident("let"), ident(name), punct("=")] + expr + seq![punct(";")]
}

/// Quote a variable that is bound to an expression.
fn bind(name: &'static str, expr: Vec<Token>) -> (r: Vec<Token>)
    ensures
        tokens(r@) == bound(name, tokens(expr@)),
{
    proof {
        reveal(bound);
    }
    let quote = Quote::new().ident("let").ident(name).punct("=").stream(expr).punct(";");
    assert(quote@ =~= bound(name, tokens(expr@)));
    quote.tokens
}

/// The condition under which the assertion on `left` and `right` fails.
#[verifier::opaque]
pub open spec fn condition(op: &'static str) -> Seq<TokenView> {
    seq![
        ident("if"),
        punct("!"),
        opening(Delimiter::Paren),
        ident("left"),
        punct(op),
        ident("right"),
        closing(Delimiter::Paren),
    ]
}

/// Quote the condition under which the assertion fails.
fn fails(op: &'static str) -> (r: Vec<Token>)
    ensures
        tokens(r@) == condition(op),
{
    proof {
        reveal(condition);
    }
    let quote = Quote::new().ident("if").punct("!").opening(Delimiter::Paren).ident("left").punct(
        op,
    ).ident("right").closing(Delimiter::Paren);
    assert(quote@ =~= condition(op));
    quote.tokens
}

/// A value that is appended to the message.
#[verifier::opaque]
pub open spec fn appended(format: &'static str, name: &'static str) -> Seq<TokenView> {
    seq![ident("message"), punct("+=")] + formatted(
        seq![string(format), punct(","), ident(name)],
    ) + seq![punct(";")]
}

/// Quote a value that is appended to the message.
fn append(text: &'static str, name: &'static str) -> (r: Vec<Token>)
    ensures
        tokens(r@) == appended(text, name),
{
    proof {
        reveal(appended);
    }
    let args = Quote::new().string(text).punct(",").ident(name);
    assert(args@ =~= seq![string(text), punct(","), ident(name)]);
    let quote = Quote::new().ident("message").punct("+=").stream(format(args.tokens)).punct(";");
    assert(quote@ =~= appended(text, name));
    quote.tokens
}

/// A panic.
#[verifier::opaque]
pub open spec fn panicked(message: Seq<TokenView>) -> Seq<TokenView> {
    seq![
        punct("::"),
        ident("std"),
        punct("::"),
        ident("panic"),
        opening(Delimiter::Paren),
    ] + message + seq![closing(Delimiter::Paren), punct(";")]
}

/// Quote a panic.
fn panics(message: Vec<Token>) -> (r: Vec<Token>)
    ensures
        tokens(r@) == panicked(tokens(message@)),
{
    proof {
        reveal(panicked);
    }
    let quote = Quote::new().punct("::").ident("std").punct("::").ident("panic").opening(
        Delimiter::Paren,
    ).stream(message).closing(Delimiter::Paren).punct(";");
    assert(quote@ =~= panicked(tokens(message@)));
    quote.tokens
}

/// An assertion on two expressions. If it fails, then what they are is appended
/// to a first part of the message.
pub open spec fn differing(
    left: Seq<TokenView>,
    right: Seq<TokenView>,
    op: &'static str,
    first: Seq<TokenView>,
    panic: Seq<TokenView>,
) -> Seq<TokenView> {
    seq![opening(Delimiter::Brace)] + bound("left", left) + bound("right", right) + condition(op)
        + seq![opening(Delimiter::Brace)] + bound("message", first) + appended(
        "\nleft: {:?}",
        "left",
    ) + appended("\nright: {:?}", "right") + panicked(panic) + seq![
        closing(Delimiter::Brace),
        closing(Delimiter::Brace),
    ]
}

/// Quote an assertion on two expressions.
#[verifier::spinoff_prover]
fn differ(
    left: Vec<Token>,
    right: Vec<Token>,
    op: &'static str,
    first: Vec<Token>,
    panic: Vec<Token>,
) -> (r: Vec<Token>)
    ensures
        tokens(r@) == differing(
            tokens(left@),
            tokens(right@),
            op,
            tokens(first@),
            tokens(panic@),
        ),
{
    let quote = Quote::new().opening(Delimiter::Brace).stream(bind("left", left)).stream(
        bind("right", right),
    ).stream(fails(op)).opening(Delimiter::Brace).stream(bind("message", first)).stream(
        append("\nleft: {:?}", "left"),
    ).stream(append("\nright: {:?}", "right")).stream(panics(panic)).closing(
        Delimiter::Brace,
    ).closing(Delimiter::Brace);
    assert(quote@ =~= differing(
        tokens(left@),
        tokens(right@),
        op,
        tokens(first@),
        tokens(panic@),
    ));
    quote.tokens
}

/// A string that is made of a literal.
pub open spec fn owned(text: &'static str) -> Seq<TokenView> {
    seq![
        punct("::"),
        ident("std"),
        punct("::"),
        ident("string"),
        punct("::"),
        ident("String"),
        punct("::"),
        ident("from"),
        opening(Delimiter::Paren),
        string(text),
        closing(Delimiter::Paren),
    ]
}

/// An assertion on two expressions with a message.
pub open spec fn differing_with(
    left: Seq<TokenView>,
    right: Seq<TokenView>,
    op: &'static str,
    prefix: &'static str,
    message: Seq<TokenView>,
) -> Seq<TokenView> {
    differing(
        left,
        right,
        op,
        message,
        seq![string(prefix), punct("+"), ident("message")],
    )
}

/// An assertion on two expressions without a message.
pub open spec fn differing_plain(
    left: Seq<TokenView>,
    right: Seq<TokenView>,
    op: &'static str,
    prefix: &'static str,
) -> Seq<TokenView> {
    differing(left, right, op, owned(prefix), seq![ident("message")])
}

/// Quote an assertion on two expressions with a message.
fn differ_with(
    left: Vec<Token>,
    right: Vec<Token>,
    op: &'static str,
    prefix: &'static str,
    message: Vec<Token>,
) -> (r: Vec<Token>)
    ensures
        tokens(r@) == differing_with(tokens(left@), tokens(right@), op, prefix, tokens(message@)),
{
    let panic = Quote::new().string(prefix).punct("+").ident("message");
    assert(panic@ =~= seq![string(prefix), punct("+"), ident("message")]);
    differ(left, right, op, message, panic.tokens)
}

/// Quote an assertion on two expressions without a message.
fn differ_plain(left: Vec<Token>, right: Vec<Token>, op: &'static str, prefix: &'static str) -> (r:
    Vec<Token>)
    ensures
        tokens(r@) == differing_plain(tokens(left@), tokens(right@), op, prefix),
{
    let first = Quote::new().punct("::").ident("std").punct("::").ident("string").punct("::").ident(
        "String",
    ).punct("::").ident("from").opening(Delimiter::Paren).string(prefix).closing(Delimiter::Paren);
    assert(first@ =~= owned(prefix));
    let panic = Quote::new().ident("message");
    assert(panic@ =~= seq![ident("message")]);
    differ(left, right, op, first.tokens, panic.tokens)
}

/// Test if the tokens from index `i` on are the arguments of a message: one
/// expression or more, all of the tokens, with commas between them. The last one
/// may have a comma behind it.
pub open spec fn arguments_at(stream: Seq<TokenView>, i: int) -> Result<(), MacroError>
    decreases stream.len() - i,
{
    match expression_at(stream, i) {
        Err(e) => Err(e),
        Ok(end) => if end <= i || end >= stream.len() {
            Ok(())
        } else if !is_comma(stream[end]) {
            Err(MacroError::ExpectedComma(end as usize))
        } else if end + 1 >= stream.len() {
            Ok(())
        } else {
            arguments_at(stream, end + 1)
        },
    }
}

/// The arguments of a message, which are what is behind a comma at `end`. Without
/// one there is no message.
pub open spec fn message_at(stream: Seq<TokenView>, end: int) -> Result<
    Option<Seq<TokenView>>,
    MacroError,
> {
    if end + 1 < stream.len() && is_comma(stream[end]) {
        match arguments_at(stream, end + 1) {
            Ok(_) => Ok(Some(stream.skip(end + 1))),
            Err(e) => Err(e),
        }
    } else {
        Ok(None)
    }
}

/// What `assert!` expands to.
pub open spec fn assert_expanded(stream: Seq<TokenView>) -> Result<Seq<TokenView>, MacroError> {
    match expression_at(stream, 0) {
        Err(e) => Err(e),
        Ok(end) => {
            let expr = stream.take(end);
            match message_at(stream, end) {
                Err(e) => Err(e),
                Ok(Some(args)) => Ok(asserted_with(expr, formatted(args))),
                Ok(None) => Ok(
                    asserted(expr, "assertion failed: "@ + stringified(expr, expr.len())),
                ),
            }
        },
    }
}

/// What `assert_eq!` or `assert_ne!` expands to.
pub open spec fn comparison_expanded(
    stream: Seq<TokenView>,
    op: &'static str,
    with_message: &'static str,
    without_message: &'static str,
) -> Result<Seq<TokenView>, MacroError> {
    match expression_at(stream, 0) {
        Err(e) => Err(e),
        Ok(comma) => if comma >= stream.len() || !is_comma(stream[comma]) {
            Err(MacroError::ExpectedComma(comma as usize))
        } else {
            match expression_at(stream, comma + 1) {
                Err(e) => Err(e),
                Ok(end) => {
                    let left = stream.take(comma);
                    let right = stream.subrange(comma + 1, end);
                    match message_at(stream, end) {
                        Err(e) => Err(e),
                        Ok(Some(args)) => Ok(
                            differing_with(left, right, op, with_message, formatted(args)),
                        ),
                        Ok(None) => Ok(differing_plain(left, right, op, without_message)),
                    }
                },
            }
        },
    }
}

/// What `assert_eq!` expands to.
pub open spec fn assert_eq_expanded(stream: Seq<TokenView>) -> Result<Seq<TokenView>, MacroError> {
    comparison_expanded(
        stream,
        "==",
        "assertion failed (left == right): ",
        "assertion failed (left == right):",
    )
}

/// What `assert_ne!` expands to.
pub open spec fn assert_ne_expanded(stream: Seq<TokenView>) -> Result<Seq<TokenView>, MacroError> {
    comparison_expanded(
        stream,
        "!=",
        "assertion failed (left != right): ",
        "assertion failed (left != right):",
    )
}

/// Test if a macro gives these tokens, or this error.
pub open spec fn gives_tokens(
    r: Result<Vec<Token>, MacroError>,
    expected: Result<Seq<TokenView>, MacroError>,
) -> bool {
    match (r, expected) {
        (Ok(stream), Ok(view)) => tokens(stream@) == view,
        (Err(e), Err(f)) => e == f,
        _ => false,
    }
}

/// Read the arguments of a message, which are the tokens from `start` on.
fn parse_arguments(stream: &Vec<Token>, start: usize) -> (r: Result<(), MacroError>)
    requires
        start < stream@.len(),
    ensures
        r == arguments_at(tokens(stream@), start as int),
{
    let ghost view = tokens(stream@);
    let mut i: usize = start;

    loop
        invariant
            view == tokens(stream@),
            i < stream@.len(),
            arguments_at(view, i as int) == arguments_at(view, start as int),
        decreases stream@.len() - i,
    {
        let end: usize = parse_expression(stream, i)?;
        assert(end < stream@.len() ==> view[end as int] == stream@[end as int]@);

        if end >= stream.len() {
            return Ok(());
        }
        if !stream[end].is_comma() {
            return Err(MacroError::ExpectedComma(end));
        }
        if end + 1 >= stream.len() {
            return Ok(());
        }
        i = end + 1;
    }
}

/// The arguments of the message behind a comma at `end`.
fn parse_message(stream: &Vec<Token>, end: usize) -> (r: Result<Option<Vec<Token>>, MacroError>)
    requires
        end <= stream@.len(),
    ensures
        match (r, message_at(tokens(stream@), end as int)) {
            (Ok(Some(args)), Ok(Some(expected))) => tokens(args@) == expected,
            (Ok(None), Ok(None)) => true,
            (Err(e), Err(f)) => e == f,
            _ => false,
        },
{
    assert(end < stream@.len() ==> tokens(stream@)[end as int] == stream@[end as int]@);
    if end >= stream.len() || end + 1 >= stream.len() || !stream[end].is_comma() {
        return Ok(None);
    }

    parse_arguments(stream, end + 1)?;
    let args = copy_range(stream, end + 1, stream.len());
    assert(tokens(args@) =~= tokens(stream@).skip(end + 1));
    Ok(Some(args))
}

/// Assert that the expression is true, or cause a panic.
pub fn assert_(stream: &Vec<Token>) -> (r: Result<Vec<Token>, MacroError>)
    ensures
        gives_tokens(r, assert_expanded(tokens(stream@))),
{
    let end: usize = parse_expression(stream, 0)?;
    let expr = copy_range(stream, 0, end);
    assert(tokens(expr@) =~= tokens(stream@).take(end as int));

    match parse_message(stream, end)? {
        Some(args) => Ok(assert_with(expr, format(args))),
        None => {
            let mut text = "assertion failed: ".to_owned();
            text.append(stringify(&expr).as_str());
            Ok(assert_plain(expr, text))
        },
    }
}

/// Expand an assertion on two expressions.
fn expand_comparison(
    stream: &Vec<Token>,
    op: &'static str,
    with_message: &'static str,
    without_message: &'static str,
) -> (r: Result<Vec<Token>, MacroError>)
    ensures
        gives_tokens(
            r,
            comparison_expanded(tokens(stream@), op, with_message, without_message),
        ),
{
    let comma: usize = parse_expression(stream, 0)?;

    assert(comma < stream@.len() ==> tokens(stream@)[comma as int] == stream@[comma as int]@);
    if comma >= stream.len() || !stream[comma].is_comma() {
        return Err(MacroError::ExpectedComma(comma));
    }

    let end: usize = parse_expression(stream, comma + 1)?;
    let left = copy_range(stream, 0, comma);
    let right = copy_range(stream, comma + 1, end);
    assert(tokens(left@) =~= tokens(stream@).take(comma as int));

    match parse_message(stream, end)? {
        Some(args) => Ok(differ_with(left, right, op, with_message, format(args))),
        None => Ok(differ_plain(left, right, op, without_message)),
    }
}

/// Assert that two expressions are equal, or cause a panic.
pub fn assert_eq(stream: &Vec<Token>) -> (r: Result<Vec<Token>, MacroError>)
    ensures
        gives_tokens(r, assert_eq_expanded(tokens(stream@))),
{
    expand_comparison(
        stream,
        "==",
        "assertion failed (left == right): ",
        "assertion failed (left == right):",
    )
}

/// Assert that two expressions are not equal, or cause a panic.
pub fn assert_ne(stream: &Vec<Token>) -> (r: Result<Vec<Token>, MacroError>)
    ensures
        gives_tokens(r, assert_ne_expanded(tokens(stream@))),
{
    expand_comparison(
        stream,
        "!=",
        "assertion failed (left != right): ",
        "assertion failed (left != right):",
    )
}

/// The number of [`assert_`].
pub const ASSERT: u64 = 0;

/// The number of [`assert_eq`].
pub const ASSERT_EQ: u64 = 1;

/// The number of [`assert_ne`].
pub const ASSERT_NE: u64 = 2;

/// What the macro of the given number expands to, if there is one.
pub open spec fn expanded(handler: u64, stream: Seq<TokenView>) -> Option<
    Result<Seq<TokenView>, MacroError>,
> {
    if handler == ASSERT {
        Some(assert_expanded(stream))
    } else if handler == ASSERT_EQ {
        Some(assert_eq_expanded(stream))
    } else if handler == ASSERT_NE {
        Some(assert_ne_expanded(stream))
    } else {
        None
    }
}

/// Expand the macro that is registered under a number.
pub fn expand(handler: MacroHandler, stream: &Vec<Token>) -> (r: Option<
    Result<Vec<Token>, MacroError>,
>)
    ensures
        match (r, expanded(handler.0, tokens(stream@))) {
            (Some(r), Some(expected)) => gives_tokens(r, expected),
            (None, None) => true,
            _ => false,
        },
{
    if handler.0 == ASSERT {
        Some(assert_(stream))
    } else if handler.0 == ASSERT_EQ {
        Some(assert_eq(stream))
    } else if handler.0 == ASSERT_NE {
        Some(assert_ne(stream))
    } else {
        None
    }
}

} // verus!

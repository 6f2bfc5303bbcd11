//! Laws of what the macros for testing expand to.

use vstd::prelude::*;
use crate::modules::test_macros::{
    appended, arguments_at, assert_eq_expanded, assert_expanded, assert_ne_expanded, bound,
    comparison_expanded, condition, message_at, panicked,
};
use crate::modules::tokens::{
    ended, expression_at, expression_end, lemma_expression_end, stringified, token_text, unread,
    Delimiter, MacroError, ProgressView, TokenView,
};
use crate::runtime::debug::quoted;
use crate::text_laws::{joined, lemma_joined};

verus! {

/// An identifier or a keyword.
pub open spec fn word(text: Seq<char>) -> TokenView {
    TokenView::Ident(text)
}

/// A punctuation mark.
pub open spec fn mark(text: Seq<char>) -> TokenView {
    TokenView::Punct(text)
}

/// A comma.
pub open spec fn comma() -> TokenView {
    TokenView::Punct(","@)
}

/// An opening round bracket.
pub open spec fn paren() -> TokenView {
    TokenView::Open(Delimiter::Paren)
}

/// A closing round bracket.
pub open spec fn end_paren() -> TokenView {
    TokenView::Close(Delimiter::Paren)
}

/// An opening curly bracket.
pub open spec fn brace() -> TokenView {
    TokenView::Open(Delimiter::Brace)
}

/// A closing curly bracket.
pub open spec fn end_brace() -> TokenView {
    TokenView::Close(Delimiter::Brace)
}

/// Test if all tokens are one expression.
pub open spec fn is_whole(expr: Seq<TokenView>) -> bool {
    expression_at(expr, 0) == Ok::<int, MacroError>(expr.len() as int)
}

/// Test if all tokens are the arguments of a message.
pub open spec fn is_message(args: Seq<TokenView>) -> bool {
    args.len() > 0 && arguments_at(args, 0) == Ok::<(), MacroError>(())
}

/// An expression that has been read up to its end, ends there as well if it stands
/// in a stream and nothing or a comma comes behind it.
pub proof fn lemma_whole_end(
    front: Seq<TokenView>,
    expr: Seq<TokenView>,
    back: Seq<TokenView>,
    i: int,
    progress: ProgressView,
)
    requires
        0 <= i <= expr.len(),
        expression_end(expr, i, progress) == Ok::<int, MacroError>(expr.len() as int),
        back.len() > 0 ==> back[0] == comma(),
    ensures
        expression_end(front + expr + back, front.len() + i, progress) == Ok::<int, MacroError>(
            (front.len() + expr.len()) as int,
        ),
    decreases expr.len() - i,
{
    let stream = front + expr + back;
    if i < expr.len() {
        assert(stream[front.len() + i] == expr[i]);
        match progress.after(expr[i]) {
            Some(next) => lemma_whole_end(front, expr, back, i + 1, next),
            None => {
                assert(ended(expr, i, progress) == Ok::<int, MacroError>(expr.len() as int));
            },
        }
    } else if back.len() > 0 {
        assert(stream[front.len() + i] == back[0]);
    }
}

/// An expression that ends in a stream ends in the same place if something stands
/// in front of the stream.
pub proof fn lemma_end_behind(
    front: Seq<TokenView>,
    stream: Seq<TokenView>,
    i: int,
    progress: ProgressView,
)
    requires
        0 <= i <= stream.len(),
        expression_end(stream, i, progress) is Ok,
    ensures
        expression_end(front + stream, front.len() + i, progress) == Ok::<int, MacroError>(
            front.len() + expression_end(stream, i, progress)->Ok_0,
        ),
    decreases stream.len() - i,
{
    if i < stream.len() {
        assert((front + stream)[front.len() + i] == stream[i]);
        if let Some(next) = progress.after(stream[i]) {
            lemma_end_behind(front, stream, i + 1, next);
        }
    }
}

/// The arguments of a message are those as well if something stands in front of
/// the stream.
pub proof fn lemma_arguments_behind(front: Seq<TokenView>, stream: Seq<TokenView>, i: int)
    requires
        0 <= i < stream.len(),
        arguments_at(stream, i) == Ok::<(), MacroError>(()),
    ensures
        arguments_at(front + stream, front.len() + i) == Ok::<(), MacroError>(()),
    decreases stream.len() - i,
{
    let all = front + stream;
    lemma_end_behind(front, stream, i, unread());
    lemma_expression_end(stream, i, unread());
    let end = expression_at(stream, i)->Ok_0;
    if end < stream.len() {
        assert(all[front.len() + end] == stream[end]);
        if end + 1 < stream.len() {
            lemma_arguments_behind(front, stream, end + 1);
        }
    }
}

/// Two expressions with a comma between them, and what comes behind: nothing, a
/// comma, or a comma and the arguments of a message.
pub open spec fn operands(
    left: Seq<TokenView>,
    right: Seq<TokenView>,
    back: Seq<TokenView>,
) -> Seq<TokenView> {
    left + seq![comma()] + right + back
}

/// The two expressions of a comparison are found.
proof fn lemma_operands(left: Seq<TokenView>, right: Seq<TokenView>, back: Seq<TokenView>)
    requires
        is_whole(left),
        is_whole(right),
        back.len() > 0 ==> back[0] == comma(),
    ensures
        ({
            let stream = operands(left, right, back);
            let end = left.len() + 1 + right.len();
            &&& expression_at(stream, 0) == Ok::<int, MacroError>(left.len() as int)
            &&& stream[left.len() as int] == comma()
            &&& left.len() < stream.len()
            &&& expression_at(stream, (left.len() + 1) as int) == Ok::<int, MacroError>(end as int)
            &&& stream.take(left.len() as int) == left
            &&& stream.subrange((left.len() + 1) as int, end as int) == right
        }),
{
    let stream = operands(left, right, back);
    let none = Seq::<TokenView>::empty();
    let first = seq![comma()] + right + back;
    assert(none + left + first =~= stream);
    lemma_whole_end(none, left, first, 0, unread());
    let front = left + seq![comma()];
    assert(front + right + back =~= stream);
    lemma_whole_end(front, right, back, 0, unread());
    assert(stream.take(left.len() as int) =~= left);
    assert(stream.subrange(
        (left.len() + 1) as int,
        (left.len() + 1 + right.len()) as int,
    ) =~= right);
}

/// The tokens `:: std :: fmt :: format ! ( args )`.
pub open spec fn format_call(args: Seq<TokenView>) -> Seq<TokenView> {
    seq![
        mark("::"@),
        word("std"@),
        mark("::"@),
        word("fmt"@),
        mark("::"@),
        word("format"@),
        mark("!"@),
        paren(),
    ] + args + seq![end_paren()]
}

/// The tokens `:: std :: panic ( args ) ;`.
pub open spec fn panic_call(args: Seq<TokenView>) -> Seq<TokenView> {
    seq![mark("::"@), word("std"@), mark("::"@), word("panic"@), paren()] + args + seq![
        end_paren(),
        mark(";"@),
    ]
}

/// The tokens `message += :: std :: fmt :: format ! ( "text" , name ) ;`.
pub open spec fn addition(text: Seq<char>, name: Seq<char>) -> Seq<TokenView> {
    seq![word("message"@), mark("+="@)] + format_call(
        seq![TokenView::Str(text), comma(), word(name)],
    ) + seq![mark(";"@)]
}

/// The tokens `:: std :: string :: String :: from ( "text" )`.
pub open spec fn owned_string(text: Seq<char>) -> Seq<TokenView> {
    seq![
        mark("::"@),
        word("std"@),
        mark("::"@),
        word("string"@),
        mark("::"@),
        word("String"@),
        mark("::"@),
        word("from"@),
        paren(),
        TokenView::Str(text),
        end_paren(),
    ]
}

/// The tokens `{ let left = .. ; let right = .. ; if ! ( left op right ) {
/// let message = .. ; .. } }`. The values of both expressions are appended to the
/// message before the panic.
pub open spec fn comparison(
    left: Seq<TokenView>,
    right: Seq<TokenView>,
    op: Seq<char>,
    first: Seq<TokenView>,
    panic: Seq<TokenView>,
) -> Seq<TokenView> {
    seq![brace(), word("let"@), word("left"@), mark("="@)] + left + seq![
        mark(";"@),
        word("let"@),
        word("right"@),
        mark("="@),
    ] + right + seq![
        mark(";"@),
        word("if"@),
        mark("!"@),
        paren(),
        word("left"@),
        mark(op),
        word("right"@),
        end_paren(),
        brace(),
        word("let"@),
        word("message"@),
        mark("="@),
    ] + first + seq![mark(";"@)] + addition("\nleft: {:?}"@, "left"@) + addition(
        "\nright: {:?}"@,
        "right"@,
    ) + panic_call(panic) + seq![end_brace(), end_brace()]
}

/// What a comparison without a message expands to.
#[verifier::spinoff_prover]
proof fn lemma_plain(
    left: Seq<TokenView>,
    right: Seq<TokenView>,
    back: Seq<TokenView>,
    op: &'static str,
    with_message: &'static str,
    without_message: &'static str,
)
    requires
        is_whole(left),
        is_whole(right),
        back.len() == 0 || back == seq![comma()],
    ensures
        comparison_expanded(operands(left, right, back), op, with_message, without_message) == Ok::<
            Seq<TokenView>,
            MacroError,
        >(
            comparison(
                left,
                right,
                op@,
                owned_string(without_message@),
                seq![word("message"@)],
            ),
        ),
{
    lemma_operands(left, right, back);
    reveal(bound);
    reveal(condition);
    reveal(appended);
    reveal(panicked);
    let stream = operands(left, right, back);
    assert(message_at(stream, (left.len() + 1 + right.len()) as int) == Ok::<
        Option<Seq<TokenView>>,
        MacroError,
    >(None));
    assert(comparison_expanded(stream, op, with_message, without_message)->Ok_0 =~= comparison(
        left,
        right,
        op@,
        owned_string(without_message@),
        seq![word("message"@)],
    ));
}

/// What a comparison with a message expands to.
#[verifier::spinoff_prover]
proof fn lemma_with_message(
    left: Seq<TokenView>,
    right: Seq<TokenView>,
    args: Seq<TokenView>,
    op: &'static str,
    with_message: &'static str,
    without_message: &'static str,
)
    requires
        is_whole(left),
        is_whole(right),
        is_message(args),
    ensures
        comparison_expanded(
            operands(left, right, seq![comma()] + args),
            op,
            with_message,
            without_message,
        ) == Ok::<Seq<TokenView>, MacroError>(
            comparison(
                left,
                right,
                op@,
                format_call(args),
                seq![TokenView::Str(with_message@), mark("+"@), word("message"@)],
            ),
        ),
{
    let back = seq![comma()] + args;
    let stream = operands(left, right, back);
    let end = left.len() + 1 + right.len();
    lemma_operands(left, right, back);
    let front = left + seq![comma()] + right + seq![comma()];
    assert(stream =~= front + args);
    lemma_arguments_behind(front, args, 0);
    assert(stream[end as int] == comma());
    assert(stream.skip((end + 1) as int) =~= args);
    assert(message_at(stream, end as int) == Ok::<Option<Seq<TokenView>>, MacroError>(Some(args)));
    lemma_message_tokens(left, right, args, op, with_message);
}

/// The tokens of a comparison with a message.
#[verifier::spinoff_prover]
proof fn lemma_message_tokens(
    left: Seq<TokenView>,
    right: Seq<TokenView>,
    args: Seq<TokenView>,
    op: &'static str,
    with_message: &'static str,
)
    ensures
        crate::modules::test_macros::differing_with(
            left,
            right,
            op,
            with_message,
            crate::modules::test_macros::formatted(args),
        ) == comparison(
            left,
            right,
            op@,
            format_call(args),
            seq![TokenView::Str(with_message@), mark("+"@), word("message"@)],
        ),
{
    reveal(bound);
    reveal(condition);
    reveal(appended);
    reveal(panicked);
    assert(crate::modules::test_macros::differing_with(
        left,
        right,
        op,
        with_message,
        crate::modules::test_macros::formatted(args),
    ) =~= comparison(
        left,
        right,
        op@,
        format_call(args),
        seq![TokenView::Str(with_message@), mark("+"@), word("message"@)],
    ));
}

/// `assert_eq!(left, right)` binds `left` and `right` to all tokens of the two
/// expressions and panics unless they are equal. A comma at the end changes
/// nothing.
pub proof fn lemma_assert_eq(
    left: Seq<TokenView>,
    right: Seq<TokenView>,
    back: Seq<TokenView>,
)
    requires
        is_whole(left),
        is_whole(right),
        back.len() == 0 || back == seq![comma()],
    ensures
        assert_eq_expanded(left + seq![comma()] + right + back) == Ok::<
            Seq<TokenView>,
            MacroError,
        >(
            comparison(
                left,
                right,
                "=="@,
                owned_string("assertion failed (left == right):"@),
                seq![word("message"@)],
            ),
        ),
{
    lemma_plain(
        left,
        right,
        back,
        "==",
        "assertion failed (left == right): ",
        "assertion failed (left == right):",
    );
}

/// `assert_ne!(left, right)` binds `left` and `right` to all tokens of the two
/// expressions and panics unless they are different. A comma at the end changes
/// nothing.
pub proof fn lemma_assert_ne(
    left: Seq<TokenView>,
    right: Seq<TokenView>,
    back: Seq<TokenView>,
)
    requires
        is_whole(left),
        is_whole(right),
        back.len() == 0 || back == seq![comma()],
    ensures
        assert_ne_expanded(left + seq![comma()] + right + back) == Ok::<
            Seq<TokenView>,
            MacroError,
        >(
            comparison(
                left,
                right,
                "!="@,
                owned_string("assertion failed (left != right):"@),
                seq![word("message"@)],
            ),
        ),
{
    lemma_plain(
        left,
        right,
        back,
        "!=",
        "assertion failed (left != right): ",
        "assertion failed (left != right):",
    );
}

/// `assert_eq!(left, right, args)` formats the message of all tokens of `args`.
pub proof fn lemma_assert_eq_message(
    left: Seq<TokenView>,
    right: Seq<TokenView>,
    args: Seq<TokenView>,
)
    requires
        is_whole(left),
        is_whole(right),
        is_message(args),
    ensures
        assert_eq_expanded(left + seq![comma()] + right + (seq![comma()] + args)) == Ok::<
            Seq<TokenView>,
            MacroError,
        >(
            comparison(
                left,
                right,
                "=="@,
                format_call(args),
                seq![
                    TokenView::Str("assertion failed (left == right): "@),
                    mark("+"@),
                    word("message"@),
                ],
            ),
        ),
{
    lemma_with_message(
        left,
        right,
        args,
        "==",
        "assertion failed (left == right): ",
        "assertion failed (left == right):",
    );
}

/// `assert_ne!(left, right, args)` formats the message of all tokens of `args`.
pub proof fn lemma_assert_ne_message(
    left: Seq<TokenView>,
    right: Seq<TokenView>,
    args: Seq<TokenView>,
)
    requires
        is_whole(left),
        is_whole(right),
        is_message(args),
    ensures
        assert_ne_expanded(left + seq![comma()] + right + (seq![comma()] + args)) == Ok::<
            Seq<TokenView>,
            MacroError,
        >(
            comparison(
                left,
                right,
                "!="@,
                format_call(args),
                seq![
                    TokenView::Str("assertion failed (left != right): "@),
                    mark("+"@),
                    word("message"@),
                ],
            ),
        ),
{
    lemma_with_message(
        left,
        right,
        args,
        "!=",
        "assertion failed (left != right): ",
        "assertion failed (left != right):",
    );
}

/// A comparison with one expression only is an error at its end.
pub proof fn lemma_one_operand(left: Seq<TokenView>)
    requires
        is_whole(left),
    ensures
        assert_eq_expanded(left) == Err::<Seq<TokenView>, MacroError>(
            MacroError::ExpectedComma(left.len() as usize),
        ),
        assert_ne_expanded(left) == Err::<Seq<TokenView>, MacroError>(
            MacroError::ExpectedComma(left.len() as usize),
        ),
{
}

/// The tokens `if ! ( expr ) { :: std :: panic ( args ) ; }`.
pub open spec fn assertion(expr: Seq<TokenView>, args: Seq<TokenView>) -> Seq<TokenView> {
    seq![word("if"@), mark("!"@), paren()] + expr + seq![end_paren(), brace()] + panic_call(args)
        + seq![end_brace()]
}

/// The text of tokens: how each of them is written, with a space between them.
pub open spec fn spaced(stream: Seq<TokenView>) -> Seq<char> {
    joined(
        stream.len(),
        |i: int|
            if i == 0 {
                written(stream[i])
            } else {
                " "@ + written(stream[i])
            },
    )
}

/// How a token is written: as it is in the source, with a string in quotes.
pub open spec fn written(token: TokenView) -> Seq<char> {
    match token {
        TokenView::Ident(text) => text,
        TokenView::Literal(text) => text,
        TokenView::Punct(text) => text,
        TokenView::Str(text) => quoted(text),
        TokenView::Open(d) => match d {
            Delimiter::Paren => seq!['('],
            Delimiter::Bracket => seq!['['],
            Delimiter::Brace => seq!['{'],
        },
        TokenView::Close(d) => match d {
            Delimiter::Paren => seq![')'],
            Delimiter::Bracket => seq![']'],
            Delimiter::Brace => seq!['}'],
        },
    }
}

/// Tokens are written as they are in the source.
proof fn lemma_token_text(token: TokenView)
    ensures
        token_text(token) == written(token),
{
    reveal_strlit("(");
    reveal_strlit(")");
    reveal_strlit("[");
    reveal_strlit("]");
    reveal_strlit("{");
    reveal_strlit("}");
    assert(token_text(token) =~= written(token));
}

/// The text of an expression is how each token is written, with a space between
/// them.
pub proof fn lemma_stringified(stream: Seq<TokenView>, n: nat)
    requires
        n <= stream.len(),
    ensures
        stringified(stream, n) == spaced(stream.take(n as int)),
    decreases n,
{
    let taken = stream.take(n as int);
    let part = |i: int|
        if i == 0 {
            written(taken[i])
        } else {
            " "@ + written(taken[i])
        };
    if n == 0 {
        lemma_joined(0, part);
    } else {
        let m = (n - 1) as nat;
        let rest = stream.take(m as int);
        let other = |i: int|
            if i == 0 {
                written(rest[i])
            } else {
                " "@ + written(rest[i])
            };
        lemma_stringified(stream, m);
        lemma_joined(m, part);
        lemma_token_text(stream[n - 1]);
        assert(Seq::new(m, part) =~= Seq::new(m, other));
        assert(taken[n - 1] == stream[n - 1]);
        if n == 1 {
            lemma_joined(0, other);
            assert(joined(1, part) =~= written(stream[0]));
        } else {
            assert(stringified(stream, n) =~= stringified(stream, m) + part(n - 1));
        }
    }
}

/// `assert!(expr)` panics unless all of the expression is true. The message has
/// the text of the expression. A comma at the end changes nothing.
pub proof fn lemma_assert(expr: Seq<TokenView>, back: Seq<TokenView>)
    requires
        is_whole(expr),
        back.len() == 0 || back == seq![comma()],
    ensures
        assert_expanded(expr + back) == Ok::<Seq<TokenView>, MacroError>(
            assertion(expr, seq![TokenView::Str("assertion failed: "@ + spaced(expr))]),
        ),
{
    let none = Seq::<TokenView>::empty();
    let stream = expr + back;
    assert(none + expr + back =~= stream);
    lemma_whole_end(none, expr, back, 0, unread());
    assert(stream.take(expr.len() as int) =~= expr);
    lemma_stringified(expr, expr.len());
    assert(expr.take(expr.len() as int) =~= expr);
    assert(message_at(stream, expr.len() as int) == Ok::<Option<Seq<TokenView>>, MacroError>(None));
    assert(assert_expanded(stream)->Ok_0 =~= assertion(
        expr,
        seq![TokenView::Str("assertion failed: "@ + spaced(expr))],
    ));
}

/// `assert!(expr, args)` panics unless all of the expression is true. The message
/// is formatted of all tokens of `args`.
pub proof fn lemma_assert_message(expr: Seq<TokenView>, args: Seq<TokenView>)
    requires
        is_whole(expr),
        is_message(args),
    ensures
        assert_expanded(expr + (seq![comma()] + args)) == Ok::<Seq<TokenView>, MacroError>(
            assertion(
                expr,
                seq![TokenView::Str("assertion failed: "@), mark("+"@), paren()] + format_call(args)
                    + seq![end_paren()],
            ),
        ),
{
    let none = Seq::<TokenView>::empty();
    let back = seq![comma()] + args;
    let stream = expr + back;
    assert(none + expr + back =~= stream);
    lemma_whole_end(none, expr, back, 0, unread());
    assert(stream.take(expr.len() as int) =~= expr);
    let front = expr + seq![comma()];
    assert(stream =~= front + args);
    lemma_arguments_behind(front, args, 0);
    assert(stream[expr.len() as int] == comma());
    assert(stream.skip((expr.len() + 1) as int) =~= args);
    assert(assert_expanded(stream)->Ok_0 =~= assertion(
        expr,
        seq![TokenView::Str("assertion failed: "@), mark("+"@), paren()] + format_call(args)
            + seq![end_paren()],
    ));
}

} // verus!

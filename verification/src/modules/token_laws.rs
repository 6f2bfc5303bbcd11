//! Laws of which tokens are expressions.

use vstd::prelude::*;
use crate::modules::test_macro_laws::{
    brace, end_brace, is_whole, lemma_end_behind, mark, word,
};
use crate::modules::tokens::{
    ended, expression_at, expression_end, unread, Delimiter, MacroError, Nesting, Next,
    ProgressView, TokenView,
};

verus! {

/// How far an expression has been read behind all tokens from `i` on, if every one
/// of them can come next.
pub open spec fn read(tokens: Seq<TokenView>, i: int, progress: ProgressView) -> Option<
    ProgressView,
>
    decreases tokens.len() - i,
{
    if i < 0 || i >= tokens.len() {
        Some(progress)
    } else {
        match progress.after(tokens[i]) {
            Some(next) => read(tokens, i + 1, next),
            None => None,
        }
    }
}

/// Only inside of something can a list end.
spec fn is_sound(progress: ProgressView) -> bool {
    progress.next == Next::Item ==> progress.open.len() > 0
}

/// Reading a token keeps that only inside of something a list can end.
proof fn lemma_sound(progress: ProgressView, token: TokenView)
    requires
        is_sound(progress),
        progress.after(token) is Some,
    ensures
        is_sound(progress.after(token)->0),
{
}

/// The tokens of a whole expression can all be read, and nothing is open behind
/// them.
proof fn lemma_whole_read(tokens: Seq<TokenView>, i: int, progress: ProgressView)
    requires
        0 <= i <= tokens.len(),
        is_sound(progress),
        expression_end(tokens, i, progress) == Ok::<int, MacroError>(tokens.len() as int),
    ensures
        ({
            let last = read(tokens, i, progress);
            last is Some && last->0.open.len() == 0 && last->0.is_done()
        }),
    decreases tokens.len() - i,
{
    if i < tokens.len() {
        match progress.after(tokens[i]) {
            Some(next) => {
                lemma_sound(progress, tokens[i]);
                lemma_whole_read(tokens, i + 1, next);
            },
            None => {
                assert(ended(tokens, i, progress) == Ok::<int, MacroError>(tokens.len() as int));
            },
        }
    }
}

/// What comes behind tokens that can all be read goes on where they end.
proof fn lemma_read_on(
    tokens: Seq<TokenView>,
    back: Seq<TokenView>,
    i: int,
    progress: ProgressView,
)
    requires
        0 <= i <= tokens.len(),
        read(tokens, i, progress) is Some,
    ensures
        expression_end(tokens + back, i, progress) == expression_end(
            tokens + back,
            tokens.len() as int,
            read(tokens, i, progress)->0,
        ),
    decreases tokens.len() - i,
{
    if i < tokens.len() {
        assert((tokens + back)[i] == tokens[i]);
        lemma_read_on(tokens, back, i + 1, progress.after(tokens[i])->0);
    }
}

/// An expression with one more token behind it, after which another expression can
/// start.
proof fn lemma_operand(left: Seq<TokenView>, token: TokenView, right: Seq<TokenView>)
    requires
        is_whole(left),
        is_whole(right),
        forall|p: ProgressView|
            p.open.len() == 0 && #[trigger] p.is_done() ==> p.after(token) == Some(
                ProgressView { open: p.open, next: Next::Operand },
            ),
    ensures
        is_whole(left + seq![token] + right),
{
    lemma_whole_read(left, 0, unread());
    let last = read(left, 0, unread())->0;
    let back = seq![token] + right;
    let all = left + seq![token] + right;
    assert(all =~= left + back);
    lemma_read_on(left, back, 0, unread());
    assert(all[left.len() as int] == token);
    assert(last.after(token)->0 =~= unread());
    let front = left + seq![token];
    assert(all =~= front + right);
    lemma_end_behind(front, right, 0, unread());
    assert(expression_end(all, left.len() as int, last) == expression_end(
        all,
        (left.len() + 1) as int,
        unread(),
    ));
}

/// An expression with more tokens behind it, after which it can end.
proof fn lemma_suffix(left: Seq<TokenView>, back: Seq<TokenView>)
    requires
        is_whole(left),
        back.len() > 0,
        forall|p: ProgressView|
            p.open.len() == 0 && #[trigger] p.is_done() ==> {
                let last = read(back, 0, p);
                last is Some && last->0.open.len() == 0 && last->0.is_done()
            },
    ensures
        is_whole(left + back),
{
    lemma_whole_read(left, 0, unread());
    let p = read(left, 0, unread())->0;
    assert(p.is_done());
    lemma_read_on(left, back, 0, unread());
    let all = left + back;
    lemma_read_behind(left, back, 0, p);
}

/// Tokens that can all be read end where they end.
proof fn lemma_read_behind(
    front: Seq<TokenView>,
    back: Seq<TokenView>,
    i: int,
    progress: ProgressView,
)
    requires
        0 <= i <= back.len(),
        read(back, i, progress) is Some,
        read(back, i, progress)->0.open.len() == 0,
        read(back, i, progress)->0.is_done(),
    ensures
        expression_end(front + back, front.len() + i, progress) == Ok::<int, MacroError>(
            (front.len() + back.len()) as int,
        ),
    decreases back.len() - i,
{
    if i < back.len() {
        assert((front + back)[front.len() + i] == back[i]);
        lemma_read_behind(front, back, i + 1, progress.after(back[i])->0);
    }
}

/// An expression with a token in front of it, after which an expression is still
/// expected.
proof fn lemma_prefix(token: TokenView, right: Seq<TokenView>)
    requires
        is_whole(right),
        unread().after(token) == Some(unread()),
    ensures
        is_whole(seq![token] + right),
{
    let front = seq![token];
    let all = front + right;
    assert(all[0] == token);
    lemma_end_behind(front, right, 0, unread());
    assert(expression_end(all, 0, unread()) == expression_end(all, 1, unread()));
}

/// Tokens on their own are an expression if they can all be read.
proof fn lemma_alone(tokens: Seq<TokenView>)
    requires
        read(tokens, 0, unread()) is Some,
        read(tokens, 0, unread())->0.open.len() == 0,
        read(tokens, 0, unread())->0.is_done(),
    ensures
        is_whole(tokens),
{
    let none = Seq::<TokenView>::empty();
    lemma_read_behind(none, tokens, 0, unread());
    assert(none + tokens =~= tokens);
}

/// The length of a text and its first characters, by which marks and words differ.
spec fn spelled(text: Seq<char>) -> (nat, char, char, char) {
    (
        text.len(),
        if text.len() > 0 {
            text[0]
        } else {
            ' '
        },
        if text.len() > 1 {
            text[1]
        } else {
            ' '
        },
        if text.len() > 2 {
            text[2]
        } else {
            ' '
        },
    )
}

/// How the punctuation marks are spelled.
proof fn lemma_marks()
    ensures
        spelled("+"@) == (1nat, '+', ' ', ' '),
        spelled("-"@) == (1nat, '-', ' ', ' '),
        spelled("*"@) == (1nat, '*', ' ', ' '),
        spelled("/"@) == (1nat, '/', ' ', ' '),
        spelled("%"@) == (1nat, '%', ' ', ' '),
        spelled("^"@) == (1nat, '^', ' ', ' '),
        spelled("&"@) == (1nat, '&', ' ', ' '),
        spelled("|"@) == (1nat, '|', ' ', ' '),
        spelled("!"@) == (1nat, '!', ' ', ' '),
        spelled("="@) == (1nat, '=', ' ', ' '),
        spelled("<"@) == (1nat, '<', ' ', ' '),
        spelled(">"@) == (1nat, '>', ' ', ' '),
        spelled("."@) == (1nat, '.', ' ', ' '),
        spelled(","@) == (1nat, ',', ' ', ' '),
        spelled(":"@) == (1nat, ':', ' ', ' '),
        spelled("?"@) == (1nat, '?', ' ', ' '),
        spelled("#"@) == (1nat, '#', ' ', ' '),
        spelled("_"@) == (1nat, '_', ' ', ' '),
        spelled("<<"@) == (2nat, '<', '<', ' '),
        spelled(">>"@) == (2nat, '>', '>', ' '),
        spelled("&&"@) == (2nat, '&', '&', ' '),
        spelled("||"@) == (2nat, '|', '|', ' '),
        spelled("=="@) == (2nat, '=', '=', ' '),
        spelled("!="@) == (2nat, '!', '=', ' '),
        spelled("<="@) == (2nat, '<', '=', ' '),
        spelled(">="@) == (2nat, '>', '=', ' '),
        spelled("+="@) == (2nat, '+', '=', ' '),
        spelled("-="@) == (2nat, '-', '=', ' '),
        spelled("*="@) == (2nat, '*', '=', ' '),
        spelled("/="@) == (2nat, '/', '=', ' '),
        spelled("%="@) == (2nat, '%', '=', ' '),
        spelled("&="@) == (2nat, '&', '=', ' '),
        spelled("|="@) == (2nat, '|', '=', ' '),
        spelled("^="@) == (2nat, '^', '=', ' '),
        spelled(".."@) == (2nat, '.', '.', ' '),
        spelled("::"@) == (2nat, ':', ':', ' '),
        spelled("..="@) == (3nat, '.', '.', '='),
        spelled("<<="@) == (3nat, '<', '<', '='),
        spelled(">>="@) == (3nat, '>', '>', '='),
{
    reveal_strlit("+");
    reveal_strlit("-");
    reveal_strlit("*");
    reveal_strlit("/");
    reveal_strlit("%");
    reveal_strlit("^");
    reveal_strlit("&");
    reveal_strlit("|");
    reveal_strlit("!");
    reveal_strlit("=");
    reveal_strlit("<");
    reveal_strlit(">");
    reveal_strlit(".");
    reveal_strlit(",");
    reveal_strlit(":");
    reveal_strlit("?");
    reveal_strlit("#");
    reveal_strlit("_");
    reveal_strlit("<<");
    reveal_strlit(">>");
    reveal_strlit("&&");
    reveal_strlit("||");
    reveal_strlit("==");
    reveal_strlit("!=");
    reveal_strlit("<=");
    reveal_strlit(">=");
    reveal_strlit("+=");
    reveal_strlit("-=");
    reveal_strlit("*=");
    reveal_strlit("/=");
    reveal_strlit("%=");
    reveal_strlit("&=");
    reveal_strlit("|=");
    reveal_strlit("^=");
    reveal_strlit("..");
    reveal_strlit("::");
    reveal_strlit("..=");
    reveal_strlit("<<=");
    reveal_strlit(">>=");
}

/// How some of the words are spelled.
proof fn lemma_spelled_words()
    ensures
        spelled("true"@) == (4nat, 't', 'r', 'u'),
        spelled("false"@) == (5nat, 'f', 'a', 'l'),
        spelled("as"@) == (2nat, 'a', 's', ' '),
        spelled("is"@) == (2nat, 'i', 's', ' '),
        spelled("else"@) == (4nat, 'e', 'l', 's'),
        spelled("in"@) == (2nat, 'i', 'n', ' '),
        spelled("await"@) == (5nat, 'a', 'w', 'a'),
        spelled("enum"@) == (4nat, 'e', 'n', 'u'),
        spelled("fn"@) == (2nat, 'f', 'n', ' '),
        spelled("impl"@) == (4nat, 'i', 'm', 'p'),
        spelled("mod"@) == (3nat, 'm', 'o', 'd'),
        spelled("mut"@) == (3nat, 'm', 'u', 't'),
        spelled("pub"@) == (3nat, 'p', 'u', 'b'),
        spelled("struct"@) == (6nat, 's', 't', 'r'),
        spelled("use"@) == (3nat, 'u', 's', 'e'),
{
    reveal_strlit("true");
    reveal_strlit("false");
    reveal_strlit("as");
    reveal_strlit("is");
    reveal_strlit("else");
    reveal_strlit("in");
    reveal_strlit("await");
    reveal_strlit("enum");
    reveal_strlit("fn");
    reveal_strlit("impl");
    reveal_strlit("mod");
    reveal_strlit("mut");
    reveal_strlit("pub");
    reveal_strlit("struct");
    reveal_strlit("use");
}

/// Literals are expressions.
pub proof fn lemma_literal(text: Seq<char>)
    ensures
        is_whole(seq![TokenView::Literal(text)]),
        is_whole(seq![TokenView::Str(text)]),
        is_whole(seq![word("true"@)]),
        is_whole(seq![word("false"@)]),
{
    let a = seq![TokenView::Literal(text)];
    let b = seq![TokenView::Str(text)];
    let c = seq![word("true"@)];
    let d = seq![word("false"@)];
    lemma_spelled_words();
    reveal_with_fuel(read, 2);
    assert(unread().after(a[0]) is Some);
    assert(unread().after(b[0]) is Some);
    assert(unread().after(c[0]) is Some);
    assert(unread().after(d[0]) is Some);
    lemma_alone(a);
    lemma_alone(b);
    lemma_alone(c);
    lemma_alone(d);
}

/// An operator with an expression on both sides is an expression.
#[verifier::spinoff_prover]
pub proof fn lemma_infix(left: Seq<TokenView>, text: Seq<char>, right: Seq<TokenView>)
    requires
        is_whole(left),
        is_whole(right),
        ({
            ||| text == "+"@ || text == "-"@ || text == "*"@ || text == "/"@ || text == "%"@
            ||| text == "^"@ || text == "&"@ || text == "<<"@ || text == ">>"@ || text == "=="@
            ||| text == "!="@ || text == "<"@ || text == ">"@ || text == "<="@ || text == ">="@
            ||| text == "&&"@ || text == "||"@ || text == "="@ || text == "+="@ || text == "-="@
            ||| text == "*="@ || text == "/="@ || text == "%="@ || text == "^="@ || text == "&="@
            ||| text == "|="@ || text == "<<="@ || text == ">>="@ || text == "..="@
        }),
    ensures
        is_whole(left + seq![mark(text)] + right),
{
    lemma_marks();
    assert forall|p: ProgressView|
        p.open.len() == 0 && #[trigger] p.is_done() implies p.after(mark(text)) == Some(
        ProgressView { open: p.open, next: Next::Operand },
    ) by {
        assert(p.after(mark(text)) == p.after_mark(text));
    }
    lemma_operand(left, mark(text), right);
}

/// An operator in front of an expression makes an expression.
pub proof fn lemma_unary_operator(text: Seq<char>, right: Seq<TokenView>)
    requires
        is_whole(right),
        text == "-"@ || text == "!"@ || text == "*"@ || text == "&"@,
    ensures
        is_whole(seq![mark(text)] + right),
{
    lemma_marks();
    assert(unread().after(mark(text)) == unread().after_mark(text));
    lemma_prefix(mark(text), right);
}

/// A `?` behind an expression, and the name of a field behind a dot, make an
/// expression. Any word can be the name of a field there.
pub proof fn lemma_postfix(left: Seq<TokenView>, name: Seq<char>)
    requires
        is_whole(left),
    ensures
        is_whole(left + seq![mark("?"@)]),
        is_whole(left + seq![mark("."@), word(name)]),
{
    lemma_marks();
    let a = seq![mark("?"@)];
    let b = seq![mark("."@), word(name)];
    assert forall|p: ProgressView| p.open.len() == 0 && #[trigger] p.is_done() implies ({
        let last = read(a, 0, p);
        last is Some && last->0.open.len() == 0 && last->0.is_done()
    }) by {
        reveal_with_fuel(read, 2);
        assert(p.after(a[0]) == p.after_mark("?"@));
    }
    assert forall|p: ProgressView| p.open.len() == 0 && #[trigger] p.is_done() implies ({
        let last = read(b, 0, p);
        last is Some && last->0.open.len() == 0 && last->0.is_done()
    }) by {
        reveal_with_fuel(read, 3);
        assert(p.after(b[0]) == p.after_mark("."@));
        let next = p.after(b[0])->0;
        assert(next.next == Next::Field);
        assert(next.after(b[1]) == next.after_word(name));
    }
    lemma_suffix(left, a);
    lemma_suffix(left, b);
}

/// Nothing, or a comma, is not an expression, and neither is one that is missing
/// behind an operator.
pub proof fn lemma_missing(left: Seq<TokenView>, back: Seq<TokenView>)
    requires
        is_whole(left),
    ensures
        expression_at(Seq::empty(), 0) == Err::<int, MacroError>(MacroError::ExpectedExpression(0)),
        expression_at(seq![mark(","@)] + back, 0) == Err::<int, MacroError>(
            MacroError::ExpectedExpression(0),
        ),
        expression_at(left + seq![mark("=="@)], 0) == Err::<int, MacroError>(
            MacroError::ExpectedExpression((left.len() + 1) as usize),
        ),
{
    lemma_marks();
    let a = seq![mark(","@)] + back;
    assert(a[0] == mark(","@));
    lemma_whole_read(left, 0, unread());
    let back = seq![mark("=="@)];
    let all = left + back;
    let p = read(left, 0, unread())->0;
    lemma_read_on(left, back, 0, unread());
    assert(all[left.len() as int] == mark("=="@));
    assert(p.after(mark("=="@)) == p.after_mark("=="@));
    let next = p.after(mark("=="@))->0;
    assert(expression_end(all, left.len() as int, p) == expression_end(all, (left.len() + 1) as int, next));
}

/// A closing bracket that nothing has opened is an error, and so is an opening one
/// that is not closed.
pub proof fn lemma_unbalanced(left: Seq<TokenView>, d: Delimiter, back: Seq<TokenView>)
    requires
        is_whole(left),
    ensures
        expression_at(left + (seq![TokenView::Close(d)] + back), 0) == Err::<int, MacroError>(
            MacroError::UnbalancedDelimiter(left.len() as usize),
        ),
{
    lemma_whole_read(left, 0, unread());
    let back = seq![TokenView::Close(d)] + back;
    let all = left + back;
    let p = read(left, 0, unread())->0;
    lemma_read_on(left, back, 0, unread());
    assert(all[left.len() as int] == TokenView::Close(d));
    assert(p.after(TokenView::Close(d)) == p.after_close(d));
}

/// A progress inside of something.
spec fn inside(outer: Seq<Nesting>, progress: ProgressView) -> ProgressView {
    ProgressView { open: outer + progress.open, next: progress.next }
}

/// Test if the innermost thing is a list of expressions between brackets.
spec fn is_group(outer: Seq<Nesting>) -> bool {
    outer.len() > 0 && outer.last() is Group
}

/// Inside of brackets, what is read goes on as outside of them.
#[verifier::spinoff_prover]
proof fn lemma_inside(outer: Seq<Nesting>, progress: ProgressView, token: TokenView)
    requires
        is_group(outer),
        progress.after(token) is Some,
    ensures
        inside(outer, progress).after(token) == Some(inside(outer, progress.after(token)->0)),
{
    let p = progress;
    let q = inside(outer, p);
    let next = p.after(token)->0;
    if p.open.len() > 0 {
        assert(q.open.last() == p.open.last());
        assert(q.open.drop_last() =~= outer + p.open.drop_last());
        if p.open.len() > 1 {
            assert(q.open.drop_last().last() == p.open.drop_last().last());
            assert(q.open.drop_last().drop_last() =~= outer + p.open.drop_last().drop_last());
        } else {
            assert(q.open.drop_last() =~= outer);
        }
    } else {
        assert(q.open =~= outer);
    }
    assert(q.after(token) is Some);
    assert(q.after(token)->0.open =~= inside(outer, next).open);
}

/// The first token between brackets is read as the first one of an expression.
#[verifier::spinoff_prover]
proof fn lemma_first(outer: Seq<Nesting>, token: TokenView)
    requires
        is_group(outer),
        unread().after(token) is Some,
    ensures
        (ProgressView { open: outer, next: Next::Item }).after(token) == Some(
            inside(outer, unread().after(token)->0),
        ),
{
    let q = ProgressView { open: outer, next: Next::Item };
    let next = unread().after(token)->0;
    assert(q.after(token) is Some);
    assert(q.after(token)->0.open =~= inside(outer, next).open);
}

/// Inside of brackets, tokens are read as outside of them.
proof fn lemma_read_inside(
    outer: Seq<Nesting>,
    tokens: Seq<TokenView>,
    i: int,
    progress: ProgressView,
)
    requires
        is_group(outer),
        0 <= i <= tokens.len(),
        read(tokens, i, progress) is Some,
    ensures
        read(tokens, i, inside(outer, progress)) == Some(
            inside(outer, read(tokens, i, progress)->0),
        ),
    decreases tokens.len() - i,
{
    if i < tokens.len() {
        lemma_inside(outer, progress, tokens[i]);
        lemma_read_inside(outer, tokens, i + 1, progress.after(tokens[i])->0);
    }
}

/// An expression and a closing bracket can be read behind an opening one.
proof fn lemma_grouped_end(
    front: Seq<TokenView>,
    expr: Seq<TokenView>,
    back: Seq<TokenView>,
    outer: Seq<Nesting>,
    d: Delimiter,
)
    requires
        is_whole(expr),
        outer.len() > 0,
        outer.last() == Nesting::Group(d),
    ensures
        expression_end(
            front + expr + (seq![TokenView::Close(d)] + back),
            front.len() as int,
            ProgressView { open: outer, next: Next::Item },
        ) == expression_end(
            front + expr + (seq![TokenView::Close(d)] + back),
            (front.len() + expr.len() + 1) as int,
            ProgressView { open: outer.drop_last(), next: Next::Operator },
        ),
{
    let start = ProgressView { open: outer, next: Next::Item };
    let close = seq![TokenView::Close(d)] + back;
    let all = front + expr + close;
    lemma_whole_read(expr, 0, unread());
    let last = read(expr, 0, unread())->0;
    assert(expr.len() > 0);
    lemma_first(outer, expr[0]);
    lemma_read_inside(outer, expr, 1, unread().after(expr[0])->0);
    assert(read(expr, 0, start) == Some(inside(outer, last)));
    lemma_read_in(front, expr, close, 0, start);
    assert(all[(front.len() + expr.len()) as int] == TokenView::Close(d));
    assert(inside(outer, last).open =~= outer);
    assert(inside(outer, last).after(TokenView::Close(d)) == Some(
        ProgressView { open: outer.drop_last(), next: Next::Operator },
    ));
}

/// What comes behind tokens in the middle that can all be read goes on where they
/// end.
proof fn lemma_read_in(
    front: Seq<TokenView>,
    tokens: Seq<TokenView>,
    back: Seq<TokenView>,
    i: int,
    progress: ProgressView,
)
    requires
        0 <= i <= tokens.len(),
        read(tokens, i, progress) is Some,
    ensures
        expression_end(front + tokens + back, front.len() + i, progress) == expression_end(
            front + tokens + back,
            (front.len() + tokens.len()) as int,
            read(tokens, i, progress)->0,
        ),
    decreases tokens.len() - i,
{
    if i < tokens.len() {
        assert((front + tokens + back)[front.len() + i] == tokens[i]);
        lemma_read_in(front, tokens, back, i + 1, progress.after(tokens[i])->0);
    }
}

/// An expression between round or square brackets is an expression.
pub proof fn lemma_grouped(expr: Seq<TokenView>, d: Delimiter)
    requires
        is_whole(expr),
        d != Delimiter::Brace,
    ensures
        is_whole(seq![TokenView::Open(d)] + expr + seq![TokenView::Close(d)]),
{
    let front = seq![TokenView::Open(d)];
    let back = Seq::<TokenView>::empty();
    let outer = seq![Nesting::Group(d)];
    let all = front + expr + seq![TokenView::Close(d)];
    assert(all =~= front + expr + (seq![TokenView::Close(d)] + back));
    assert(all[0] == TokenView::Open(d));
    assert(unread().after(TokenView::Open(d)) == Some(
        ProgressView { open: outer, next: Next::Item },
    )) by {
        assert(unread().open.push(Nesting::Group(d)) =~= outer);
    }
    lemma_grouped_end(front, expr, back, outer, d);
    assert(outer.drop_last() =~= Seq::<Nesting>::empty());
}

/// An expression between round or square brackets behind another one, as of a call
/// or an index, is an expression.
pub proof fn lemma_called(left: Seq<TokenView>, expr: Seq<TokenView>, d: Delimiter)
    requires
        is_whole(left),
        is_whole(expr),
        d != Delimiter::Brace,
    ensures
        is_whole(left + seq![TokenView::Open(d)] + expr + seq![TokenView::Close(d)]),
{
    let front = left + seq![TokenView::Open(d)];
    let back = Seq::<TokenView>::empty();
    let close = seq![TokenView::Close(d)];
    let outer = seq![Nesting::Group(d)];
    let all = front + expr + close;
    assert(all =~= front + expr + (close + back));
    lemma_whole_read(left, 0, unread());
    let last = read(left, 0, unread())->0;
    let rest = seq![TokenView::Open(d)] + expr + close;
    assert(all =~= left + rest);
    lemma_read_on(left, rest, 0, unread());
    assert(all[left.len() as int] == TokenView::Open(d));
    assert(last.after(TokenView::Open(d)) == Some(
        ProgressView { open: outer, next: Next::Item },
    )) by {
        assert(last.open.push(Nesting::Group(d)) =~= outer);
    }
    lemma_grouped_end(front, expr, back, outer, d);
    assert(outer.drop_last() =~= Seq::<Nesting>::empty());
}

/// An opening bracket that is not closed is an error.
pub proof fn lemma_unclosed(expr: Seq<TokenView>, d: Delimiter)
    requires
        is_whole(expr),
        d != Delimiter::Brace,
    ensures
        expression_at(seq![TokenView::Open(d)] + expr, 0) == Err::<int, MacroError>(
            MacroError::UnbalancedDelimiter((1 + expr.len()) as usize),
        ),
{
    let front = seq![TokenView::Open(d)];
    let none = Seq::<TokenView>::empty();
    let outer = seq![Nesting::Group(d)];
    let start = ProgressView { open: outer, next: Next::Item };
    let all = front + expr;
    assert(all[0] == TokenView::Open(d));
    assert(unread().after(TokenView::Open(d)) == Some(start)) by {
        assert(unread().open.push(Nesting::Group(d)) =~= outer);
    }
    lemma_whole_read(expr, 0, unread());
    let last = read(expr, 0, unread())->0;
    assert(expr.len() > 0);
    lemma_first(outer, expr[0]);
    lemma_read_inside(outer, expr, 1, unread().after(expr[0])->0);
    assert(read(expr, 0, start) == Some(inside(outer, last)));
    lemma_read_in(front, expr, none, 0, start);
    assert(all =~= front + expr + none);
    assert(inside(outer, last).open =~= outer);
}

/// Test if a word means something else than a name.
pub open spec fn is_keyword(text: Seq<char>) -> bool {
    ||| text == "as"@ || text == "is"@ || text == "else"@ || text == "in"@
    ||| text == "move"@ || text == "async"@ || text == "const"@ || text == "let"@
    ||| text == "loop"@ || text == "not"@ || text == "select"@ || text == "if"@
    ||| text == "match"@ || text == "while"@ || text == "for"@ || text == "return"@
    ||| text == "yield"@ || text == "break"@ || text == "continue"@ || text == "await"@
    ||| text == "enum"@ || text == "fn"@ || text == "impl"@ || text == "mod"@
    ||| text == "mut"@ || text == "pub"@ || text == "struct"@ || text == "use"@
    ||| text == "true"@ || text == "false"@
}

/// A name that is neither a keyword nor a label is an expression, and so is a path
/// with any word as its last component.
pub proof fn lemma_name(text: Seq<char>, component: Seq<char>)
    requires
        !is_keyword(text),
        text.len() == 0 || text[0] != '\'',
    ensures
        is_whole(seq![word(text)]),
        is_whole(seq![word(text), mark("::"@), word(component)]),
{
    let a = seq![word(text)];
    let b = seq![word(text), mark("::"@), word(component)];
    lemma_marks();
    reveal_with_fuel(read, 4);
    let p = unread().expecting(Next::Path);
    assert(unread().after(a[0]) == unread().after_word(text));
    assert(unread().after(a[0]) == Some(p));
    assert(p.after(b[1]) == p.after_mark("::"@));
    assert(p.after(b[1]) == Some(p.expecting(Next::Component)));
    assert(p.expecting(Next::Component).after(b[2]) == Some(p));
    lemma_alone(a);
    lemma_alone(b);
}

/// No expression starts with a word that goes on with one, or with one that starts
/// an item.
pub proof fn lemma_no_start(text: Seq<char>, back: Seq<TokenView>)
    requires
        ({
            ||| text == "as"@ || text == "is"@ || text == "else"@ || text == "in"@
            ||| text == "await"@ || text == "enum"@ || text == "fn"@ || text == "impl"@
            ||| text == "mod"@ || text == "mut"@ || text == "pub"@ || text == "struct"@
            ||| text == "use"@
        }),
    ensures
        expression_at(seq![word(text)] + back, 0) == Err::<int, MacroError>(
            MacroError::ExpectedExpression(0),
        ),
{
    let all = seq![word(text)] + back;
    assert(all[0] == word(text));
    assert(unread().after(all[0]) == unread().after_word(text));
}

/// A word that works like an operator, with an expression on both sides, makes an
/// expression.
pub proof fn lemma_infix_word(left: Seq<TokenView>, text: Seq<char>, right: Seq<TokenView>)
    requires
        is_whole(left),
        is_whole(right),
        text == "as"@ || text == "is"@ || text == "else"@ || text == "in"@,
    ensures
        is_whole(left + seq![word(text)] + right),
{
    assert forall|p: ProgressView|
        p.open.len() == 0 && #[trigger] p.is_done() implies p.after(word(text)) == Some(
        ProgressView { open: p.open, next: Next::Operand },
    ) by {
        assert(p.after(word(text)) == p.after_word(text));
    }
    lemma_operand(left, word(text), right);
}

/// How the words are spelled that come in front of an expression.
proof fn lemma_spelled_starts()
    ensures
        spelled("move"@) == (4nat, 'm', 'o', 'v'),
        spelled("async"@) == (5nat, 'a', 's', 'y'),
        spelled("const"@) == (5nat, 'c', 'o', 'n'),
        spelled("let"@) == (3nat, 'l', 'e', 't'),
        spelled("loop"@) == (4nat, 'l', 'o', 'o'),
        spelled("not"@) == (3nat, 'n', 'o', 't'),
        spelled("select"@) == (6nat, 's', 'e', 'l'),
        spelled("if"@) == (2nat, 'i', 'f', ' '),
        spelled("match"@) == (5nat, 'm', 'a', 't'),
        spelled("while"@) == (5nat, 'w', 'h', 'i'),
        spelled("for"@) == (3nat, 'f', 'o', 'r'),
        spelled("return"@) == (6nat, 'r', 'e', 't'),
        spelled("yield"@) == (5nat, 'y', 'i', 'e'),
        spelled("break"@) == (5nat, 'b', 'r', 'e'),
        spelled("continue"@) == (8nat, 'c', 'o', 'n'),
{
    reveal_strlit("move");
    reveal_strlit("async");
    reveal_strlit("const");
    reveal_strlit("let");
    reveal_strlit("loop");
    reveal_strlit("not");
    reveal_strlit("select");
    reveal_strlit("if");
    reveal_strlit("match");
    reveal_strlit("while");
    reveal_strlit("for");
    reveal_strlit("return");
    reveal_strlit("yield");
    reveal_strlit("break");
    reveal_strlit("continue");
}

/// A word that an operand has to come behind makes an expression with one, and
/// none without.
pub proof fn lemma_prefix_word(text: Seq<char>, right: Seq<TokenView>)
    requires
        is_whole(right),
        ({
            ||| text == "move"@ || text == "async"@ || text == "const"@ || text == "let"@
            ||| text == "loop"@ || text == "not"@ || text == "select"@
        }),
    ensures
        is_whole(seq![word(text)] + right),
        expression_at(seq![word(text)], 0) == Err::<int, MacroError>(
            MacroError::ExpectedExpression(1),
        ),
{
    lemma_spelled_words();
    lemma_spelled_starts();
    assert(spelled(text).1 != '\'');
    assert(unread().after(word(text)) == unread().after_word(text));
    lemma_prefix(word(text), right);
    let alone = seq![word(text)];
    assert(alone[0] == word(text));
    reveal_with_fuel(expression_end, 2);
}

/// The words that leave something are expressions on their own, and with a label
/// or a literal behind them.
pub proof fn lemma_jump(text: Seq<char>, label: Seq<char>, literal: Seq<char>)
    requires
        text == "return"@ || text == "yield"@ || text == "break"@ || text == "continue"@,
        label.len() > 0,
        label[0] == '\'',
    ensures
        is_whole(seq![word(text)]),
        is_whole(seq![word(text), word(label)]),
        is_whole(seq![word(text), TokenView::Literal(literal)]),
        is_whole(seq![word(text), TokenView::Str(literal)]),
{
    lemma_spelled_words();
    lemma_spelled_starts();
    assert(spelled(text).1 != '\'');
    assert(spelled(label).1 == '\'');
    let a = seq![word(text)];
    let b = seq![word(text), word(label)];
    let c = seq![word(text), TokenView::Literal(literal)];
    let d = seq![word(text), TokenView::Str(literal)];
    let p = unread().expecting(Next::Maybe);
    assert(unread().after(a[0]) == unread().after_word(text));
    assert(unread().after(a[0]) == Some(p));
    assert(p.after(b[1]) == p.after_word(label));
    assert(p.after(b[1]) == Some(p.expecting(Next::Label)));
    reveal_with_fuel(read, 3);
    lemma_alone(a);
    lemma_alone(b);
    lemma_alone(c);
    lemma_alone(d);
}

/// An expression behind a label and a colon is an expression, and one behind the
/// parameter of a closure is.
pub proof fn lemma_labelled(label: Seq<char>, name: Seq<char>, right: Seq<TokenView>)
    requires
        is_whole(right),
        label.len() > 0,
        label[0] == '\'',
        !is_keyword(name),
        name.len() == 0 || name[0] != '\'',
    ensures
        is_whole(seq![word(label), mark(":"@)] + right),
        is_whole(seq![mark("|"@), word(name), mark("|"@)] + right),
        is_whole(seq![mark("|"@), mark("|"@)] + right),
        is_whole(seq![mark("||"@)] + right),
{
    lemma_marks();
    lemma_spelled_words();
    lemma_spelled_starts();
    assert(spelled(label).1 == '\'');
    let a = seq![word(label), mark(":"@)];
    let b = seq![mark("|"@), word(name), mark("|"@)];
    let c = seq![mark("|"@), mark("|"@)];
    let d = seq![mark("||"@)];
    let p = unread().expecting(Next::Colon);
    assert(unread().after(a[0]) == unread().after_word(label));
    assert(unread().after(a[0]) == Some(p));
    assert(p.after(a[1]) == p.after_mark(":"@));
    assert(p.after(a[1]) == Some(unread()));
    let q = unread().opened(Nesting::Parameters, Next::Item);
    assert(unread().after(b[0]) == unread().after_mark("|"@));
    assert(unread().after(b[0]) == Some(q));
    assert(q.open.last() == Nesting::Parameters);
    assert(q.open.drop_last() =~= Seq::<Nesting>::empty());
    assert(q.after(b[1]) == q.after_word(name));
    let n = q.expecting(Next::Path);
    assert(q.after(b[1]) == Some(n));
    assert(n.after(b[2]) == n.after_mark("|"@));
    assert(n.after(b[2]) == Some(unread()));
    assert(q.after(c[1]) == q.after_mark("|"@));
    assert(q.after(c[1]) == Some(unread()));
    assert(unread().after(d[0]) == unread().after_mark("||"@));
    assert(unread().after(d[0]) == Some(unread()));
    assert(read(a, 0, unread()) == Some(unread())) by {
        reveal_with_fuel(read, 3);
    }
    assert(read(b, 0, unread()) == Some(unread())) by {
        reveal_with_fuel(read, 4);
    }
    assert(read(c, 0, unread()) == Some(unread())) by {
        reveal_with_fuel(read, 3);
    }
    assert(read(d, 0, unread()) == Some(unread())) by {
        reveal_with_fuel(read, 2);
    }
    lemma_front(a, right);
    lemma_front(b, right);
    lemma_front(c, right);
    lemma_front(d, right);
}

/// An expression with tokens in front of it, after which an expression is still
/// expected.
proof fn lemma_front(front: Seq<TokenView>, right: Seq<TokenView>)
    requires
        is_whole(right),
        read(front, 0, unread()) == Some(unread()),
    ensures
        is_whole(front + right),
{
    lemma_read_on(front, right, 0, unread());
    lemma_end_behind(front, right, 0, unread());
}

/// Test if no token opens or closes anything.
pub open spec fn is_flat(tokens: Seq<TokenView>) -> bool {
    forall|i: int|
        0 <= i < tokens.len() ==> !(#[trigger] tokens[i] is Open) && !(tokens[i] is Close)
}

/// Tokens that are not read as expressions are all passed over.
proof fn lemma_passed(tokens: Seq<TokenView>, i: int, progress: ProgressView)
    requires
        0 <= i <= tokens.len(),
        is_flat(tokens),
        progress.is_unread(),
    ensures
        read(tokens, i, progress) == Some(progress),
    decreases tokens.len() - i,
{
    if i < tokens.len() {
        assert(progress.after(tokens[i]) == Some(progress));
        lemma_passed(tokens, i + 1, progress);
    }
}

/// What comes between a front and a closing bracket is passed over, and an
/// expression can end there.
proof fn lemma_enclosed(
    front: Seq<TokenView>,
    tokens: Seq<TokenView>,
    d: Delimiter,
    progress: ProgressView,
)
    requires
        is_flat(tokens),
        read(front, 0, unread()) == Some(progress),
        progress.open =~= seq![Nesting::Tokens(d)],
    ensures
        is_whole(front + tokens + seq![TokenView::Close(d)]),
{
    let close = seq![TokenView::Close(d)];
    let all = front + tokens + close;
    lemma_read_on(front, tokens + close, 0, unread());
    assert(all =~= front + (tokens + close));
    lemma_passed(tokens, 0, progress);
    lemma_read_in(front, tokens, close, 0, progress);
    assert(all[(front.len() + tokens.len()) as int] == TokenView::Close(d));
    let last = progress.closed(Next::Operator);
    assert(progress.after(TokenView::Close(d)) == Some(last));
    assert(last.open.len() == 0);
    assert(expression_end(all, (front.len() + tokens.len()) as int, progress) == expression_end(
        all,
        (front.len() + tokens.len() + 1) as int,
        last,
    ));
}

/// A block, an object, the fields behind a name, the call of a macro, and a
/// keyword with a name and a block are expressions, whatever tokens are between
/// the brackets.
pub proof fn lemma_enclosing(name: Seq<char>, text: Seq<char>, tokens: Seq<TokenView>, d: Delimiter)
    requires
        is_flat(tokens),
        !is_keyword(name),
        name.len() == 0 || name[0] != '\'',
        text == "if"@ || text == "match"@ || text == "while"@ || text == "for"@,
    ensures
        is_whole(seq![brace()] + tokens + seq![end_brace()]),
        is_whole(seq![mark("#"@), brace()] + tokens + seq![end_brace()]),
        is_whole(seq![word(name), brace()] + tokens + seq![end_brace()]),
        is_whole(
            seq![word(name), mark("!"@), TokenView::Open(d)] + tokens + seq![TokenView::Close(d)],
        ),
        is_whole(seq![word(text), word(name), brace()] + tokens + seq![end_brace()]),
{
    lemma_marks();
    lemma_spelled_words();
    lemma_spelled_starts();
    assert(spelled(text).1 != '\'');
    let inner = Nesting::Tokens(Delimiter::Brace);
    let open = unread().opened(inner, Next::Item);
    assert(open.open =~= seq![inner]);
    let p = unread().expecting(Next::Path);
    assert(unread().after(word(name)) == unread().after_word(name));
    assert(unread().after(word(name)) == Some(p));

    let a = seq![brace()];
    assert(unread().after(a[0]) == Some(open));
    assert(read(a, 0, unread()) == Some(open)) by {
        reveal_with_fuel(read, 2);
    }
    lemma_enclosed(a, tokens, Delimiter::Brace, open);

    let b = seq![mark("#"@), brace()];
    let hash = unread().expecting(Next::Hash);
    assert(unread().after(b[0]) == unread().after_mark("#"@));
    assert(unread().after(b[0]) == Some(hash));
    assert(hash.after(b[1]) == Some(open));
    assert(read(b, 0, unread()) == Some(open)) by {
        reveal_with_fuel(read, 3);
    }
    lemma_enclosed(b, tokens, Delimiter::Brace, open);

    let c = seq![word(name), brace()];
    assert(p.after(c[1]) == Some(open));
    assert(read(c, 0, unread()) == Some(open)) by {
        reveal_with_fuel(read, 3);
    }
    lemma_enclosed(c, tokens, Delimiter::Brace, open);

    let e = seq![word(name), mark("!"@), TokenView::Open(d)];
    let args = unread().expecting(Next::Arguments);
    assert(p.after(e[1]) == p.after_mark("!"@));
    assert(p.after(e[1]) == Some(args));
    let call = unread().opened(Nesting::Tokens(d), Next::Item);
    assert(args.after(e[2]) == Some(call));
    assert(read(e, 0, unread()) == Some(call)) by {
        reveal_with_fuel(read, 4);
    }
    assert(call.open =~= seq![Nesting::Tokens(d)]);
    lemma_enclosed(e, tokens, d, call);

    let f = seq![word(text), word(name), brace()];
    let head = unread().opened(Nesting::Head, Next::Operand);
    assert(unread().after(f[0]) == unread().after_word(text));
    assert(unread().after(f[0]) == Some(head));
    assert(head.open.last() == Nesting::Head);
    assert(head.after(f[1]) == head.after_word(name));
    let named = head.expecting(Next::Path);
    assert(head.after(f[1]) == Some(named));
    let body = named.closed(Next::Operator).opened(inner, Next::Item);
    assert(named.after(f[2]) == Some(body));
    assert(body.open =~= seq![inner]);
    assert(read(f, 0, unread()) == Some(body)) by {
        reveal_with_fuel(read, 4);
    }
    lemma_enclosed(f, tokens, Delimiter::Brace, body);
}

} // verus!

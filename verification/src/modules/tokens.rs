//! Streams of tokens, which macros take and give.

use vstd::prelude::*;
use vstd::string::*;
use crate::runtime::debug::{append_quoted, quoted};

verus! {

/// What tokens are put between.
#[derive(Debug, Clone, Copy, PartialEq, Eq, Structural)]
pub enum Delimiter {
    /// Round brackets.
    Paren,
    /// Curly brackets.
    Brace,
    /// Square brackets.
    Bracket,
}

/// A token.
#[derive(Debug, PartialEq, Eq)]
pub enum Token {
    /// An identifier or a keyword.
    Ident(String),
    /// A literal, as it is written in the source.
    Literal(String),
    /// A string literal, by its value.
    Str(String),
    /// A punctuation mark.
    Punct(String),
    /// An opening delimiter.
    Open(Delimiter),
    /// A closing delimiter.
    Close(Delimiter),
}

/// The mathematical value of a [`Token`].
pub enum TokenView {
    /// An identifier or a keyword.
    Ident(Seq<char>),
    /// A literal, as it is written in the source.
    Literal(Seq<char>),
    /// A string literal, by its value.
    Str(Seq<char>),
    /// A punctuation mark.
    Punct(Seq<char>),
    /// An opening delimiter.
    Open(Delimiter),
    /// A closing delimiter.
    Close(Delimiter),
}

impl View for Token {
    type V = TokenView;

    open spec fn view(&self) -> TokenView {
        match self {
            Token::Ident(text) => TokenView::Ident(text@),
            Token::Literal(text) => TokenView::Literal(text@),
            Token::Str(text) => TokenView::Str(text@),
            Token::Punct(text) => TokenView::Punct(text@),
            Token::Open(delimiter) => TokenView::Open(*delimiter),
            Token::Close(delimiter) => TokenView::Close(*delimiter),
        }
    }
}

/// The mathematical values of tokens.
pub open spec fn tokens(stream: Seq<Token>) -> Seq<TokenView> {
    stream.map_values(|token: Token| token@)
}

/// Why a macro cannot be expanded.
#[derive(Debug, Clone, Copy, PartialEq, Eq, Structural)]
pub enum MacroError {
    /// An expression was expected at the token.
    ExpectedExpression(usize),
    /// A comma was expected at the token.
    ExpectedComma(usize),
    /// The delimiter at the token is not closed, or not opened.
    UnbalancedDelimiter(usize),
    /// Something else was expected at the token.
    UnexpectedToken(usize),
}

/// Test if a token is a comma.
pub open spec fn is_comma(token: TokenView) -> bool {
    token == TokenView::Punct(","@)
}

/// What the tokens of an expression are nested in.
#[derive(Debug, Clone, Copy, PartialEq, Eq, Structural)]
pub enum Nesting {
    /// Expressions between delimiters, with commas between them.
    Group(Delimiter),
    /// Tokens between delimiters which are not read as expressions: blocks, fields,
    /// and the arguments of macros.
    Tokens(Delimiter),
    /// An attribute.
    Attribute,
    /// The parameters of a closure.
    Parameters,
    /// Generic arguments.
    Generics,
    /// What comes between a keyword and the block that belongs to it.
    Head,
}

/// What is expected next in an expression.
#[derive(Debug, Clone, Copy, PartialEq, Eq, Structural)]
pub enum Next {
    /// An operand.
    Operand,
    /// An operand, or the end of what the tokens are nested in.
    Item,
    /// An operand or an operator. The expression can end.
    Maybe,
    /// What comes behind the label of a jump, which is an operand or an operator,
    /// or the colon of another label. The expression can end.
    Label,
    /// An operator behind a path. The expression can end.
    Path,
    /// An operator behind a field, or generic arguments. The expression can end.
    Member,
    /// An operator behind anything else. The expression can end.
    Operator,
    /// The name or the number of a field.
    Field,
    /// A component of a path.
    Component,
    /// The colon behind a label.
    Colon,
    /// What comes behind a `#`: an object or an attribute.
    Hash,
    /// The arguments of a macro.
    Arguments,
}

/// How far an expression has been read.
#[derive(Debug)]
pub struct Progress {
    /// What the next token is nested in, innermost last.
    pub open: Vec<Nesting>,
    /// What is expected next.
    pub next: Next,
}

/// The mathematical value of a [`Progress`].
#[verifier::ext_equal]
pub struct ProgressView {
    /// What the next token is nested in, innermost last.
    pub open: Seq<Nesting>,
    /// What is expected next.
    pub next: Next,
}

impl View for Progress {
    type V = ProgressView;

    open spec fn view(&self) -> ProgressView {
        ProgressView { open: self.open@, next: self.next }
    }
}

/// Nothing has been read of an expression.
pub open spec fn unread() -> ProgressView {
    ProgressView { open: Seq::empty(), next: Next::Operand }
}

/// Test if a word is a keyword that goes on with an expression, like an operator.
pub open spec fn continues(word: Seq<char>) -> bool {
    word == "as"@ || word == "is"@ || word == "else"@ || word == "in"@
}

/// Test if a word is a keyword that an operand has to come behind.
pub open spec fn precedes(word: Seq<char>) -> bool {
    ||| word == "move"@ || word == "async"@ || word == "const"@ || word == "let"@
    ||| word == "loop"@ || word == "not"@ || word == "select"@
}

/// Test if a word is a keyword that an expression and a block come behind.
pub open spec fn heads(word: Seq<char>) -> bool {
    word == "if"@ || word == "match"@ || word == "while"@ || word == "for"@
}

/// Test if a word is a keyword behind which an operand can be left out.
pub open spec fn stands_alone(word: Seq<char>) -> bool {
    word == "return"@ || word == "yield"@ || word == "break"@ || word == "continue"@
}

/// Test if a word is a keyword that no expression starts with.
pub open spec fn is_reserved(word: Seq<char>) -> bool {
    ||| word == "await"@ || word == "enum"@ || word == "fn"@ || word == "impl"@
    ||| word == "mod"@ || word == "mut"@ || word == "pub"@ || word == "struct"@
    ||| word == "use"@
}

/// Test if a word is a literal.
pub open spec fn is_truth(word: Seq<char>) -> bool {
    word == "true"@ || word == "false"@
}

/// Test if a word is a label.
pub open spec fn is_label(word: Seq<char>) -> bool {
    word.len() > 0 && word[0] == '\''
}

/// Test if a punctuation mark is an operator that an operand comes behind, and
/// that does not start an operand.
pub open spec fn is_infix(mark: Seq<char>) -> bool {
    ||| mark == "+"@ || mark == "/"@ || mark == "%"@ || mark == "^"@ || mark == "<<"@
    ||| mark == ">>"@ || mark == "&&"@ || mark == "=="@ || mark == "!="@ || mark == "<"@
    ||| mark == ">"@ || mark == "<="@ || mark == ">="@ || mark == "="@ || mark == "+="@
    ||| mark == "-="@ || mark == "*="@ || mark == "/="@ || mark == "%="@ || mark == "&="@
    ||| mark == "|="@ || mark == "^="@ || mark == "<<="@ || mark == ">>="@
}

/// Test if a punctuation mark is an operator with one operand, or with two.
pub open spec fn is_prefix(mark: Seq<char>) -> bool {
    mark == "-"@ || mark == "*"@ || mark == "&"@
}

/// What is expected behind a punctuation mark that starts an operand. A `|` that
/// starts a closure is not one of these.
pub open spec fn starts(mark: Seq<char>) -> Option<Next> {
    if is_prefix(mark) || mark == "!"@ || mark == "||"@ || mark == "..="@ {
        Some(Next::Operand)
    } else if mark == ".."@ {
        Some(Next::Maybe)
    } else if mark == "#"@ {
        Some(Next::Hash)
    } else if mark == "::"@ {
        Some(Next::Component)
    } else if mark == "_"@ {
        Some(Next::Operator)
    } else {
        None
    }
}

/// What is expected behind a punctuation mark that goes on with an expression.
/// Only a path or a field can have components, and only a path can be a macro.
pub open spec fn goes_on(mark: Seq<char>, next: Next) -> Option<Next> {
    if is_infix(mark) || is_prefix(mark) || mark == "|"@ || mark == "||"@ || mark == "..="@ {
        Some(Next::Operand)
    } else if mark == ".."@ {
        Some(Next::Maybe)
    } else if mark == "?"@ {
        Some(Next::Operator)
    } else if mark == "."@ {
        Some(Next::Field)
    } else if mark == "::"@ && (next == Next::Path || next == Next::Member) {
        Some(Next::Component)
    } else if mark == "!"@ && next == Next::Path {
        Some(Next::Arguments)
    } else {
        None
    }
}

impl ProgressView {
    /// Test if the next token is directly inside of this.
    pub open spec fn is_in(self, nesting: Nesting) -> bool {
        self.open.len() > 0 && self.open.last() == nesting
    }

    /// Test if the next token is inside of tokens that are not read as expressions.
    pub open spec fn is_unread(self) -> bool {
        self.open.len() > 0 && match self.open.last() {
            Nesting::Tokens(_) => true,
            Nesting::Attribute => true,
            _ => false,
        }
    }

    /// Test if the next token is directly inside of a list with commas.
    pub open spec fn is_list(self) -> bool {
        self.open.len() > 0 && match self.open.last() {
            Nesting::Group(_) => true,
            Nesting::Parameters => true,
            Nesting::Generics => true,
            _ => false,
        }
    }

    /// Test if an expression can end here.
    pub open spec fn is_done(self) -> bool {
        match self.next {
            Next::Maybe => true,
            Next::Label => true,
            Next::Path => true,
            Next::Member => true,
            Next::Operator => true,
            _ => false,
        }
    }

    /// Test if a list can end here.
    pub open spec fn can_close(self) -> bool {
        self.is_done() || self.next == Next::Item
    }

    /// Test if an operand can start here.
    pub open spec fn can_start(self) -> bool {
        match self.next {
            Next::Operand => true,
            Next::Item => true,
            Next::Maybe => true,
            Next::Label => true,
            _ => false,
        }
    }

    /// With something else expected next.
    pub open spec fn expecting(self, next: Next) -> ProgressView {
        ProgressView { next, ..self }
    }

    /// With something opened.
    pub open spec fn opened(self, nesting: Nesting, next: Next) -> ProgressView {
        ProgressView { open: self.open.push(nesting), next }
    }

    /// With the innermost thing closed.
    pub open spec fn closed(self, next: Next) -> ProgressView {
        ProgressView { open: self.open.drop_last(), next }
    }

    /// With an opening delimiter read. A curly bracket behind an operand opens the
    /// block that belongs to a keyword, or the fields of a path.
    pub open spec fn after_open(self, delimiter: Delimiter) -> Option<ProgressView> {
        let block = delimiter == Delimiter::Brace;

        if self.is_unread() || self.next == Next::Arguments {
            Some(self.opened(Nesting::Tokens(delimiter), Next::Item))
        } else if self.next == Next::Hash {
            match delimiter {
                Delimiter::Paren => None,
                Delimiter::Brace => Some(self.opened(Nesting::Tokens(delimiter), Next::Item)),
                Delimiter::Bracket => Some(self.opened(Nesting::Attribute, Next::Item)),
            }
        } else if block && self.is_done() && self.is_in(Nesting::Head) {
            Some(self.closed(Next::Operator).opened(Nesting::Tokens(delimiter), Next::Item))
        } else if block && (self.can_start() || self.next == Next::Path) {
            Some(self.opened(Nesting::Tokens(delimiter), Next::Item))
        } else if !block && (self.can_start() || self.is_done()) {
            Some(self.opened(Nesting::Group(delimiter), Next::Item))
        } else {
            None
        }
    }

    /// With a closing delimiter read.
    pub open spec fn after_close(self, delimiter: Delimiter) -> Option<ProgressView> {
        if self.is_in(Nesting::Tokens(delimiter)) {
            Some(self.closed(Next::Operator))
        } else if self.is_in(Nesting::Attribute) && delimiter == Delimiter::Bracket {
            Some(self.closed(Next::Operand))
        } else if self.is_in(Nesting::Group(delimiter)) && self.can_close() {
            Some(self.closed(Next::Operator))
        } else {
            None
        }
    }

    /// With a word read.
    pub open spec fn after_word(self, word: Seq<char>) -> Option<ProgressView> {
        if self.is_unread() {
            Some(self)
        } else if self.next == Next::Field {
            Some(self.expecting(Next::Member))
        } else if self.next == Next::Component {
            Some(self.expecting(Next::Path))
        } else if continues(word) {
            if self.is_done() {
                Some(self.expecting(Next::Operand))
            } else {
                None
            }
        } else if !self.can_start() || is_reserved(word) {
            None
        } else if is_truth(word) {
            Some(self.expecting(Next::Operator))
        } else if is_label(word) {
            if self.is_done() {
                Some(self.expecting(Next::Label))
            } else {
                Some(self.expecting(Next::Colon))
            }
        } else if heads(word) {
            Some(self.opened(Nesting::Head, Next::Operand))
        } else if precedes(word) {
            Some(self.expecting(Next::Operand))
        } else if stands_alone(word) {
            Some(self.expecting(Next::Maybe))
        } else {
            Some(self.expecting(Next::Path))
        }
    }

    /// With a literal read, which can be the number of a field.
    pub open spec fn after_literal(self, number: bool) -> Option<ProgressView> {
        if self.is_unread() {
            Some(self)
        } else if self.can_start() || (number && self.next == Next::Field) {
            Some(self.expecting(Next::Operator))
        } else {
            None
        }
    }

    /// With a punctuation mark read. A `|` where an operand is expected starts
    /// the parameters of a closure, which end at the next one. A `<` behind `::`
    /// starts generic arguments, which end at a `>`. A `>>` ends two of them.
    pub open spec fn after_mark(self, mark: Seq<char>) -> Option<ProgressView> {
        if self.is_unread() {
            Some(self)
        } else if mark == ","@ {
            if self.is_list() && self.is_done() {
                Some(self.expecting(Next::Item))
            } else {
                None
            }
        } else if mark == "|"@ && self.is_in(Nesting::Parameters) && self.can_close() {
            Some(self.closed(Next::Operand))
        } else if mark == "|"@ && self.can_start() {
            Some(self.opened(Nesting::Parameters, Next::Item))
        } else if mark == "<"@ && self.next == Next::Component {
            Some(self.opened(Nesting::Generics, Next::Item))
        } else if mark == ">"@ && self.is_in(Nesting::Generics) && self.can_close() {
            Some(self.closed(Next::Path))
        } else if mark == ">>"@ && self.is_in(Nesting::Generics) && self.closed(Next::Path).is_in(
            Nesting::Generics,
        ) && self.can_close() {
            Some(self.closed(Next::Path).closed(Next::Path))
        } else if mark == ":"@ {
            if self.next == Next::Colon || self.next == Next::Label {
                Some(self.expecting(Next::Operand))
            } else {
                None
            }
        } else if self.can_start() && starts(mark) is Some {
            Some(self.expecting(starts(mark)->0))
        } else if self.is_done() && goes_on(mark, self.next) is Some {
            Some(self.expecting(goes_on(mark, self.next)->0))
        } else {
            None
        }
    }

    /// With a token read, unless it cannot come next.
    pub open spec fn after(self, token: TokenView) -> Option<ProgressView> {
        match token {
            TokenView::Open(delimiter) => self.after_open(delimiter),
            TokenView::Close(delimiter) => self.after_close(delimiter),
            TokenView::Ident(word) => self.after_word(word),
            TokenView::Punct(mark) => self.after_mark(mark),
            TokenView::Literal(_) => self.after_literal(true),
            TokenView::Str(_) => self.after_literal(false),
        }
    }
}

/// Where an expression ends, or why it cannot end, at an index `i` whose token
/// cannot come next. A closing delimiter that belongs to nothing is not an end.
pub open spec fn ended(stream: Seq<TokenView>, i: int, progress: ProgressView) -> Result<
    int,
    MacroError,
> {
    if progress.is_unread() {
        Err(MacroError::UnbalancedDelimiter(i as usize))
    } else if !progress.can_close() {
        Err(MacroError::ExpectedExpression(i as usize))
    } else if i >= stream.len() || stream[i] is Close {
        if i >= stream.len() && progress.open.len() == 0 {
            Ok(i)
        } else {
            Err(MacroError::UnbalancedDelimiter(i as usize))
        }
    } else if progress.open.len() == 0 {
        Ok(i)
    } else {
        Err(MacroError::UnexpectedToken(i as usize))
    }
}

/// The index behind an expression which has been read up to `i`. An expression
/// goes up to the first token that cannot come next. It is an error if the
/// expression cannot end there.
pub open spec fn expression_end(stream: Seq<TokenView>, i: int, progress: ProgressView) -> Result<
    int,
    MacroError,
>
    decreases stream.len() - i,
{
    if i < 0 || i >= stream.len() {
        ended(stream, i, progress)
    } else {
        match progress.after(stream[i]) {
            Some(next) => expression_end(stream, i + 1, next),
            None => ended(stream, i, progress),
        }
    }
}

/// The index behind the expression at `i`.
pub open spec fn expression_at(stream: Seq<TokenView>, i: int) -> Result<int, MacroError> {
    expression_end(stream, i, unread())
}

/// The end of an expression is in the stream, and behind its start if nothing has
/// been read of it.
pub proof fn lemma_expression_end(stream: Seq<TokenView>, i: int, progress: ProgressView)
    requires
        0 <= i <= stream.len(),
    ensures
        expression_end(stream, i, progress) matches Ok(end) ==> i <= end <= stream.len() && (
        !progress.can_close() ==> i < end),
    decreases stream.len() - i,
{
    if i < stream.len() {
        if let Some(next) = progress.after(stream[i]) {
            lemma_expression_end(stream, i + 1, next);
        }
    }
}

/// How a token is written.
pub open spec fn token_text(token: TokenView) -> Seq<char> {
    match token {
        TokenView::Ident(text) => text,
        TokenView::Literal(text) => text,
        TokenView::Str(text) => quoted(text),
        TokenView::Punct(text) => text,
        TokenView::Open(Delimiter::Paren) => "("@,
        TokenView::Open(Delimiter::Brace) => "{"@,
        TokenView::Open(Delimiter::Bracket) => "["@,
        TokenView::Close(Delimiter::Paren) => ")"@,
        TokenView::Close(Delimiter::Brace) => "}"@,
        TokenView::Close(Delimiter::Bracket) => "]"@,
    }
}

/// How the first `n` tokens are written, with a space between them.
pub open spec fn stringified(stream: Seq<TokenView>, n: nat) -> Seq<char>
    decreases n,
{
    if n == 0 {
        Seq::empty()
    } else if n == 1 {
        token_text(stream[0])
    } else {
        stringified(stream, (n - 1) as nat) + " "@ + token_text(stream[n - 1])
    }
}

impl Token {
    /// Copy the token.
    pub fn copy(&self) -> (token: Self)
        ensures
            token == *self,
    {
        match self {
            Token::Ident(text) => Token::Ident(text.clone()),
            Token::Literal(text) => Token::Literal(text.clone()),
            Token::Str(text) => Token::Str(text.clone()),
            Token::Punct(text) => Token::Punct(text.clone()),
            Token::Open(delimiter) => Token::Open(*delimiter),
            Token::Close(delimiter) => Token::Close(*delimiter),
        }
    }

    /// Test if the token is a comma.
    pub fn is_comma(&self) -> (r: bool)
        ensures
            r == is_comma(self@),
    {
        match self {
            Token::Punct(text) => *text == ",".to_owned(),
            _ => false,
        }
    }

    /// Append the token to a text.
    fn append(&self, text: &mut String)
        ensures
            final(text)@ == old(text)@ + token_text(self@),
    {
        match self {
            Token::Ident(s) => text.append(s.as_str()),
            Token::Literal(s) => text.append(s.as_str()),
            Token::Str(s) => append_quoted(s.as_str(), text),
            Token::Punct(s) => text.append(s.as_str()),
            Token::Open(Delimiter::Paren) => text.append("("),
            Token::Open(Delimiter::Brace) => text.append("{"),
            Token::Open(Delimiter::Bracket) => text.append("["),
            Token::Close(Delimiter::Paren) => text.append(")"),
            Token::Close(Delimiter::Brace) => text.append("}"),
            Token::Close(Delimiter::Bracket) => text.append("]"),
        }
    }
}

/// Test if a word is a keyword that goes on with an expression.
fn is_continuing(word: &String) -> (r: bool)
    ensures
        r == continues(word@),
{
    *word == "as".to_owned() || *word == "is".to_owned() || *word == "else".to_owned()
        || *word == "in".to_owned()
}

/// Test if a word is a keyword that an operand has to come behind.
fn is_preceding(word: &String) -> (r: bool)
    ensures
        r == precedes(word@),
{
    *word == "move".to_owned() || *word == "async".to_owned() || *word == "const".to_owned()
        || *word == "let".to_owned() || *word == "loop".to_owned()
        || *word == "not".to_owned() || *word == "select".to_owned()
}

/// Test if a word is a keyword that an expression and a block come behind.
fn is_heading(word: &String) -> (r: bool)
    ensures
        r == heads(word@),
{
    *word == "if".to_owned() || *word == "match".to_owned() || *word == "while".to_owned()
        || *word == "for".to_owned()
}

/// Test if a word is a keyword behind which an operand can be left out.
fn is_alone(word: &String) -> (r: bool)
    ensures
        r == stands_alone(word@),
{
    *word == "return".to_owned() || *word == "yield".to_owned()
        || *word == "break".to_owned() || *word == "continue".to_owned()
}

/// Test if a word is a keyword that no expression starts with.
fn word_is_reserved(word: &String) -> (r: bool)
    ensures
        r == is_reserved(word@),
{
    *word == "await".to_owned() || *word == "enum".to_owned() || *word == "fn".to_owned()
        || *word == "impl".to_owned() || *word == "mod".to_owned() || *word == "mut".to_owned()
        || *word == "pub".to_owned() || *word == "struct".to_owned() || *word == "use".to_owned()
}

/// Test if a word is a label.
fn starts_label(word: &String) -> (r: bool)
    ensures
        r == is_label(word@),
{
    word.as_str().unicode_len() > 0 && word.as_str().get_char(0) == '\''
}

/// Test if a punctuation mark is an operator that does not start an operand.
fn mark_is_infix(mark: &String) -> (r: bool)
    ensures
        r == is_infix(mark@),
{
    *mark == "+".to_owned() || *mark == "/".to_owned() || *mark == "%".to_owned()
        || *mark == "^".to_owned() || *mark == "<<".to_owned() || *mark == ">>".to_owned()
        || *mark == "&&".to_owned() || *mark == "==".to_owned() || *mark == "!=".to_owned()
        || *mark == "<".to_owned() || *mark == ">".to_owned() || *mark == "<=".to_owned()
        || *mark == ">=".to_owned() || *mark == "=".to_owned() || *mark == "+=".to_owned()
        || *mark == "-=".to_owned() || *mark == "*=".to_owned() || *mark == "/=".to_owned()
        || *mark == "%=".to_owned() || *mark == "&=".to_owned() || *mark == "|=".to_owned()
        || *mark == "^=".to_owned() || *mark == "<<=".to_owned()
        || *mark == ">>=".to_owned()
}

/// Test if a punctuation mark is an operator with one operand, or with two.
fn mark_is_prefix(mark: &String) -> (r: bool)
    ensures
        r == is_prefix(mark@),
{
    *mark == "-".to_owned() || *mark == "*".to_owned() || *mark == "&".to_owned()
}

/// What is expected behind a punctuation mark that starts an operand.
fn next_of_start(mark: &String) -> (r: Option<Next>)
    ensures
        r == starts(mark@),
{
    if mark_is_prefix(mark) || *mark == "!".to_owned() || *mark == "||".to_owned() || *mark
        == "..=".to_owned() {
        Some(Next::Operand)
    } else if *mark == "..".to_owned() {
        Some(Next::Maybe)
    } else if *mark == "#".to_owned() {
        Some(Next::Hash)
    } else if *mark == "::".to_owned() {
        Some(Next::Component)
    } else if *mark == "_".to_owned() {
        Some(Next::Operator)
    } else {
        None
    }
}

/// What is expected behind a punctuation mark that goes on with an expression.
fn next_of_operator(mark: &String, next: Next) -> (r: Option<Next>)
    ensures
        r == goes_on(mark@, next),
{
    if mark_is_infix(mark) || mark_is_prefix(mark) || *mark == "|".to_owned() || *mark
        == "||".to_owned() || *mark == "..=".to_owned() {
        Some(Next::Operand)
    } else if *mark == "..".to_owned() {
        Some(Next::Maybe)
    } else if *mark == "?".to_owned() {
        Some(Next::Operator)
    } else if *mark == ".".to_owned() {
        Some(Next::Field)
    } else if *mark == "::".to_owned() && (next == Next::Path || next == Next::Member) {
        Some(Next::Component)
    } else if *mark == "!".to_owned() && next == Next::Path {
        Some(Next::Arguments)
    } else {
        None
    }
}

impl Progress {
    /// Test if the next token is directly inside of this.
    fn is_in(&self, nesting: Nesting) -> (r: bool)
        ensures
            r == self@.is_in(nesting),
    {
        let n: usize = self.open.len();
        n > 0 && self.open[n - 1] == nesting
    }

    /// Test if the next token is directly inside of two of this.
    fn is_twice_in(&self, nesting: Nesting) -> (r: bool)
        ensures
            r == (self@.is_in(nesting) && self@.closed(Next::Path).is_in(nesting)),
    {
        let n: usize = self.open.len();
        n > 1 && self.open[n - 1] == nesting && self.open[n - 2] == nesting
    }

    /// Test if the next token is inside of tokens that are not read as expressions.
    fn is_unread(&self) -> (r: bool)
        ensures
            r == self@.is_unread(),
    {
        let n: usize = self.open.len();
        n > 0 && match self.open[n - 1] {
            Nesting::Tokens(_) | Nesting::Attribute => true,
            _ => false,
        }
    }

    /// Test if the next token is directly inside of a list with commas.
    fn is_list(&self) -> (r: bool)
        ensures
            r == self@.is_list(),
    {
        let n: usize = self.open.len();
        n > 0 && match self.open[n - 1] {
            Nesting::Group(_) | Nesting::Parameters | Nesting::Generics => true,
            _ => false,
        }
    }

    /// Test if an expression can end here.
    fn is_done(&self) -> (r: bool)
        ensures
            r == self@.is_done(),
    {
        match self.next {
            Next::Maybe | Next::Label | Next::Path | Next::Member | Next::Operator => true,
            _ => false,
        }
    }

    /// Test if a list can end here.
    fn can_close(&self) -> (r: bool)
        ensures
            r == self@.can_close(),
    {
        self.is_done() || self.next == Next::Item
    }

    /// Test if an operand can start here.
    fn can_start(&self) -> (r: bool)
        ensures
            r == self@.can_start(),
    {
        match self.next {
            Next::Operand | Next::Item | Next::Maybe | Next::Label => true,
            _ => false,
        }
    }

    /// Open something.
    fn begin(&mut self, nesting: Nesting, next: Next)
        ensures
            final(self)@ == old(self)@.opened(nesting, next),
    {
        self.open.push(nesting);
        self.next = next;
    }

    /// Close the innermost thing.
    fn end(&mut self, next: Next)
        requires
            old(self)@.open.len() > 0,
        ensures
            final(self)@ == old(self)@.closed(next),
    {
        self.open.pop();
        self.next = next;
        assert(self.open@ =~= old(self).open@.drop_last());
    }

    /// Read an opening delimiter. Tells whether it can come next.
    fn read_open(&mut self, delimiter: Delimiter) -> (r: bool)
        ensures
            r == old(self)@.after_open(delimiter) is Some,
            final(self)@ == (if r {
                old(self)@.after_open(delimiter)->0
            } else {
                old(self)@
            }),
    {
        let block = delimiter == Delimiter::Brace;

        if self.is_unread() || self.next == Next::Arguments {
            self.begin(Nesting::Tokens(delimiter), Next::Item);
        } else if self.next == Next::Hash {
            match delimiter {
                Delimiter::Paren => return false,
                Delimiter::Brace => self.begin(Nesting::Tokens(delimiter), Next::Item),
                Delimiter::Bracket => self.begin(Nesting::Attribute, Next::Item),
            }
        } else if block && self.is_done() && self.is_in(Nesting::Head) {
            self.end(Next::Operator);
            self.begin(Nesting::Tokens(delimiter), Next::Item);
        } else if block && (self.can_start() || self.next == Next::Path) {
            self.begin(Nesting::Tokens(delimiter), Next::Item);
        } else if !block && (self.can_start() || self.is_done()) {
            self.begin(Nesting::Group(delimiter), Next::Item);
        } else {
            return false;
        }
        true
    }

    /// Read a closing delimiter. Tells whether it can come next.
    fn read_close(&mut self, delimiter: Delimiter) -> (r: bool)
        ensures
            r == old(self)@.after_close(delimiter) is Some,
            final(self)@ == (if r {
                old(self)@.after_close(delimiter)->0
            } else {
                old(self)@
            }),
    {
        if self.is_in(Nesting::Tokens(delimiter)) {
            self.end(Next::Operator);
        } else if self.is_in(Nesting::Attribute) && delimiter == Delimiter::Bracket {
            self.end(Next::Operand);
        } else if self.is_in(Nesting::Group(delimiter)) && self.can_close() {
            self.end(Next::Operator);
        } else {
            return false;
        }
        true
    }

    /// Read a word. Tells whether it can come next.
    fn read_word(&mut self, word: &String) -> (r: bool)
        ensures
            r == old(self)@.after_word(word@) is Some,
            final(self)@ == (if r {
                old(self)@.after_word(word@)->0
            } else {
                old(self)@
            }),
    {
        if self.is_unread() {
        } else if self.next == Next::Field {
            self.next = Next::Member;
        } else if self.next == Next::Component {
            self.next = Next::Path;
        } else if is_continuing(word) {
            if !self.is_done() {
                return false;
            }
            self.next = Next::Operand;
        } else if !self.can_start() || word_is_reserved(word) {
            return false;
        } else if *word == "true".to_owned() || *word == "false".to_owned() {
            self.next = Next::Operator;
        } else if starts_label(word) {
            if self.is_done() {
                self.next = Next::Label;
            } else {
                self.next = Next::Colon;
            }
        } else if is_heading(word) {
            self.begin(Nesting::Head, Next::Operand);
        } else if is_preceding(word) {
            self.next = Next::Operand;
        } else if is_alone(word) {
            self.next = Next::Maybe;
        } else {
            self.next = Next::Path;
        }
        true
    }

    /// Read a literal. Tells whether it can come next.
    fn read_literal(&mut self, number: bool) -> (r: bool)
        ensures
            r == old(self)@.after_literal(number) is Some,
            final(self)@ == (if r {
                old(self)@.after_literal(number)->0
            } else {
                old(self)@
            }),
    {
        if self.is_unread() {
            true
        } else if self.can_start() || (number && self.next == Next::Field) {
            self.next = Next::Operator;
            true
        } else {
            false
        }
    }

    /// Read a punctuation mark. Tells whether it can come next.
    fn read_mark(&mut self, mark: &String) -> (r: bool)
        ensures
            r == old(self)@.after_mark(mark@) is Some,
            final(self)@ == (if r {
                old(self)@.after_mark(mark@)->0
            } else {
                old(self)@
            }),
    {
        let pipe = *mark == "|".to_owned();

        if self.is_unread() {
        } else if *mark == ",".to_owned() {
            if !self.is_list() || !self.is_done() {
                return false;
            }
            self.next = Next::Item;
        } else if pipe && self.is_in(Nesting::Parameters) && self.can_close() {
            self.end(Next::Operand);
        } else if pipe && self.can_start() {
            self.begin(Nesting::Parameters, Next::Item);
        } else if *mark == "<".to_owned() && self.next == Next::Component {
            self.begin(Nesting::Generics, Next::Item);
        } else if *mark == ">".to_owned() && self.is_in(Nesting::Generics) && self.can_close() {
            self.end(Next::Path);
        } else if *mark == ">>".to_owned() && self.is_twice_in(Nesting::Generics)
            && self.can_close() {
            self.end(Next::Path);
            self.end(Next::Path);
        } else if *mark == ":".to_owned() {
            if self.next != Next::Colon && self.next != Next::Label {
                return false;
            }
            self.next = Next::Operand;
        } else {
            return self.read_operator(mark);
        }
        true
    }

    /// Read a punctuation mark that starts an operand or goes on with an
    /// expression. Tells whether it can come next.
    fn read_operator(&mut self, mark: &String) -> (r: bool)
        ensures
            r == (old(self)@.can_start() && starts(mark@) is Some || old(self)@.is_done()
                && goes_on(mark@, old(self)@.next) is Some),
            final(self)@ == (if !r {
                old(self)@
            } else if old(self)@.can_start() && starts(mark@) is Some {
                old(self)@.expecting(starts(mark@)->0)
            } else {
                old(self)@.expecting(goes_on(mark@, old(self)@.next)->0)
            }),
    {
        if self.can_start() {
            if let Some(next) = next_of_start(mark) {
                self.next = next;
                return true;
            }
        }
        if self.is_done() {
            if let Some(next) = next_of_operator(mark, self.next) {
                self.next = next;
                return true;
            }
        }
        false
    }

    /// Read a token. Tells whether it can come next.
    fn read(&mut self, token: &Token) -> (r: bool)
        ensures
            r == old(self)@.after(token@) is Some,
            final(self)@ == (if r {
                old(self)@.after(token@)->0
            } else {
                old(self)@
            }),
    {
        match token {
            Token::Open(delimiter) => self.read_open(*delimiter),
            Token::Close(delimiter) => self.read_close(*delimiter),
            Token::Ident(word) => self.read_word(word),
            Token::Punct(mark) => self.read_mark(mark),
            Token::Literal(_) => self.read_literal(true),
            Token::Str(_) => self.read_literal(false),
        }
    }
}

/// Find the index behind the expression at `start`.
pub fn parse_expression(stream: &Vec<Token>, start: usize) -> (r: Result<usize, MacroError>)
    requires
        start <= stream@.len(),
    ensures
        match r {
            Ok(end) => expression_at(tokens(stream@), start as int) == Ok::<int, MacroError>(
                end as int,
            ) && start < end <= stream@.len(),
            Err(e) => expression_at(tokens(stream@), start as int) == Err::<int, MacroError>(e),
        },
{
    let ghost view = tokens(stream@);
    let mut progress = Progress { open: Vec::new(), next: Next::Operand };
    let mut i: usize = start;
    proof {
        lemma_expression_end(view, start as int, unread());
        assert(progress@ =~= unread());
    }

    while i < stream.len()
        invariant_except_break
            expression_end(view, start as int, unread()) == expression_end(
                view,
                i as int,
                progress@,
            ),
        invariant
            view == tokens(stream@),
            start <= i <= stream@.len(),
        ensures
            expression_end(view, start as int, unread()) == ended(view, i as int, progress@),
        decreases stream@.len() - i,
    {
        assert(view[i as int] == stream@[i as int]@);
        if !progress.read(&stream[i]) {
            break;
        }
        i += 1;
    }

    let closing = i < stream.len() && match &stream[i] {
        Token::Close(_) => true,
        _ => false,
    };
    assert(i < stream@.len() ==> view[i as int] == stream@[i as int]@);

    if progress.is_unread() {
        Err(MacroError::UnbalancedDelimiter(i))
    } else if !progress.can_close() {
        Err(MacroError::ExpectedExpression(i))
    } else if closing {
        Err(MacroError::UnbalancedDelimiter(i))
    } else if progress.open.len() == 0 {
        Ok(i)
    } else if i >= stream.len() {
        Err(MacroError::UnbalancedDelimiter(i))
    } else {
        Err(MacroError::UnexpectedToken(i))
    }
}

/// Write tokens with a space between them.
pub fn stringify(stream: &Vec<Token>) -> (text: String)
    ensures
        text@ == stringified(tokens(stream@), stream@.len()),
{
    let mut text = String::new();
    let mut i: usize = 0;
    assert(text@ =~= stringified(tokens(stream@), 0));

    while i < stream.len()
        invariant
            i <= stream@.len(),
            text@ == stringified(tokens(stream@), i as nat),
        decreases stream@.len() - i,
    {
        if i > 0 {
            text.append(" ");
        }
        assert(tokens(stream@)[i as int] == stream@[i as int]@);
        stream[i].append(&mut text);
        i += 1;
        assert(text@ =~= stringified(tokens(stream@), i as nat));
    }

    text
}

/// Copy the tokens of a stream from `start` up to `end`.
pub fn copy_range(stream: &Vec<Token>, start: usize, end: usize) -> (r: Vec<Token>)
    requires
        start <= end <= stream@.len(),
    ensures
        r@ == stream@.subrange(start as int, end as int),
        tokens(r@) == tokens(stream@).subrange(start as int, end as int),
{
    let mut r: Vec<Token> = Vec::new();
    let mut i: usize = start;

    while i < end
        invariant
            start <= i <= end <= stream@.len(),
            r@ == stream@.subrange(start as int, i as int),
        decreases end - i,
    {
        r.push(stream[i].copy());
        i += 1;
        assert(r@ =~= stream@.subrange(start as int, i as int));
    }

    assert(tokens(r@) =~= tokens(stream@).subrange(start as int, end as int));
    r
}

/// An identifier or a keyword.
pub open spec fn ident(text: &'static str) -> TokenView {
    TokenView::Ident(text@)
}

/// A string literal.
pub open spec fn string(text: &'static str) -> TokenView {
    TokenView::Str(text@)
}

/// A punctuation mark.
pub open spec fn punct(text: &'static str) -> TokenView {
    TokenView::Punct(text@)
}

/// An opening delimiter.
pub open spec fn opening(delimiter: Delimiter) -> TokenView {
    TokenView::Open(delimiter)
}

/// A closing delimiter.
pub open spec fn closing(delimiter: Delimiter) -> TokenView {
    TokenView::Close(delimiter)
}

/// Tokens that are being quoted.
#[derive(Debug)]
pub struct Quote {
    /// The tokens.
    pub tokens: Vec<Token>,
}

impl View for Quote {
    type V = Seq<TokenView>;

    open spec fn view(&self) -> Seq<TokenView> {
        tokens(self.tokens@)
    }
}

impl Quote {
    /// Quote nothing.
    pub fn new() -> (quote: Self)
        ensures
            quote@ == Seq::<TokenView>::empty(),
    {
        let quote = Quote { tokens: Vec::new() };
        assert(quote@ =~= Seq::empty());
        quote
    }

    /// Quote a token.
    pub fn token(self, token: Token) -> (quote: Self)
        ensures
            quote@ == self@.push(token@),
    {
        let mut all = self.tokens;
        all.push(token);
        let quote = Quote { tokens: all };
        assert(quote@ =~= self@.push(token@));
        quote
    }

    /// Quote an identifier or a keyword.
    pub fn ident(self, text: &'static str) -> (quote: Self)
        ensures
            quote@ == self@.push(ident(text)),
    {
        self.token(Token::Ident(text.to_owned()))
    }

    /// Quote a string literal.
    pub fn string(self, text: &'static str) -> (quote: Self)
        ensures
            quote@ == self@.push(string(text)),
    {
        self.token(Token::Str(text.to_owned()))
    }

    /// Quote a punctuation mark.
    pub fn punct(self, text: &'static str) -> (quote: Self)
        ensures
            quote@ == self@.push(punct(text)),
    {
        self.token(Token::Punct(text.to_owned()))
    }

    /// Quote an opening delimiter.
    pub fn opening(self, delimiter: Delimiter) -> (quote: Self)
        ensures
            quote@ == self@.push(opening(delimiter)),
    {
        self.token(Token::Open(delimiter))
    }

    /// Quote a closing delimiter.
    pub fn closing(self, delimiter: Delimiter) -> (quote: Self)
        ensures
            quote@ == self@.push(closing(delimiter)),
    {
        self.token(Token::Close(delimiter))
    }

    /// Quote the tokens of a stream.
    pub fn stream(self, stream: Vec<Token>) -> (quote: Self)
        ensures
            quote@ == self@ + tokens(stream@),
    {
        let mut all = self.tokens;
        let mut rest = stream;
        all.append(&mut rest);
        let quote = Quote { tokens: all };
        assert(quote@ =~= self@ + tokens(stream@));
        quote
    }
}

} // verus!

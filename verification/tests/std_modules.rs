use rune::hash::Hash64;
use rune::modules::json::{self, JsonError};
use rune::modules::test::{Bencher, Function};
use rune::modules::tokens::{Delimiter, MacroError, Token};
use rune::modules::vec_args;
use rune::module::{FunctionHandler, MacroHandler, ModuleItemKind};
use rune::runtime::{Named, TypeOf};

fn ident(text: &str) -> Token {
    Token::Ident(text.to_string())
}

fn punct(text: &str) -> Token {
    Token::Punct(text.to_string())
}

struct Unreadable;

impl std::io::Read for Unreadable {
    fn read(&mut self, _: &mut [u8]) -> std::io::Result<usize> {
        Err(std::io::Error::new(std::io::ErrorKind::Other, "unreadable"))
    }
}

fn literal(text: &str) -> Token {
    Token::Literal(text.to_string())
}

fn shown(tokens: Result<Vec<Token>, MacroError>) -> String {
    rune::modules::tokens::stringify(&tokens.unwrap())
}

#[test]
fn test_module_is_complete() {
    let m = rune::modules::test::module().unwrap();
    assert_eq!(m.unique, Some("std::test"));
    assert_eq!(m.item.display(), "::std::test");
    assert_eq!(m.common.docs.docs, vec![" Testing and benchmarking.".to_string()]);
    let names: Vec<String> = m.items.iter().map(|i| i.item.display()).collect();
    assert_eq!(
        names,
        vec!["::std::test::assert", "::std::test::assert_eq", "::std::test::assert_ne"]
    );
    assert_eq!(m.types.len(), 1);
    assert_eq!(m.types[0].item, Bencher::named_item());
    assert_eq!(m.types[0].common.docs.docs.len(), 3);
    assert_eq!(m.associated.len(), 1);
}

#[test]
fn benchmarks_are_captured_in_order() {
    let mut bencher = Bencher::default();
    bencher.iter(Function(Hash64(1)));
    bencher.iter(Function(Hash64(2)));
    assert_eq!(bencher.into_functions(), vec![Function(Hash64(1)), Function(Hash64(2))]);
    assert_eq!(Bencher::display(), "::std::test::Bencher");
}

#[test]
fn assert_panics_with_the_expression() {
    let stream = vec![ident("value"), punct("=="), literal("42")];
    assert_eq!(
        shown(rune::modules::test_macros::assert_(&stream)),
        "if ! ( value == 42 ) { :: std :: panic ( \"assertion failed: value == 42\" ) ; }"
    );
    let stream = vec![ident("value"), punct(",")];
    assert_eq!(
        shown(rune::modules::test_macros::assert_(&stream)),
        "if ! ( value ) { :: std :: panic ( \"assertion failed: value\" ) ; }"
    );
}

#[test]
fn assert_panics_with_a_message() {
    let stream = vec![ident("value"), punct(","), literal("\"{}\""), punct(","), ident("value")];
    assert_eq!(
        shown(rune::modules::test_macros::assert_(&stream)),
        "if ! ( value ) { :: std :: panic ( \"assertion failed: \" + \
         ( :: std :: fmt :: format ! ( \"{}\" , value ) ) ) ; }"
    );
}

#[test]
fn assert_refuses_what_is_no_expression() {
    assert_eq!(rune::modules::test_macros::assert_(&vec![]), Err(MacroError::ExpectedExpression(0)));
    assert_eq!(rune::modules::test_macros::assert_(&vec![punct(",")]), Err(MacroError::ExpectedExpression(0)));
    assert_eq!(
        rune::modules::test_macros::assert_(&vec![Token::Open(Delimiter::Paren)]),
        Err(MacroError::UnbalancedDelimiter(1))
    );
    assert_eq!(
        rune::modules::test_macros::assert_(&vec![ident("a"), Token::Close(Delimiter::Paren)]),
        Err(MacroError::UnbalancedDelimiter(1))
    );
}

#[test]
fn assert_eq_shows_both_sides() {
    let stream = vec![
        Token::Open(Delimiter::Paren),
        ident("a"),
        punct(","),
        ident("b"),
        Token::Close(Delimiter::Paren),
        punct(","),
        ident("c"),
    ];
    assert_eq!(
        shown(rune::modules::test_macros::assert_eq(&stream)),
        "{ let left = ( a , b ) ; let right = c ; if ! ( left == right ) { \
         let message = :: std :: string :: String :: from ( \
         \"assertion failed (left == right):\" ) ; \
         message += :: std :: fmt :: format ! ( \"\\nleft: {:?}\" , left ) ; \
         message += :: std :: fmt :: format ! ( \"\\nright: {:?}\" , right ) ; \
         :: std :: panic ( message ) ; } }"
    );
}

#[test]
fn assert_ne_shows_a_message() {
    let stream = vec![ident("a"), punct(","), ident("b"), punct(","), literal("\"m\"")];
    assert_eq!(
        shown(rune::modules::test_macros::assert_ne(&stream)),
        "{ let left = a ; let right = b ; if ! ( left != right ) { \
         let message = :: std :: fmt :: format ! ( \"m\" ) ; \
         message += :: std :: fmt :: format ! ( \"\\nleft: {:?}\" , left ) ; \
         message += :: std :: fmt :: format ! ( \"\\nright: {:?}\" , right ) ; \
         :: std :: panic ( \"assertion failed (left != right): \" + message ) ; } }"
    );
}

#[test]
fn commas_of_closures_and_generics_are_parts_of_expressions() {
    let left = "move | a , b | a == b , c";
    let right = "f :: < A , g :: < B , C >> ( ) | d < e , h ? | i";
    let stream = |text: &str| -> Vec<Token> {
        let token = |word: &str| match word {
            "(" => Token::Open(Delimiter::Paren),
            ")" => Token::Close(Delimiter::Paren),
            word if word.chars().all(char::is_alphabetic) => ident(word),
            word => punct(word),
        };
        text.split(' ').map(token).collect()
    };
    assert_eq!(rune::modules::tokens::parse_expression(&stream(left), 0), Ok(9));
    assert_eq!(rune::modules::tokens::parse_expression(&stream(right), 0), Ok(18));
    let open = stream("| a , b");
    let unbalanced = Err(MacroError::UnbalancedDelimiter(4));
    assert_eq!(rune::modules::tokens::parse_expression(&open, 0), unbalanced);
}

#[test]
fn comparisons_need_two_expressions() {
    assert_eq!(rune::modules::test_macros::assert_eq(&vec![ident("a")]), Err(MacroError::ExpectedComma(1)));
    assert_eq!(
        rune::modules::test_macros::assert_ne(&vec![ident("a"), punct(",")]),
        Err(MacroError::ExpectedExpression(2))
    );
}

#[test]
fn operands_in_a_row_are_two_expressions() {
    let row = vec![ident("a"), ident("b"), punct(","), ident("c")];
    assert_eq!(rune::modules::test_macros::assert_eq(&row), Err(MacroError::ExpectedComma(1)));
    assert_eq!(rune::modules::test_macros::assert_ne(&row), Err(MacroError::ExpectedComma(1)));
    let row = vec![literal("1"), literal("2"), punct(","), ident("c")];
    assert_eq!(rune::modules::test_macros::assert_eq(&row), Err(MacroError::ExpectedComma(1)));
    let row = vec![ident("a"), punct("#"), Token::Open(Delimiter::Brace)];
    assert_eq!(rune::modules::tokens::parse_expression(&row, 0), Ok(1));
    let row = vec![ident("a"), Token::Str("m".to_string()), punct(","), literal("1")];
    assert_eq!(
        shown(rune::modules::test_macros::assert_(&row)),
        "if ! ( a ) { :: std :: panic ( \"assertion failed: a\" ) ; }"
    );
}

#[test]
fn operators_need_operands() {
    let row = vec![ident("a"), punct("+"), punct(","), ident("b")];
    let missing = Err(MacroError::ExpectedExpression(2));
    assert_eq!(rune::modules::test_macros::assert_eq(&row), missing);
    let row = vec![ident("a"), punct("=="), punct(","), literal("\"m\"")];
    assert_eq!(rune::modules::test_macros::assert_(&row), Err(MacroError::ExpectedExpression(2)));
    let row = vec![ident("a"), punct(","), punct("-")];
    assert_eq!(rune::modules::test_macros::assert_ne(&row), Err(MacroError::ExpectedExpression(3)));
    let row = vec![literal("1"), punct(".."), punct(","), ident("b")];
    assert_eq!(rune::modules::tokens::parse_expression(&row, 0), Ok(2));
    let row = vec![ident("return"), punct(","), ident("b")];
    assert_eq!(rune::modules::tokens::parse_expression(&row, 0), Ok(1));
    let row = vec![ident("a"), punct("?"), punct(","), ident("b")];
    assert_eq!(rune::modules::tokens::parse_expression(&row, 0), Ok(2));
}

fn words(text: &str) -> Vec<Token> {
    let token = |word: &str| match word {
        "(" => Token::Open(Delimiter::Paren),
        ")" => Token::Close(Delimiter::Paren),
        "[" => Token::Open(Delimiter::Bracket),
        "]" => Token::Close(Delimiter::Bracket),
        "{" => Token::Open(Delimiter::Brace),
        "}" => Token::Close(Delimiter::Brace),
        word if word.starts_with(|c: char| c.is_ascii_digit()) => literal(word),
        word if word.starts_with('"') => Token::Str(word.trim_matches('"').to_string()),
        word if word.starts_with(|c: char| c.is_alphabetic() || c == '\'') => ident(word),
        word => punct(word),
    };
    text.split_whitespace().map(token).collect()
}

fn parse(text: &str) -> Result<usize, MacroError> {
    rune::modules::tokens::parse_expression(&words(text), 0)
}

#[test]
fn marks_that_are_no_operators_end_expressions() {
    assert_eq!(
        shown(rune::modules::test_macros::assert_(&words("true ; false"))),
        "if ! ( true ) { :: std :: panic ( \"assertion failed: true\" ) ; }"
    );
    let comma = Err(MacroError::ExpectedComma(1));
    assert_eq!(rune::modules::test_macros::assert_eq(&words("a ; , b")), comma);
    for mark in [";", "=>", "->", "@", "$", "~", ":", "#"] {
        assert_eq!(parse(&format!("a {mark} b")), Ok(1), "{mark}");
    }
    assert_eq!(parse("1 ! ( a )"), Ok(1));
    assert_eq!(parse("1 :: a"), Ok(1));
    assert_eq!(parse("true { a }"), Ok(1));
}

#[test]
fn operators_that_are_not_unary_need_two_operands() {
    let due = |i| Err(MacroError::ExpectedExpression(i));
    assert_eq!(parse("1 + + 2"), due(2));
    assert_eq!(parse("== 2"), due(0));
    assert_eq!(parse("1 + - 2"), Ok(4));
    assert_eq!(parse("1 - - 2"), Ok(4));
    assert_eq!(parse("! & * a"), Ok(4));
    assert_eq!(parse("f ( 1 + + 2 )"), due(4));
    assert_eq!(parse("[ 1 , , 2 ]"), Err(MacroError::UnexpectedToken(3)));
    assert_eq!(parse("( 1 +"), due(3));
    assert_eq!(parse("f ( 1 2 )"), Err(MacroError::UnexpectedToken(3)));
    assert_eq!(parse("f ( 1 ; 2 )"), Err(MacroError::UnexpectedToken(3)));
    assert_eq!(parse("if a , b"), Err(MacroError::UnexpectedToken(2)));
    assert_eq!(parse("a . , b"), due(2));
    assert_eq!(parse("fn"), due(0));
    assert_eq!(parse("( a ]"), Err(MacroError::UnbalancedDelimiter(2)));
    assert_eq!(parse("{ a ; b"), Err(MacroError::UnbalancedDelimiter(4)));
}

#[test]
fn expressions_of_all_sorts_are_read() {
    for text in [
        "a . b ( 1 , 2 , ) ? . await",
        "map . keys ( ) . collect :: < Vec > ( )",
        ":: std :: format ! ( a b ; c )",
        "Foo { a : 1 , b }",
        "# { a : 1 , b : 2 }",
        "# [ attr ( x ) ] a + 1",
        "'a : loop { break 'a 1 ; }",
        "f ( || 1 , | | 2 , move | a | a , ( ) )",
        "if a == B { c } else if let Some ( d ) = e { f } else { g } + 1",
        "match a { b => c , _ => d }",
        "for ( a , b ) in c . d ( ) { e }",
        "while f ( ) { g }",
        "async move { a . await }",
        "async | a , b | a",
        "return",
        "yield 1 + 2",
        ".. = 3",
        "1 ..= 2",
        "a [ 1 .. ]",
        "a . 0 . 1",
        "a as b is not c",
        "a = b",
        "f :: < A , g :: < B >> ( )",
    ] {
        assert_eq!(parse(text), Ok(words(text).len()), "{text}");
        assert_eq!(parse(&format!("{text} , z")), Ok(words(text).len()), "{text}");
    }
}

#[test]
fn messages_are_made_of_expressions() {
    let message = |text: &str| rune::modules::test_macros::assert_(&words(text));
    assert!(message("a , \"{}\" , b , c = 1 ,").is_ok());
    assert_eq!(message("a , \"{}\" b"), Err(MacroError::ExpectedComma(3)));
    assert_eq!(message("a , \"{}\" , , b"), Err(MacroError::ExpectedExpression(4)));
    assert_eq!(message("a , \"{}\" , b +"), Err(MacroError::ExpectedExpression(6)));
    assert_eq!(message("a , ; b"), Err(MacroError::ExpectedExpression(2)));
    let eq = rune::modules::test_macros::assert_eq(&words("a , b , \"{}\" ; c"));
    assert_eq!(eq, Err(MacroError::ExpectedComma(5)));
}

#[test]
fn macros_are_expanded_by_their_numbers() {
    let m = rune::modules::test::module().unwrap();
    let stream = words("a , b");
    let handlers: Vec<MacroHandler> = m
        .items
        .iter()
        .map(|item| match &item.kind {
            ModuleItemKind::Macro(handler) => *handler,
            _ => panic!("expected a macro"),
        })
        .collect();
    let expand = rune::modules::test_macros::expand;
    let first = expand(handlers[0], &stream);
    assert_eq!(first, Some(rune::modules::test_macros::assert_(&stream)));
    let second = expand(handlers[1], &stream);
    assert_eq!(second, Some(rune::modules::test_macros::assert_eq(&stream)));
    let third = expand(handlers[2], &stream);
    assert_eq!(third, Some(rune::modules::test_macros::assert_ne(&stream)));
    assert_ne!(second, third);
    assert_eq!(expand(MacroHandler(3), &stream), None);
}

#[test]
fn functions_are_called_by_their_numbers() {
    let mut bencher = Bencher::default();
    let iter = FunctionHandler(rune::modules::test::ITER);
    assert!(rune::modules::test::call(iter, &mut bencher, Function(Hash64(4))));
    assert!(!rune::modules::test::call(FunctionHandler(1), &mut bencher, Function(Hash64(5))));
    assert_eq!(bencher.into_functions(), vec![Function(Hash64(4))]);

    let error = serde_json::from_str::<serde_json::Value>("[1,").unwrap_err();
    let error = JsonError::from(error);
    let mut text = String::new();
    assert!(json::call(FunctionHandler(json::DISPLAY), &error, &mut text));
    assert_eq!(text, "EOF while parsing a value at line 1 column 3");
    assert!(!json::call(FunctionHandler(json::TO_BYTES), &error, &mut text));
    let mut text = String::new();
    assert!(json::call(FunctionHandler(json::DEBUG), &error, &mut text));
    assert_eq!(text, "Error(\"EOF while parsing a value\", line: 1, column: 3)");
}

#[test]
fn keywords_do_not_end_expressions() {
    assert_eq!(parse("if a { b } else { c } , d"), Ok(9));
    assert_eq!(parse("if let a = b { c } d"), Ok(8));
    assert_eq!(parse("match a { b } , c"), Ok(5));
    assert_eq!(parse("a is not b , c"), Ok(4));
    assert_eq!(parse("a as b c"), Ok(3));
    assert_eq!(parse("a . await , b"), Ok(3));
    assert_eq!(parse("async move | a , b | c , d"), Ok(8));
    assert_eq!(parse("break 'a b , c"), Ok(3));
    assert_eq!(parse("for a in b { c } , d"), Ok(7));
}

#[test]
fn json_module_is_complete() {
    let m = json::module(true).unwrap();
    assert_eq!(m.item.display(), "::json");
    assert_eq!(m.common.docs.docs[0], " Module for processing JSON.");
    assert_eq!(m.types[0].item.display(), "::json::Error");
    assert_eq!(m.types[0].hash, JsonError::type_hash());
    assert_eq!(m.associated.len(), 2);
    let names: Vec<String> = m.items.iter().map(|i| i.item.display()).collect();
    assert_eq!(
        names,
        vec!["::json::from_bytes", "::json::from_string", "::json::to_string", "::json::to_bytes"]
    );
}

#[test]
fn json_errors_are_shown() {
    let error = serde_json::from_str::<serde_json::Value>("[1,").unwrap_err();
    let error = JsonError::from(error);
    let mut text = "error: ".to_string();
    error.display(&mut text);
    assert_eq!(text, "error: EOF while parsing a value at line 1 column 3");
    let mut text = String::new();
    error.debug(&mut text);
    assert_eq!(text, "Error(\"EOF while parsing a value\", line: 1, column: 3)");
    assert!(!error.is_io());
}

#[test]
fn json_errors_of_reading_are_told_apart() {
    let error = serde_json::from_reader::<_, serde_json::Value>(Unreadable).unwrap_err();
    let error = JsonError::from(error);
    assert!(error.is_io());
    let mut text = String::new();
    error.display(&mut text);
    assert_eq!(text, "unreadable");
}

#[test]
fn arguments_are_passed_along() {
    let m = vec_args::module().unwrap();
    assert_eq!(m.items.len(), 1);
    assert_eq!(m.items[0].item.display(), "mymodule::pass_along");
    match &m.items[0].kind {
        ModuleItemKind::Function(f) => {
            assert_eq!(f.handler, FunctionHandler(0));
            assert_eq!(f.doc.args, Some(2));
        }
        _ => panic!("expected a function"),
    }
}

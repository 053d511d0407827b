use scanner::{Error, ErrorKind, Identifier, Literal, Position, Token, TokenStream};

fn drain(mut iter: TokenStream) -> Vec<Result<Token, Error>> {
    let mut items = Vec::new();
    while let Some(item) = iter.next() {
        items.push(item);
    }
    items
}

fn int_lit(s: &str) -> Result<Token, Error> {
    Ok(Token::Lit(Literal::Int(s.to_string())))
}

fn float_lit(s: &str) -> Result<Token, Error> {
    Ok(Token::Lit(Literal::Float(s.to_string())))
}

fn normal(s: &str) -> Result<Token, Error> {
    Ok(Token::Ident(Identifier::Normal(s.to_string())))
}

fn sym(s: &str) -> Result<Token, Error> {
    Ok(Token::Sym(s.to_string()))
}

#[test]
fn digits_make_one_integer_then_end() {
    for text in ["0", "7", "12345", "000123", "98765432109876543210"] {
        let items = drain(TokenStream::new(text, &[], &["+"]));
        assert_eq!(items, vec![int_lit(text), Ok(Token::EOF)]);
    }
}

#[test]
fn float_then_end() {
    let items = drain(TokenStream::new("3.14", &[], &[]));
    assert_eq!(items, vec![float_lit("3.14"), Ok(Token::EOF)]);
}

#[test]
fn second_decimal_point_is_an_error() {
    let mut iter = TokenStream::new("3.14.", &[], &[]);
    let e = iter.next().unwrap().unwrap_err();
    assert_eq!(e.kind, ErrorKind::InvalidNumericLiteral);
    assert_eq!(e.ch, '.');
    assert_eq!(e.pos, Position { line: 1, column: 5, offset: 5 });
    assert_eq!(
        e.message(),
        "Invalid character '.': expected whitespace or separator, at line: 1, column: 5."
    );
    assert_eq!(iter.next(), Some(Ok(Token::EOF)));
    assert_eq!(iter.next(), None);
}

#[test]
fn string_contents_kept_verbatim() {
    let items = drain(TokenStream::new("\"hello!\"", &[], &[]));
    assert_eq!(items, vec![Ok(Token::Lit(Literal::Str("hello!".to_string()))), Ok(Token::EOF)]);
    let items = drain(TokenStream::new("\"a \\n b\"", &[], &[]));
    assert_eq!(items, vec![Ok(Token::Lit(Literal::Str("a \\n b".to_string()))), Ok(Token::EOF)]);
}

#[test]
fn unterminated_string_keeps_what_it_read() {
    let items = drain(TokenStream::new("\"abc", &[], &[]));
    assert_eq!(items, vec![Ok(Token::Lit(Literal::Str("abc".to_string()))), Ok(Token::EOF)]);
}

#[test]
fn identifier_without_reserved_words_is_normal() {
    let items = drain(TokenStream::new("hello", &[], &[]));
    assert_eq!(items, vec![normal("hello"), Ok(Token::EOF)]);
}

#[test]
fn reserved_words_match_whole_words_only() {
    let items = drain(TokenStream::new("let letter _let", &["let"], &[]));
    assert_eq!(
        items,
        vec![
            Ok(Token::Ident(Identifier::Reserved("let".to_string()))),
            normal("letter"),
            normal("_let"),
            Ok(Token::EOF),
        ]
    );
}

#[test]
fn lone_and_paired_symbols() {
    let symbols = ["->", "+", "+=", ":"];
    let items = drain(TokenStream::new("x: i32", &[], &symbols));
    assert_eq!(items, vec![normal("x"), sym(":"), normal("i32"), Ok(Token::EOF)]);
    let symbols = ["-", "->", "+", "+=", ":"];
    let items = drain(TokenStream::new("a -> b += c", &[], &symbols));
    assert_eq!(
        items,
        vec![normal("a"), sym("->"), normal("b"), sym("+="), normal("c"), Ok(Token::EOF)]
    );
}

#[test]
fn only_configured_pairs_are_joined() {
    let mut iter = TokenStream::new("-=", &[], &["-", "+="]);
    assert_eq!(iter.next(), Some(sym("-")));
    let e = iter.next().unwrap().unwrap_err();
    assert_eq!(e.kind, ErrorKind::UnknownCharacter);
    assert_eq!(e.ch, '=');
    assert_eq!(e.pos, Position { line: 1, column: 2, offset: 2 });
    assert_eq!(iter.next(), Some(Ok(Token::EOF)));
    assert_eq!(iter.next(), None);
    let items = drain(TokenStream::new("+>", &[], &["+", "->"]));
    assert_eq!(items.len(), 3);
    assert_eq!(items[0], sym("+"));
    assert!(items[1].is_err());
}

#[test]
fn unknown_character_is_reported_with_its_position() {
    let mut iter = TokenStream::new("$", &[], &[]);
    let e = iter.next().unwrap().unwrap_err();
    assert_eq!(e.kind, ErrorKind::UnknownCharacter);
    assert_eq!(e.ch, '$');
    assert_eq!(e.pos, Position { line: 1, column: 1, offset: 1 });
    assert_eq!(e.reason(), "Unknown character: '$'");
    assert_eq!(e.message(), "Unknown character: '$', at line: 1, column: 1.");
    assert_eq!(iter.next(), Some(Ok(Token::EOF)));
    assert_eq!(iter.next(), None);
}

#[test]
fn positions_follow_lines() {
    let items = drain(TokenStream::new("ab\n  $", &[], &[]));
    match &items[1] {
        Err(e) => assert_eq!(e.pos, Position { line: 2, column: 3, offset: 6 }),
        Ok(t) => panic!("expected an error, got {:?}", t),
    }
    let text = format!("{}@", "\n".repeat(11).replace('\n', "x\n"));
    let mut iter = TokenStream::new(&text, &[], &[]);
    let mut error = None;
    while let Some(item) = iter.next() {
        if let Err(e) = item {
            error = Some(e);
        }
    }
    let e = error.unwrap();
    assert_eq!(e.pos.line, 12);
    assert_eq!(e.message(), "Unknown character: '@', at line: 12, column: 1.");
}

#[test]
fn same_input_same_items() {
    let text = "let a = $ 3.1.4 (b, \"s\") ? c";
    let first = drain(TokenStream::new(text, &["let"], &["="]));
    let second = drain(TokenStream::new(text, &["let"], &["="]));
    assert_eq!(first, second);
    assert_eq!(first.iter().filter(|i| i.is_err()).count(), 3);
}

#[test]
fn end_comes_exactly_once() {
    for text in ["", "   ", "x", "x $", "3.1.2", "\"open", "a # c"] {
        let items = drain(TokenStream::with_delimiters(text, &[], &[], &['"'], &['#']));
        assert_eq!(items.last(), Some(&Ok(Token::EOF)));
        assert_eq!(items.iter().filter(|i| **i == Ok(Token::EOF)).count(), 1);
    }
}

#[test]
fn empty_and_blank_inputs_give_only_the_end() {
    assert_eq!(drain(TokenStream::new("", &[], &[])), vec![Ok(Token::EOF)]);
    assert_eq!(drain(TokenStream::new(" \t\n ", &[], &[])), vec![Ok(Token::EOF)]);
}

#[test]
fn comments_run_to_the_end_of_the_line() {
    let items = drain(TokenStream::with_delimiters("x # note 1.2.3 $\ny", &[], &[], &['"'], &['#']));
    assert_eq!(items, vec![normal("x"), normal("y"), Ok(Token::EOF)]);
    let items = drain(TokenStream::with_delimiters("x # trailing", &[], &[], &['"'], &['#']));
    assert_eq!(items, vec![normal("x"), Ok(Token::EOF)]);
}

#[test]
fn configured_quote_characters() {
    let items = drain(TokenStream::with_delimiters("'a b' \"c\"", &[], &[], &['\''], &[]));
    assert_eq!(
        items[0],
        Ok(Token::Lit(Literal::Str("a b".to_string())))
    );
    assert!(items[1].is_err());
}

#[test]
fn letters_and_digits_beyond_ascii() {
    let items = drain(TokenStream::new("héllo ٣", &[], &[]));
    assert_eq!(items, vec![normal("héllo"), int_lit("٣"), Ok(Token::EOF)]);
}

#[test]
fn surrounding_white_space_is_trimmed() {
    let mut iter = TokenStream::new("\u{a0} \n $", &[], &[]);
    let e = iter.next().unwrap().unwrap_err();
    assert_eq!(e.pos, Position { line: 1, column: 1, offset: 1 });
}

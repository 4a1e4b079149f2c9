use soundlang::error::Error;
use soundlang::lexer::line_lexer::{to_chars, LineLexer};
use soundlang::lexer::Lexer;
use soundlang::pos::{End, Range, Start};
use soundlang::token::{PToken, Token};
use std::collections::VecDeque;

fn lex(lines: &[&str]) -> Lexer {
    Lexer::new(lines.iter().map(|line| line.to_string()).collect())
}

fn all(lines: &[&str]) -> Vec<Result<PToken, Error>> {
    let mut lexer = lex(lines);
    let mut found = Vec::new();
    loop {
        match lexer.next() {
            Ok(Some(token)) => found.push(Ok(token)),
            Ok(None) => return found,
            Err(error) => found.push(Err(error)),
        }
    }
}

fn tokens(line: &str) -> Vec<Token> {
    all(&[line]).into_iter().map(|item| item.unwrap().1).collect()
}

fn id(name: &str) -> Token {
    Token::Identifier(name.to_string())
}

#[test]
fn identifier() {
    let input = "abc a00 _0123456789$";
    let mut lexer = Lexer::new(vec![input.to_string()]);
    for &ans in &["abc", "a00", "_0123456789$"] {
        let next = match lexer.next() {
            Ok(item) => item,
            Err(err) => {
                panic!("{:?} in {:?}", err, lexer.log());
            }
        };
        let (_, token) = next.unwrap();
        match token {
            Token::Identifier(s) => assert_eq!(s, ans),
            _ => panic!("not an identifier"),
        }
    }
}

#[test]
fn keywords_are_not_identifiers() {
    assert_eq!(
        tokens("if for else iff If elsewhere"),
        vec![
            Token::KeywordIf,
            Token::KeywordFor,
            Token::KeywordElse,
            id("iff"),
            id("If"),
            id("elsewhere"),
        ]
    );
}

#[test]
fn the_longest_operator_is_taken() {
    assert_eq!(
        tokens("+ ++ += - -- -= * *= / /= % %= = == ! !="),
        vec![
            Token::Plus,
            Token::DoublePlus,
            Token::PlusEqual,
            Token::Hyphen,
            Token::DoubleHyphen,
            Token::HyphenEqual,
            Token::Asterisk,
            Token::AsteriskEqual,
            Token::Slash,
            Token::SlashEqual,
            Token::Percent,
            Token::PercentEqual,
            Token::Equal,
            Token::DoubleEqual,
            Token::Exclamation,
            Token::ExclamationEqual,
        ]
    );
    assert_eq!(
        tokens("< <= << <<= <<< <<<= > >= >> >>= >>> >>>="),
        vec![
            Token::Less,
            Token::LessEqual,
            Token::DoubleLess,
            Token::DoubleLessEqual,
            Token::TripleLess,
            Token::TripleLessEqual,
            Token::Greater,
            Token::GreaterEqual,
            Token::DoubleGreater,
            Token::DoubleGreaterEqual,
            Token::TripleGreater,
            Token::TripleGreaterEqual,
        ]
    );
    assert_eq!(
        tokens("& &= && | |= || ^ ^= : ; , ? # ~ ( ) [ ] { }"),
        vec![
            Token::Ampersand,
            Token::AmpersandEqual,
            Token::DoubleAmpersand,
            Token::Bar,
            Token::BarEqual,
            Token::DoubleBar,
            Token::Circumflex,
            Token::CircumflexEqual,
            Token::Colon,
            Token::Semicolon,
            Token::Comma,
            Token::Question,
            Token::Hash,
            Token::Tilde,
            Token::OpeningParenthesis,
            Token::ClosingParenthesis,
            Token::OpeningBracket,
            Token::ClosingBracket,
            Token::OpeningBrace,
            Token::ClosingBrace,
        ]
    );
    assert_eq!(
        tokens("<<<<===+++!==&&&"),
        vec![
            Token::TripleLess,
            Token::LessEqual,
            Token::DoubleEqual,
            Token::DoublePlus,
            Token::Plus,
            Token::ExclamationEqual,
            Token::Equal,
            Token::DoubleAmpersand,
            Token::Ampersand,
        ]
    );
}

#[test]
fn number_literals_keep_their_digits() {
    assert_eq!(
        tokens("0 7 123 1_000 0b101 0o17 0xfF 0_1"),
        vec![
            Token::DecInt("0".to_string()),
            Token::DecInt("7".to_string()),
            Token::DecInt("123".to_string()),
            Token::DecInt("1000".to_string()),
            Token::BinInt("101".to_string()),
            Token::OctInt("17".to_string()),
            Token::HexInt("fF".to_string()),
            Token::DecInt("01".to_string()),
        ]
    );
    assert_eq!(
        tokens("1.5 0.25 .5 3. 1e9 2E-3 0e0 1.5e+10 07 1_0.0_1"),
        vec![
            Token::Float("1.5".to_string()),
            Token::Float("0.25".to_string()),
            Token::Float(".5".to_string()),
            Token::Float("3.".to_string()),
            Token::Float("1e9".to_string()),
            Token::Float("2E-3".to_string()),
            Token::Float("0e0".to_string()),
            Token::Float("1.5e+10".to_string()),
            Token::Float("7".to_string()),
            Token::Float("10.01".to_string()),
        ]
    );
    assert_eq!(
        tokens("0b 0x 0b12 ."),
        vec![
            Token::BinInt("".to_string()),
            Token::HexInt("".to_string()),
            Token::BinInt("12".to_string()),
            Token::Dot,
        ]
    );
    assert_eq!(
        tokens("1.2.3 0xg 1a"),
        vec![
            Token::Float("1.2".to_string()),
            Token::Float(".3".to_string()),
            Token::HexInt("".to_string()),
            id("g"),
            Token::DecInt("1".to_string()),
            id("a"),
        ]
    );
}

#[test]
fn a_number_that_breaks_off_in_its_exponent_is_an_error() {
    assert_eq!(
        all(&["x 1e"]),
        vec![
            Err(Error::InvalidNumericLiteral(Range::new_single_line(0, 2, None))),
            Ok((Range::new_single_line(0, 0, Some(1)), id("x"))),
        ]
    );
    assert_eq!(
        all(&["2e+ y"]),
        vec![Err(Error::InvalidNumericLiteral(Range::new_single_line(0, 0, Some(3))))]
    );
    assert_eq!(
        all(&["0e;"]),
        vec![Err(Error::InvalidNumericLiteral(Range::new_single_line(0, 0, Some(2))))]
    );
}

#[test]
fn string_literals_resolve_their_escapes() {
    assert_eq!(
        tokens(r#""" "abc" "a\nb\r\t\0\"\\\q" "//" "/*""#),
        vec![
            Token::String("".to_string()),
            Token::String("abc".to_string()),
            Token::String("a\nb\r\t\0\"\\q".to_string()),
            Token::String("//".to_string()),
            Token::String("/*".to_string()),
        ]
    );
}

#[test]
fn a_string_literal_may_run_over_lines() {
    let found = all(&["a \"one\n", "two\" b"]);
    assert_eq!(
        found,
        vec![
            Ok((Range::new_single_line(0, 0, Some(1)), id("a"))),
            Ok((
                Range::new(Start::new(0, 2), End::new(1, Some(4))),
                Token::String("one\ntwo".to_string())
            )),
            Ok((Range::new_single_line(1, 5, None), id("b"))),
        ]
    );
}

#[test]
fn an_open_string_literal_is_an_error() {
    assert_eq!(
        all(&["a \"bc"]),
        vec![
            Ok((Range::new_single_line(0, 0, Some(1)), id("a"))),
            Err(Error::UnterminatedStringLiteral(Start::new(0, 2))),
        ]
    );
    assert_eq!(
        all(&["\"bc\\"]),
        vec![
            Err(Error::UnterminatedStringLiteral(Start::new(0, 0))),
            Err(Error::UnterminatedStringLiteral(Start::new(0, 0))),
        ]
    );
}

#[test]
fn comments_are_skipped_and_nest() {
    assert_eq!(tokens("a // b c"), vec![id("a")]);
    assert_eq!(tokens("a /* b */ c"), vec![id("a"), id("c")]);
    assert_eq!(tokens("a /* b /* c */ d */ e"), vec![id("a"), id("e")]);
    assert_eq!(tokens("a /* \" */ b"), vec![id("a"), id("b")]);
    assert_eq!(tokens("a /*/ b */ c"), vec![id("a"), id("c")]);
    let found: Vec<Token> = all(&["a /* b\n", "c // */ d\n", "e */ f"])
        .into_iter()
        .map(|item| item.unwrap().1)
        .collect();
    assert_eq!(found, vec![id("a"), id("d"), id("e"), Token::Asterisk, Token::Slash, id("f")]);
}

#[test]
fn open_comments_are_an_error_at_the_end() {
    assert_eq!(
        all(&["a /* b /* c\n", "d */ e"]),
        vec![
            Ok((Range::new_single_line(0, 0, Some(1)), id("a"))),
            Err(Error::UnterminatedComment(vec![Start::new(0, 2)])),
        ]
    );
    assert_eq!(
        all(&["/* /*", " /* \""]),
        vec![Err(Error::UnterminatedComment(vec![
            Start::new(0, 0),
            Start::new(0, 3),
            Start::new(1, 1),
        ]))]
    );
}

#[test]
fn a_character_that_starts_no_token_is_an_error() {
    assert_eq!(
        all(&["ab @ cd", "ef"]),
        vec![
            Err(Error::UnexpectedCharacter(Start::new(0, 3))),
            Ok((Range::new_single_line(0, 0, Some(2)), id("ab"))),
            Ok((Range::new_single_line(1, 0, None), id("ef"))),
        ]
    );
    assert_eq!(all(&["\u{e9}"]), vec![Err(Error::UnexpectedCharacter(Start::new(0, 0)))]);
    assert_eq!(all(&["a'"]).len(), 2);
}

#[test]
fn columns_count_bytes() {
    assert_eq!(
        all(&["\"\u{e9}\u{20ac}\u{1f600}\" x /* \u{e9} */ y"]),
        vec![
            Ok((
                Range::new(Start::new(0, 0), End::new(0, Some(11))),
                Token::String("\u{e9}\u{20ac}\u{1f600}".to_string())
            )),
            Ok((Range::new_single_line(0, 12, Some(13)), id("x"))),
            Ok((Range::new_single_line(0, 23, None), id("y"))),
        ]
    );
    assert_eq!(to_chars("a\u{e9}b"), vec!['a', '\u{e9}', 'b']);
}

#[test]
fn white_space_separates_tokens() {
    assert_eq!(
        all(&[" a\tb\r\n", "\x0Cc"]),
        vec![
            Ok((Range::new_single_line(0, 1, Some(2)), id("a"))),
            Ok((Range::new_single_line(0, 3, Some(4)), id("b"))),
            Ok((Range::new_single_line(1, 1, None), id("c"))),
        ]
    );
    assert_eq!(all(&[]), vec![]);
    assert_eq!(all(&["", "  ", "\n"]), vec![]);
}

#[test]
fn next_if_takes_only_what_the_condition_accepts() {
    let mut lexer = lex(&["a , @"]);
    assert_eq!(lexer.remaining(), 3);
    assert_eq!(lexer.next_if(Token::is_comma), Err(Error::UnexpectedCharacter(Start::new(0, 4))));
    assert_eq!(lexer.next_if(Token::is_comma), Ok(None));
    assert_eq!(lexer.remaining(), 2);
    assert_eq!(
        lexer.next_if(Token::is_identifier),
        Ok(Some((Range::new_single_line(0, 0, Some(1)), id("a"))))
    );
    assert_eq!(lexer.next_if(Token::is_identifier), Ok(None));
    assert_eq!(
        lexer.next_if(|token: &Token| *token == Token::Comma),
        Ok(Some((Range::new_single_line(0, 2, Some(3)), Token::Comma)))
    );
    assert_eq!(lexer.next_if(Token::is_comma), Ok(None));
    assert_eq!(lexer.next(), Ok(None));
    assert_eq!(lexer.next(), Ok(None));
    assert_eq!(lexer.log(), &vec!["a , @".to_string()]);
}

#[test]
fn next_if_map_hands_out_what_the_function_makes() {
    let mut lexer = lex(&["12 x"]);
    let digits = |token: &Token| match token {
        Token::DecInt(text) => Some(text.len()),
        _ => None,
    };
    assert_eq!(lexer.next_if_map(digits), Ok(Some((Range::new_single_line(0, 0, Some(2)), 2))));
    assert_eq!(lexer.next_if_map(digits), Ok(None));
    assert_eq!(lexer.remaining(), 1);
    assert_eq!(lexer.next(), Ok(Some((Range::new_single_line(0, 3, None), id("x")))));
    assert_eq!(lexer.next_if_map(digits), Ok(None));
    let mut failing = lex(&["`"]);
    assert_eq!(
        failing.next_if_map(digits),
        Err(Error::UnexpectedCharacter(Start::new(0, 0)))
    );
    assert_eq!(failing.next_if_map(digits), Ok(None));
}

#[test]
fn token_kinds_are_told_apart() {
    let text = || "1".to_string();
    assert!(Token::Identifier(text()).is_identifier());
    assert!(Token::BinInt(text()).is_bin_int());
    assert!(Token::OctInt(text()).is_oct_int());
    assert!(Token::DecInt(text()).is_dec_int());
    assert!(Token::HexInt(text()).is_hex_int());
    assert!(Token::Float(text()).is_float());
    assert!(Token::String(text()).is_string());
    assert!(Token::OpeningParenthesis.is_opening_parenthesis());
    assert!(Token::Comma.is_comma());
    assert!(!Token::DecInt(text()).is_identifier());
    assert!(!Token::DecInt(text()).is_bin_int());
    assert!(!Token::DecInt(text()).is_oct_int());
    assert!(!Token::BinInt(text()).is_dec_int());
    assert!(!Token::DecInt(text()).is_hex_int());
    assert!(!Token::DecInt(text()).is_float());
    assert!(!Token::Identifier(text()).is_string());
    assert!(!Token::ClosingParenthesis.is_opening_parenthesis());
    assert!(!Token::Semicolon.is_comma());
}

#[test]
fn the_line_lexer_carries_what_is_open() {
    let mut lexer = LineLexer::new();
    let mut tokens: VecDeque<PToken> = VecDeque::new();
    tokens.push_back((Range::new_single_line(9, 9, None), Token::Hash));
    assert_eq!(lexer.run(4, "a /* b", &mut tokens), Ok(()));
    assert_eq!(lexer.run(5, "c */ d \"e", &mut tokens), Ok(()));
    assert_eq!(
        tokens,
        VecDeque::from(vec![
            (Range::new_single_line(9, 9, None), Token::Hash),
            (Range::new_single_line(4, 0, Some(1)), id("a")),
            (Range::new_single_line(5, 5, Some(6)), id("d")),
        ])
    );
    assert_eq!(lexer.deal_with_eof(), Err(Error::UnterminatedStringLiteral(Start::new(5, 7))));
    assert_eq!(lexer.deal_with_eof(), Ok(()));
    assert_eq!(lexer, LineLexer::new());
    assert_eq!(lexer.run(6, "/* \"", &mut tokens), Ok(()));
    assert_eq!(lexer.deal_with_eof(), Err(Error::UnterminatedComment(vec![Start::new(6, 0)])));
    assert_eq!(lexer.deal_with_eof(), Ok(()));
}

#[test]
fn positions_are_made_of_their_parts() {
    let start = Start::new(1, 2);
    let end = End::new(3, Some(4));
    let range = Range::new(start, end);
    assert_eq!((start.line, start.column), (1, 2));
    assert_eq!((end.line, end.column), (3, Some(4)));
    assert_eq!((range.start, range.end), (start, end));
    assert_eq!(
        Range::new_single_line(7, 1, None),
        Range::new(Start::new(7, 1), End::new(7, None))
    );
    assert_eq!(
        Range::new_single_line(0, 0, Some(1)).join(Range::new_single_line(2, 5, Some(9))),
        Range::new(Start::new(0, 0), End::new(2, Some(9)))
    );
}

#[test]
fn a_lexer_is_fed_line_by_line() {
    let mut lexer = Lexer::open();
    assert!(!lexer.is_closed());
    assert!(!lexer.ready());
    assert_eq!(lexer.remaining(), 0);
    assert_eq!(lexer.log(), &Vec::<String>::new());
    lexer.feed("a /* b\n".to_string());
    assert_eq!(lexer.remaining(), 1);
    assert!(!lexer.ready());
    lexer.feed("c */ + d\n".to_string());
    assert_eq!(lexer.remaining(), 3);
    assert!(!lexer.ready());
    assert_eq!(lexer.next(), Ok(Some((Range::new_single_line(0, 0, Some(1)), id("a")))));
    lexer.feed("; e \"f\n".to_string());
    assert!(lexer.ready());
    assert_eq!(lexer.log().len(), 3);
    assert_eq!(lexer.next(), Ok(Some((Range::new_single_line(1, 5, Some(6)), Token::Plus))));
    assert_eq!(lexer.next(), Ok(Some((Range::new_single_line(1, 7, Some(8)), id("d")))));
    assert_eq!(lexer.next(), Ok(Some((Range::new_single_line(2, 0, Some(1)), Token::Semicolon))));
    assert!(!lexer.ready());
    assert_eq!(lexer.next(), Ok(Some((Range::new_single_line(2, 2, Some(3)), id("e")))));
    assert_eq!(lexer.next(), Ok(None));
    assert!(!lexer.ready());
    lexer.close();
    assert!(lexer.is_closed());
    assert!(lexer.ready());
    assert_eq!(lexer.next(), Err(Error::UnterminatedStringLiteral(Start::new(2, 4))));
    assert_eq!(lexer.next(), Ok(None));
    lexer.feed("g".to_string());
    lexer.close();
    assert_eq!(lexer.next(), Ok(None));
    assert_eq!(lexer.log().len(), 3);
    assert!(lexer.ready());
}

#[test]
fn an_error_makes_a_lexer_ready() {
    let mut lexer = Lexer::open();
    lexer.feed("a @".to_string());
    assert!(lexer.ready());
    assert_eq!(lexer.next(), Err(Error::UnexpectedCharacter(Start::new(0, 2))));
    assert!(!lexer.ready());
    let mut whole = lex(&["a;", "b"]);
    assert!(whole.is_closed());
    assert!(whole.ready());
    let mut fed = Lexer::open();
    fed.feed("a;".to_string());
    fed.feed("b".to_string());
    fed.close();
    assert_eq!(fed, whole);
    assert_eq!(whole.next().unwrap().unwrap().1, id("a"));
}

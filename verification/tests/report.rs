use soundlang::error::Error;
use soundlang::pos::{End, Range, Start};
use soundlang::report::write_decimal;
use soundlang::types::Type;

fn log() -> Vec<String> {
    vec!["let x = (1 +\n".to_string(), "  \u{e9}2);\n".to_string(), "end".to_string()]
}

fn decimal(n: u128) -> String {
    let mut text = "n=".to_string();
    write_decimal(n, &mut text);
    text
}

#[test]
fn numbers_are_written_in_decimal() {
    assert_eq!(decimal(0), "n=0");
    assert_eq!(decimal(7), "n=7");
    assert_eq!(decimal(10), "n=10");
    assert_eq!(decimal(1234567890), "n=1234567890");
    assert_eq!(decimal(u128::MAX), format!("n={}", u128::MAX));
    for n in [9u128, 99, 100, 101, 4096, 18446744073709551616] {
        assert_eq!(decimal(n), format!("n={n}"));
    }
}

#[test]
fn places_are_shown_counted_from_one() {
    assert_eq!(Start::new(0, 0).to_string(), "1:1");
    assert_eq!(Start::new(11, 41).to_string(), "12:42");
    assert_eq!(Start::new(usize::MAX, usize::MAX).to_string(), format!("{0}:{0}", usize::MAX as u128 + 1));
    assert_eq!(End::new(0, Some(0)).to_string(), "1:0");
    assert_eq!(End::new(11, Some(41)).to_string(), "12:41");
    assert_eq!(End::new(11, None).to_string(), "12:$");
    assert_eq!(Range::new_single_line(2, 3, Some(5)).to_string(), "3:4-3:5");
    assert_eq!(Range::new(Start::new(0, 8), End::new(1, None)).to_string(), "1:9-2:$");
}

#[test]
fn a_start_is_marked_in_its_line() {
    assert_eq!(Start::new(0, 4).mark(&log()), Some("let  !-> x = (1 +\n".to_string()));
    assert_eq!(Start::new(0, 0).mark(&log()), Some(" !-> let x = (1 +\n".to_string()));
    assert_eq!(Start::new(2, 3).mark(&log()), Some("end !-> ".to_string()));
    assert_eq!(Start::new(1, 2).mark(&log()), Some("   !-> \u{e9}2);\n".to_string()));
    assert_eq!(Start::new(1, 4).mark(&log()), Some("  \u{e9} !-> 2);\n".to_string()));
    assert_eq!(Start::new(1, 3).mark(&log()), None);
    assert_eq!(Start::new(2, 4).mark(&log()), None);
    assert_eq!(Start::new(3, 0).mark(&log()), None);
}

#[test]
fn a_range_is_marked_in_its_lines() {
    assert_eq!(
        Range::new_single_line(0, 4, Some(5)).mark(&log()),
        Some("let  !-> x <-!  = (1 +\n".to_string())
    );
    assert_eq!(
        Range::new_single_line(0, 4, Some(4)).mark(&log()),
        Some("let  !->  <-! x = (1 +\n".to_string())
    );
    assert_eq!(
        Range::new_single_line(2, 0, None).mark(&log()),
        Some(" !-> end <-!\n".to_string())
    );
    assert_eq!(
        Range::new(Start::new(0, 8), End::new(1, Some(6))).mark(&log()),
        Some("let x =  !-> (1 +\n...\n  \u{e9}2) <-! ;\n".to_string())
    );
    assert_eq!(
        Range::new(Start::new(0, 8), End::new(2, None)).mark(&log()),
        Some("let x =  !-> (1 +\n...\nend <-!\n".to_string())
    );
    assert_eq!(Range::new_single_line(0, 5, Some(4)).mark(&log()), None);
    assert_eq!(Range::new_single_line(0, 5, Some(99)).mark(&log()), None);
    assert_eq!(Range::new_single_line(1, 3, None).mark(&log()), None);
    assert_eq!(Range::new_single_line(9, 0, None).mark(&log()), None);
    assert_eq!(Range::new(Start::new(0, 0), End::new(9, None)).mark(&log()), None);
    assert_eq!(Range::new(Start::new(0, 0), End::new(1, Some(3))).mark(&log()), None);
}

fn at(start: usize, end: usize) -> Range {
    Range::new_single_line(0, start, Some(end))
}

#[test]
fn every_error_has_its_report() {
    let log = log();
    let x = "let  !-> x <-!  = (1 +\n";
    let one = "let x = ( !-> 1 <-!  +\n";
    let cases = vec![
        (
            Error::UnexpectedCharacter(Start::new(0, 4)),
            "unexpected character at 1:5\nlet  !-> x = (1 +\n".to_string(),
        ),
        (
            Error::InvalidNumericLiteral(at(9, 10)),
            format!("invalid numeric literal at 1:10-1:10\n{one}"),
        ),
        (
            Error::UnterminatedComment(vec![Start::new(0, 4), Start::new(2, 0)]),
            "unterminated comment\nstarted at 1:5\nlet  !-> x = (1 +\nstarted at 3:1\n !-> end"
                .to_string(),
        ),
        (Error::UnterminatedComment(vec![]), "unterminated comment\n".to_string()),
        (
            Error::UnterminatedStringLiteral(Start::new(2, 0)),
            "unterminated string literal started at 3:1\n !-> end".to_string(),
        ),
        (
            Error::UnexpectedEOFAfterPrefixOperator(at(4, 5)),
            "unexpected EOF after prefix operator at 1:5-1:5\n".to_string(),
        ),
        (
            Error::UnexpectedTokenAfterPrefixOperator(at(4, 5), at(9, 10)),
            format!("unexpected token at 1:10-1:10\n{one}after prefix operator at 1:5-1:5\n{x}"),
        ),
        (
            Error::UnexpectedEOFAfterBinaryOperator(at(4, 5)),
            "unexpected EOF after binary operator at 1:5-1:5\n".to_string(),
        ),
        (
            Error::UnexpectedTokenAfterBinaryOperator(at(4, 5), at(9, 10)),
            format!("unexpected token at 1:10-1:10\n{one}after binary operator at 1:5-1:5\n{x}"),
        ),
        (
            Error::NoClosingParenthesis(at(4, 5)),
            format!("no closing parenthesis (opened at 1:5-1:5)\n{x}"),
        ),
        (
            Error::UnexpectedTokenInParenthesis(at(4, 5), at(9, 10)),
            format!("unexpected token at 1:10-1:10\n{one}parenthesis opened at 1:5-1:5\n{x}"),
        ),
        (
            Error::EmptyParenthesis(at(4, 5), at(9, 10)),
            format!("empty parenthesis (opened at 1:5-1:5)\n{x}(closed at 1:10-1:10)\n{one}"),
        ),
        (
            Error::NoExpressionBeforeComma(at(4, 5)),
            format!("no expression before comma at 1:5-1:5\n{x}"),
        ),
        (
            Error::MissingSemicolon(Some(at(4, 5))),
            format!("no semicolon before the token at 1:5-1:5\n{x}"),
        ),
        (Error::MissingSemicolon(None), "no semicolon before the end of the input\n".to_string()),
        (
            Error::UndefinedVariable("x".to_string(), at(4, 5)),
            format!("undefined variable x at 1:5-1:5\n{x}"),
        ),
        (
            Error::UndefinedFunction("f".to_string(), at(4, 5)),
            format!("undefined function f at 1:5-1:5\n{x}"),
        ),
        (
            Error::WrongNumberOfArguments(at(4, 5), 2, 13),
            format!("13 arguments for a function of 2 at 1:5-1:5\n{x}"),
        ),
        (
            Error::UnusedNamedArgument("t".to_string(), at(4, 5)),
            format!("unused named argument t at 1:5-1:5\n{x}"),
        ),
        (
            Error::TypeMismatchArgument(at(4, 5), Type::Sound),
            format!("argument of type Sound at 1:5-1:5\n{x}"),
        ),
        (
            Error::TypeMismatchUnary(at(4, 5), Type::Boolean),
            format!("operand of type boolean at 1:5-1:5\n{x}"),
        ),
        (
            Error::TypeMismatchBinary(at(4, 5), Type::Real, at(9, 10), Type::String),
            format!(
                "operand of type real at 1:5-1:5\n{x}with operand of type string at 1:10-1:10\n{one}"
            ),
        ),
        (
            Error::TypeMismatchCond(at(4, 5), Type::Void),
            format!("condition of type void at 1:5-1:5\n{x}"),
        ),
        (Error::VoidRHS(at(4, 5)), format!("declaration without a value at 1:5-1:5\n{x}")),
        (
            Error::ReturnOutsideFunction(at(4, 5)),
            format!("return outside a function at 1:5-1:5\n{x}"),
        ),
    ];
    for (error, expected) in cases {
        assert_eq!(error.message(&log), Some(expected.clone()), "{error:?}");
        assert_eq!(error.report(&log), Some(format!("error: {expected}")), "{error:?}");
    }
}

#[test]
fn an_error_outside_the_source_has_no_report() {
    let log = log();
    let nowhere = Range::new_single_line(7, 0, None);
    assert_eq!(Error::UnexpectedCharacter(Start::new(7, 0)).report(&log), None);
    assert_eq!(Error::InvalidNumericLiteral(nowhere).report(&log), None);
    assert_eq!(Error::EmptyParenthesis(at(4, 5), nowhere).report(&log), None);
    assert_eq!(Error::EmptyParenthesis(nowhere, at(4, 5)).message(&log), None);
    assert_eq!(
        Error::UnterminatedComment(vec![Start::new(0, 0), Start::new(7, 0)]).report(&log),
        None
    );
    assert_eq!(Error::UnexpectedEOFAfterBinaryOperator(nowhere).report(&log).is_some(), true);
    assert_eq!(Error::VoidRHS(at(4, 5)).report(&Vec::new()), None);
}

use soundlang::error::Error;
use soundlang::expr::{read_integer, BinOp, Expr, PPreExpr, PreExpr, UnOp};
use soundlang::lexer::Lexer;
use soundlang::list::List;
use soundlang::parser::{
    as_binary_operator, as_operator_of, classify, parse_bin_op, parse_calls, parse_chain,
    parse_expr, parse_factor, parse_list, parse_sentence, Assoc, Lead, Precedence,
};
use soundlang::pos::{End, Range, Start};
use soundlang::sentence::{PreSentence, Sentence};
use soundlang::token::Token;

fn lexer_of(text: &str) -> Lexer {
    Lexer::new(vec![text.to_string()])
}

fn at(start: usize, end: usize) -> Range {
    Range::new_single_line(0, start, Some(end))
}

fn to_end(start: usize) -> Range {
    Range::new_single_line(0, start, None)
}

fn name(range: Range, text: &str) -> PPreExpr {
    (range, PreExpr::Identifier(text.to_string()))
}

fn integer(range: Range, text: &str) -> PPreExpr {
    (range, PreExpr::DecInt(text.to_string()))
}

fn bin(op: (Range, BinOp), left: PPreExpr, right: PPreExpr) -> PPreExpr {
    (
        Range::new(left.0.start, right.0.end),
        PreExpr::BinOp(op, Box::new(left), Box::new(right)),
    )
}

fn expression(text: &str) -> Result<Option<PPreExpr>, Error> {
    parse_expr(&mut lexer_of(text))
}

/// The shape of an expression, with a pair of parentheses around every
/// operator and its operands.
fn shape(expression: &PreExpr) -> String {
    match expression {
        PreExpr::Identifier(text) => text.clone(),
        PreExpr::BinInt(text) => format!("0b{text}"),
        PreExpr::OctInt(text) => format!("0o{text}"),
        PreExpr::DecInt(text) => text.clone(),
        PreExpr::HexInt(text) => format!("0x{text}"),
        PreExpr::Float(text) => format!("{text}f"),
        PreExpr::String(text) => format!("{text:?}"),
        PreExpr::UnOp(op, operand) => format!("({:?} {})", op.1, shape(&operand.1)),
        PreExpr::BinOp(op, left, right) => {
            format!("({} {:?} {})", shape(&left.1), op.1, shape(&right.1))
        }
        PreExpr::Group(inner) => format!("[{}]", shape(&inner.1)),
        PreExpr::Call(callee, arguments) => {
            let mut text = format!("{}(", shape(&callee.1));
            let mut rest = arguments;
            while let List::Cons(head, tail) = rest {
                text.push_str(&shape(&head.1));
                text.push(',');
                rest = tail;
            }
            text.push(')');
            text
        }
    }
}

fn shape_of(text: &str) -> String {
    shape(&expression(text).unwrap().unwrap().1)
}

#[test]
fn operators_bind_by_their_precedence() {
    assert_eq!(shape_of("a + b * c"), "(a Add (b Mul c))");
    assert_eq!(shape_of("a * b + c"), "((a Mul b) Add c)");
    assert_eq!(shape_of("a + b << c"), "((a Add b) LeftShift c)");
    assert_eq!(shape_of("a << b & c"), "((a LeftShift b) BitAnd c)");
    assert_eq!(shape_of("a & b ^ c"), "((a BitAnd b) BitXor c)");
    assert_eq!(shape_of("a ^ b | c"), "((a BitXor b) BitOr c)");
    assert_eq!(shape_of("a | b == c"), "((a BitOr b) Equal c)");
    assert_eq!(shape_of("a < b && c >= d"), "((a Less b) LogicalAnd (c GreaterEqual d))");
    assert_eq!(shape_of("a && b || c && d"), "((a LogicalAnd b) LogicalOr (c LogicalAnd d))");
    assert_eq!(shape_of("a || b >>> c"), "((a LogicalOr b) ForwardShift c)");
    assert_eq!(shape_of("a <<< b = c"), "((a BackwardShift b) Assign c)");
    assert_eq!(
        shape_of("x = a || b && c == d | e ^ f & g << h + i * j"),
        "(x Assign (a LogicalOr (b LogicalAnd (c Equal (d BitOr (e BitXor (f BitAnd (g LeftShift (h Add (i Mul j))))))))))"
    );
}

#[test]
fn operators_of_one_precedence_group_from_the_left() {
    assert_eq!(shape_of("a - b + c - d"), "(((a Sub b) Add c) Sub d)");
    assert_eq!(shape_of("a / b * c % d"), "(((a Div b) Mul c) Rem d)");
    assert_eq!(shape_of("a < b > c"), "((a Less b) Greater c)");
    assert_eq!(shape_of("a >> b << c"), "((a RightShift b) LeftShift c)");
    assert_eq!(shape_of("a != b <= c"), "((a NotEqual b) LessEqual c)");
}

#[test]
fn assignments_group_from_the_right() {
    assert_eq!(shape_of("a = b = c"), "(a Assign (b Assign c))");
    assert_eq!(shape_of("a += b -= c *= d"), "(a AddAssign (b SubAssign (c MulAssign d)))");
    assert_eq!(
        shape_of("a /= b %= c &= d |= e ^= f"),
        "(a DivAssign (b RemAssign (c BitAndAssign (d BitOrAssign (e BitXorAssign f)))))"
    );
    assert_eq!(
        shape_of("a <<= b >>= c <<<= d >>>= e"),
        "(a LeftShiftAssign (b RightShiftAssign (c BackwardShiftAssign (d ForwardShiftAssign e))))"
    );
    assert_eq!(shape_of("a = b + c = d"), "(a Assign ((b Add c) Assign d))");
}

#[test]
fn operands_are_names_literals_prefixes_groups_and_calls() {
    assert_eq!(shape_of("x"), "x");
    assert_eq!(shape_of("0b11 0"), "0b11");
    assert_eq!(shape_of("0o17"), "0o17");
    assert_eq!(shape_of("0x1F"), "0x1F");
    assert_eq!(shape_of("1.5"), "1.5f");
    assert_eq!(shape_of("\"a b\""), "\"a b\"");
    assert_eq!(shape_of("-x"), "(Minus x)");
    assert_eq!(shape_of("+x"), "(Plus x)");
    assert_eq!(shape_of("/x"), "(Recip x)");
    assert_eq!(shape_of("!x"), "(LogicalNot x)");
    assert_eq!(shape_of("~x"), "(BitNot x)");
    assert_eq!(shape_of("- - !x"), "(Minus (Minus (LogicalNot x)))");
    assert_eq!(shape_of("-a * b"), "((Minus a) Mul b)");
    assert_eq!(shape_of("a - -b"), "(a Sub (Minus b))");
    assert_eq!(shape_of("(a + b) * c"), "([(a Add b)] Mul c)");
    assert_eq!(shape_of("((a))"), "[[a]]");
    assert_eq!(shape_of("f()"), "f()");
    assert_eq!(shape_of("f(a)"), "f(a,)");
    assert_eq!(shape_of("f(a, b + c, g(d))"), "f(a,(b Add c),g(d,),)");
    assert_eq!(shape_of("f(a,)"), "f(a,)");
    assert_eq!(shape_of("f(a)(b)(c)"), "f(a,)(b,)(c,)");
    assert_eq!(shape_of("(f)(a)"), "[f](a,)");
    assert_eq!(shape_of("-f(a)"), "(Minus f(a,))");
    assert_eq!(shape_of("2(3)"), "2(3,)");
    assert_eq!(shape_of("f(a = b, c)"), "f((a Assign b),c,)");
}

#[test]
fn expressions_carry_their_places() {
    assert_eq!(
        expression("ab + (c)"),
        Ok(Some(bin(
            (at(3, 4), BinOp::Add),
            name(at(0, 2), "ab"),
            (to_end(5), PreExpr::Group(Box::new(name(at(6, 7), "c")))),
        )))
    );
    assert_eq!(
        expression("-f(1, 2) ;"),
        Ok(Some((
            at(0, 8),
            PreExpr::UnOp(
                (at(0, 1), UnOp::Minus),
                Box::new((
                    at(1, 8),
                    PreExpr::Call(
                        Box::new(name(at(1, 2), "f")),
                        List::from_vec(vec![integer(at(3, 4), "1"), integer(at(6, 7), "2")]),
                    )
                ))
            )
        )))
    );
}

#[test]
fn parsing_stops_where_the_expression_ends() {
    let mut lexer = lexer_of("a + b c");
    assert_eq!(shape(&parse_expr(&mut lexer).unwrap().unwrap().1), "(a Add b)");
    assert_eq!(lexer.remaining(), 1);
    let mut none = lexer_of(") a");
    assert_eq!(parse_expr(&mut none), Ok(None));
    assert_eq!(none.remaining(), 2);
    assert_eq!(parse_expr(&mut lexer_of("")), Ok(None));
    assert_eq!(parse_factor(&mut lexer_of("* a")), Ok(None));
    assert_eq!(parse_list(&mut lexer_of(")")), Ok(List::new()));
}

#[test]
fn the_parts_of_the_parser_read_their_part() {
    let mut lexer = lexer_of("a * b + c");
    let product = parse_bin_op(&mut lexer, Precedence::MulDivRem).unwrap().unwrap();
    assert_eq!(shape(&product.1), "(a Mul b)");
    assert_eq!(shape(&parse_chain(&mut lexer, Precedence::AddSub, product).unwrap().unwrap().1), "((a Mul b) Add c)");
    let mut lexer = lexer_of("(x)(y) z");
    let called = parse_calls(&mut lexer, name(at(9, 9), "f")).unwrap().unwrap();
    assert_eq!(shape(&called.1), "f(x,)(y,)");
    assert_eq!(called.0, Range::new(Start::new(0, 9), End::new(0, Some(6))));
    assert_eq!(lexer.remaining(), 1);
    let mut lexer = lexer_of("a, b + c, d) e");
    let listed = parse_list(&mut lexer).unwrap();
    assert_eq!(listed.len(), 3);
    assert_eq!(lexer.remaining(), 2);
    let mut lexer = lexer_of("a + b");
    assert_eq!(shape(&parse_bin_op(&mut lexer, Precedence::Max).unwrap().unwrap().1), "a");
}

#[test]
fn a_missing_operand_is_an_error() {
    assert_eq!(expression("- ; "), Err(Error::UnexpectedTokenAfterPrefixOperator(at(0, 1), at(2, 3))));
    assert_eq!(expression("-"), Err(Error::UnexpectedEOFAfterPrefixOperator(to_end(0))));
    assert_eq!(expression("a + ; "), Err(Error::UnexpectedTokenAfterBinaryOperator(at(2, 3), at(4, 5))));
    assert_eq!(expression("a +"), Err(Error::UnexpectedEOFAfterBinaryOperator(to_end(2))));
    assert_eq!(expression("a = b * )"), Err(Error::UnexpectedTokenAfterBinaryOperator(at(6, 7), to_end(8))));
}

#[test]
fn parentheses_have_to_match() {
    assert_eq!(expression("(a"), Err(Error::NoClosingParenthesis(at(0, 1))));
    assert_eq!(expression("(a ;"), Err(Error::UnexpectedTokenInParenthesis(at(0, 1), to_end(3))));
    assert_eq!(expression("()"), Err(Error::EmptyParenthesis(at(0, 1), to_end(1))));
    assert_eq!(expression("f(a"), Err(Error::NoClosingParenthesis(at(1, 2))));
    assert_eq!(expression("f(a b)"), Err(Error::UnexpectedTokenInParenthesis(at(1, 2), at(4, 5))));
    assert_eq!(expression("f(, a)"), Err(Error::NoExpressionBeforeComma(at(2, 3))));
    assert_eq!(expression("f(a,, b)"), Err(Error::NoExpressionBeforeComma(at(4, 5))));
}

#[test]
fn errors_of_the_lexer_come_through_the_parser() {
    assert_eq!(expression("a + @"), Err(Error::UnexpectedCharacter(Start::new(0, 4))));
    assert_eq!(expression("1e"), Err(Error::InvalidNumericLiteral(to_end(0))));
    assert_eq!(expression("a + \"b"), Err(Error::UnterminatedStringLiteral(Start::new(0, 4))));
    assert_eq!(expression("a /* b"), Err(Error::UnterminatedComment(vec![Start::new(0, 2)])));
    assert_eq!(parse_sentence(&mut lexer_of("a /* b")), Err(Error::UnterminatedComment(vec![Start::new(0, 2)])));
}

#[test]
fn a_sentence_ends_with_a_semicolon() {
    let mut lexer = lexer_of("a + b; ; c");
    let first = parse_sentence(&mut lexer).unwrap().unwrap();
    assert_eq!(first.0, at(0, 6));
    match first.1 {
        PreSentence::Expr(Some(inner)) => assert_eq!(shape(&inner.1), "(a Add b)"),
        other => panic!("{other:?}"),
    }
    assert_eq!(parse_sentence(&mut lexer), Ok(Some((at(7, 8), PreSentence::Expr(None)))));
    assert_eq!(parse_sentence(&mut lexer), Err(Error::MissingSemicolon(None)));
    assert_eq!(parse_sentence(&mut lexer), Ok(None));
    assert_eq!(parse_sentence(&mut lexer_of("a b;")), Err(Error::MissingSemicolon(Some(at(2, 3)))));
    assert_eq!(parse_sentence(&mut lexer_of(")")), Err(Error::MissingSemicolon(Some(to_end(0)))));
    assert_eq!(parse_sentence(&mut lexer_of("")), Ok(None));
    assert_eq!(parse_sentence(&mut lexer_of("// nothing")), Ok(None));
}

#[test]
fn tokens_are_classified() {
    assert_eq!(as_binary_operator(&Token::Plus), Some(BinOp::Add));
    assert_eq!(as_binary_operator(&Token::TripleLess), Some(BinOp::BackwardShift));
    assert_eq!(as_binary_operator(&Token::TripleGreater), Some(BinOp::ForwardShift));
    assert_eq!(as_binary_operator(&Token::Tilde), None);
    assert_eq!(as_binary_operator(&Token::DoublePlus), None);
    assert_eq!(as_operator_of(&Token::Plus, Precedence::AddSub), Some(BinOp::Add));
    assert_eq!(as_operator_of(&Token::Plus, Precedence::MulDivRem), None);
    assert_eq!(as_operator_of(&Token::Comma, Precedence::AddSub), None);
    assert!(matches!(classify(&Token::Hyphen), Some(Lead::Prefix(UnOp::Minus))));
    assert!(matches!(classify(&Token::OpeningParenthesis), Some(Lead::Open)));
    assert!(matches!(classify(&Token::Float("1.".to_string())), Some(Lead::Atom(PreExpr::Float(_)))));
    assert!(classify(&Token::ClosingParenthesis).is_none());
}

#[test]
fn precedences_run_from_the_weakest_to_the_strongest() {
    let mut found = vec![Precedence::first()];
    while let Some(next) = found.last().unwrap().next() {
        found.push(next);
    }
    assert_eq!(
        found,
        vec![
            Precedence::Assign,
            Precedence::TimeShift,
            Precedence::LogicalOr,
            Precedence::LogicalAnd,
            Precedence::Comparison,
            Precedence::BitOr,
            Precedence::BitXor,
            Precedence::BitAnd,
            Precedence::BitShift,
            Precedence::AddSub,
            Precedence::MulDivRem,
            Precedence::Max,
        ]
    );
    assert_eq!(Precedence::Assign.assoc(), Assoc::RightToLeft);
    for precedence in &found[1..] {
        assert_eq!(precedence.assoc(), Assoc::LeftToRight);
    }
    assert_eq!(BinOp::Mul.precedence(), Precedence::MulDivRem);
    assert_eq!(BinOp::Rem.precedence(), Precedence::MulDivRem);
    assert_eq!(BinOp::Sub.precedence(), Precedence::AddSub);
    assert_eq!(BinOp::RightShift.precedence(), Precedence::BitShift);
    assert_eq!(BinOp::BitAnd.precedence(), Precedence::BitAnd);
    assert_eq!(BinOp::BitXor.precedence(), Precedence::BitXor);
    assert_eq!(BinOp::BitOr.precedence(), Precedence::BitOr);
    assert_eq!(BinOp::GreaterEqual.precedence(), Precedence::Comparison);
    assert_eq!(BinOp::LogicalAnd.precedence(), Precedence::LogicalAnd);
    assert_eq!(BinOp::LogicalOr.precedence(), Precedence::LogicalOr);
    assert_eq!(BinOp::ForwardShift.precedence(), Precedence::TimeShift);
    assert_eq!(BinOp::BackwardShiftAssign.precedence(), Precedence::Assign);
    assert_eq!(BinOp::Assign.precedence(), Precedence::Assign);
}

#[test]
fn integer_literals_are_read_in_their_base() {
    assert_eq!(read_integer("101", 2, false), Some(5));
    assert_eq!(read_integer("17", 8, false), Some(15));
    assert_eq!(read_integer("123", 10, false), Some(123));
    assert_eq!(read_integer("fF", 16, false), Some(255));
    assert_eq!(read_integer("zZ", 36, false), Some(35 * 36 + 35));
    assert_eq!(read_integer("0", 10, true), Some(0));
    assert_eq!(read_integer("0000000000000000000007", 10, false), Some(7));
    assert_eq!(read_integer("2147483647", 10, false), Some(i32::MAX));
    assert_eq!(read_integer("2147483648", 10, false), None);
    assert_eq!(read_integer("2147483648", 10, true), Some(i32::MIN));
    assert_eq!(read_integer("2147483649", 10, true), None);
    assert_eq!(read_integer("7fffffff", 16, false), Some(i32::MAX));
    assert_eq!(read_integer("80000000", 16, true), Some(i32::MIN));
    assert_eq!(read_integer("99999999999999999999999999", 10, false), None);
    assert_eq!(read_integer("", 10, false), None);
    assert_eq!(read_integer("12", 2, false), None);
    assert_eq!(read_integer("8", 8, false), None);
    assert_eq!(read_integer("1a", 10, false), None);
    assert_eq!(read_integer("g", 16, false), None);
    assert_eq!(read_integer("1 ", 10, false), None);
    assert_eq!(read_integer("-1", 10, false), None);
    for text in ["0", "1", "42", "2147483647", "2147483648", "4294967296", "12a", ""] {
        for (radix, negative) in [(2u8, false), (8, true), (10, false), (10, true), (16, false)] {
            let signed = if negative { format!("-{text}") } else { text.to_string() };
            assert_eq!(
                read_integer(text, radix, negative),
                i32::from_str_radix(&signed, radix as u32).ok(),
                "{signed} in base {radix}"
            );
        }
    }
}

#[test]
fn conversion_reads_the_integers() {
    let convert = |text: &str| {
        let (range, expression) = expression(text).unwrap().unwrap();
        Expr::from(range, expression)
    };
    assert_eq!(convert("x"), Ok(Expr::Identifier("x".to_string())));
    assert_eq!(convert("0b101"), Ok(Expr::Integer(5)));
    assert_eq!(convert("0o17"), Ok(Expr::Integer(15)));
    assert_eq!(convert("1_000"), Ok(Expr::Integer(1000)));
    assert_eq!(convert("0xff"), Ok(Expr::Integer(255)));
    assert_eq!(convert("1.5e3"), Ok(Expr::Float("1.5e3".to_string())));
    assert_eq!(convert("\"s\""), Ok(Expr::String("s".to_string())));
    assert_eq!(convert("-2147483648"), Ok(Expr::Integer(i32::MIN)));
    assert_eq!(convert("-0x10"), Ok(Expr::Integer(-16)));
    assert_eq!(convert("2147483648"), Err(Error::InvalidNumericLiteral(to_end(0))));
    assert_eq!(convert("0b12"), Err(Error::InvalidNumericLiteral(to_end(0))));
    assert_eq!(convert("0x"), Err(Error::InvalidNumericLiteral(to_end(0))));
    assert_eq!(convert("-0b"), Err(Error::InvalidNumericLiteral(to_end(0))));
    assert_eq!(convert("a + 0b2"), Err(Error::InvalidNumericLiteral(to_end(4))));
    assert_eq!(convert("f(1, 99999999999)"), Err(Error::InvalidNumericLiteral(at(5, 16))));
    assert_eq!(
        convert("-(1)"),
        Ok(Expr::UnOp(
            (at(0, 1), UnOp::Minus),
            Box::new((to_end(1), Expr::Group(Box::new((at(2, 3), Expr::Integer(1))))))
        ))
    );
    assert_eq!(
        convert("+1"),
        Ok(Expr::UnOp((at(0, 1), UnOp::Plus), Box::new((to_end(1), Expr::Integer(1)))))
    );
    assert_eq!(
        convert("1 - 2"),
        Ok(Expr::BinOp(
            (at(2, 3), BinOp::Sub),
            Box::new((at(0, 1), Expr::Integer(1))),
            Box::new((to_end(4), Expr::Integer(2)))
        ))
    );
    assert_eq!(
        convert("f(-1)"),
        Ok(Expr::Call(
            Box::new((at(0, 1), Expr::Identifier("f".to_string()))),
            List::from_vec(vec![(at(2, 4), Expr::Integer(-1))])
        ))
    );
}

#[test]
fn a_sentence_is_converted_with_its_expression() {
    let sentence = |text: &str| Sentence::from(parse_sentence(&mut lexer_of(text)).unwrap().unwrap().1);
    assert_eq!(sentence(";"), Ok(Sentence::Expr(None)));
    assert_eq!(sentence("7;"), Ok(Sentence::Expr(Some((at(0, 1), Expr::Integer(7))))));
    assert_eq!(sentence("0b3;"), Err(Error::InvalidNumericLiteral(at(0, 3))));
}

#[test]
fn a_sentence_is_read_as_soon_as_the_lexer_is_ready() {
    let mut lexer = Lexer::open();
    let mut read = Vec::new();
    for line in ["a +\n", "b; c\n", "* (d\n", "); e @\n", "f;\n"] {
        lexer.feed(line.to_string());
        while lexer.ready() {
            read.push(parse_sentence(&mut lexer).map(|found| found.map(|sentence| match sentence.1 {
                PreSentence::Expr(Some(inner)) => shape(&inner.1),
                PreSentence::Expr(None) => String::new(),
            })));
        }
    }
    assert_eq!(
        read,
        vec![
            Ok(Some("(a Add b)".to_string())),
            Err(Error::UnexpectedCharacter(Start::new(3, 5))),
            Err(Error::MissingSemicolon(Some(Range::new_single_line(3, 0, Some(1))))),
            Ok(Some(String::new())),
            Err(Error::MissingSemicolon(Some(Range::new_single_line(4, 0, Some(1))))),
            Ok(Some(String::new())),
        ]
    );
    assert!(!lexer.ready());
    lexer.close();
    assert_eq!(parse_sentence(&mut lexer), Ok(None));
}

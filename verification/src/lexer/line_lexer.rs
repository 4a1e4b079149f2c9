//! The lexer of one line.
//!
//! A line is split into tokens from left to right. A block comment and a
//! string literal may stay open at the end of a line: the scanner carries
//! them over to the next.

use std::collections::VecDeque;
use vstd::prelude::*;
use crate::error::Error;
use crate::list::counted;
use crate::pos::{End, Range, Start};
use crate::token::{Lexeme, PToken, Token};

verus! {

/// `String::push` of the standard library puts one character behind the
/// end of a string.
pub assume_specification[ std::string::String::push ](s: &mut std::string::String, ch: char)
    ensures
        final(s)@ == old(s)@.push(ch),
;

/// What a lexer carries from one line to the next: the mathematical value
/// of a [`LineLexer`].
pub struct Scanner {
    /// Where the block comments that are open began, outermost first.
    pub comment: Seq<Start>,
    /// Where the string literal that is open began, and its text so far.
    pub string: Option<(Start, Seq<char>)>,
}

/// The lexer of one line at a time.
#[derive(Debug, PartialEq, Eq)]
pub struct LineLexer {
    comment: Vec<Start>,
    string: Option<(Start, String)>,
}

impl View for LineLexer {
    type V = Scanner;

    closed spec fn view(&self) -> Scanner {
        Scanner {
            comment: self.comment@,
            string: match self.string {
                Some(open) => Some((open.0, open.1@)),
                None => None,
            },
        }
    }
}

/// The number of bytes that a character takes in UTF-8.
pub open spec fn width(c: char) -> nat {
    if (c as u32) < 0x80 {
        1
    } else if (c as u32) < 0x800 {
        2
    } else if (c as u32) < 0x10000 {
        3
    } else {
        4
    }
}

/// The number of bytes that the first `i` characters of a line take.
pub open spec fn offset(line: Seq<char>, i: int) -> nat
    decreases i,
{
    if i <= 0 {
        0
    } else {
        offset(line, i - 1) + width(line[i - 1])
    }
}

/// The column of the character at place `i` of a line: the number of bytes
/// before it, as a machine number.
pub open spec fn column(line: Seq<char>, i: int) -> usize {
    counted(offset(line, i))
}

/// The position of the character at place `i` of a line.
pub open spec fn at(line_num: usize, line: Seq<char>, i: int) -> Start {
    Start { line: line_num, column: column(line, i) }
}

/// The column at which something ends that reaches up to place `j`: none
/// where that is the end of the line.
pub open spec fn until(line: Seq<char>, j: int) -> Option<usize> {
    if j < line.len() {
        Some(column(line, j))
    } else {
        None
    }
}

/// The range of what reaches from place `i` up to place `j` of a line.
pub open spec fn span(line_num: usize, line: Seq<char>, i: int, j: int) -> Range {
    Range::single_line(line_num, column(line, i), until(line, j))
}

/// Space, tab, line feed, form feed and carriage return.
pub open spec fn is_space(c: char) -> bool {
    c == ' ' || c == '\t' || c == '\n' || c == '\x0C' || c == '\r'
}

pub open spec fn is_digit(c: char) -> bool {
    '0' <= c <= '9'
}

pub open spec fn is_hex_digit(c: char) -> bool {
    is_digit(c) || 'a' <= c <= 'f' || 'A' <= c <= 'F'
}

/// Whether an identifier can start with the character.
pub open spec fn is_word_start(c: char) -> bool {
    'a' <= c <= 'z' || 'A' <= c <= 'Z' || c == '_' || c == '$'
}

/// Whether an identifier can go on with the character.
pub open spec fn is_word_part(c: char) -> bool {
    is_word_start(c) || is_digit(c)
}

/// The character that a backslash and `c` stand for in a string literal.
pub open spec fn escaped(c: char) -> char {
    if c == 'n' {
        '\n'
    } else if c == 'r' {
        '\r'
    } else if c == 't' {
        '\t'
    } else if c == '0' {
        '\0'
    } else {
        c
    }
}

/// Whether the character at place `i` of a line is `c`.
pub open spec fn has(line: Seq<char>, i: int, c: char) -> bool {
    0 <= i < line.len() && line[i] == c
}

/// The place behind the identifier that goes on at place `i`.
pub open spec fn word_end(line: Seq<char>, i: int) -> int
    decreases line.len() - i,
{
    if 0 <= i < line.len() && is_word_part(line[i]) {
        word_end(line, i + 1)
    } else {
        i
    }
}

/// The token that a word is: one of the keywords, or an identifier.
pub open spec fn word(text: Seq<char>) -> Lexeme {
    if text == seq!['i', 'f'] {
        Lexeme::KeywordIf
    } else if text == seq!['f', 'o', 'r'] {
        Lexeme::KeywordFor
    } else if text == seq!['e', 'l', 's', 'e'] {
        Lexeme::KeywordElse
    } else {
        Lexeme::Identifier(text)
    }
}

/// How far a number literal has been read.
#[derive(Debug, Clone, Copy, PartialEq, Eq, Structural)]
pub enum Reading {
    /// A single zero.
    Zero,
    /// The digits behind `0b`.
    BinInt,
    /// The digits behind `0o`.
    OctInt,
    /// Decimal digits.
    DecInt,
    /// The digits behind `0x`.
    HexInt,
    /// A single dot.
    Dot,
    /// Digits with a dot among them.
    Decimal,
    /// Up to the `e` of an exponent.
    SciE,
    /// Up to the sign of an exponent.
    SciSign,
    /// Up to a digit of an exponent.
    Sci,
}

/// How reading a number goes on with a character: the new state and the
/// new text, or nothing where the number ends before the character.
///
/// An underscore between digits is skipped. A digit behind a single zero
/// starts the text anew.
pub open spec fn number_step(reading: Reading, text: Seq<char>, c: char) -> Option<
    (Reading, Seq<char>),
> {
    match reading {
        Reading::Dot => if is_digit(c) {
            Some((Reading::Decimal, seq!['.', c]))
        } else {
            None
        },
        Reading::Zero => if c == '_' {
            Some((Reading::DecInt, seq!['0']))
        } else if c == 'b' {
            Some((Reading::BinInt, Seq::empty()))
        } else if c == 'o' {
            Some((Reading::OctInt, Seq::empty()))
        } else if c == 'x' {
            Some((Reading::HexInt, Seq::empty()))
        } else if c == '.' {
            Some((Reading::Decimal, seq!['0', '.']))
        } else if is_digit(c) {
            Some((Reading::Decimal, seq![c]))
        } else if c == 'e' || c == 'E' {
            Some((Reading::SciE, seq!['0', c]))
        } else {
            None
        },
        Reading::DecInt => if c == '.' {
            Some((Reading::Decimal, text.push(c)))
        } else if is_digit(c) {
            Some((Reading::DecInt, text.push(c)))
        } else if c == 'e' || c == 'E' {
            Some((Reading::SciE, text.push(c)))
        } else if c == '_' {
            Some((Reading::DecInt, text))
        } else {
            None
        },
        Reading::Decimal => if is_digit(c) {
            Some((Reading::Decimal, text.push(c)))
        } else if c == 'e' || c == 'E' {
            Some((Reading::SciE, text.push(c)))
        } else if c == '_' {
            Some((Reading::Decimal, text))
        } else {
            None
        },
        Reading::BinInt => if is_digit(c) {
            Some((Reading::BinInt, text.push(c)))
        } else if c == '_' {
            Some((Reading::BinInt, text))
        } else {
            None
        },
        Reading::OctInt => if is_digit(c) {
            Some((Reading::OctInt, text.push(c)))
        } else if c == '_' {
            Some((Reading::OctInt, text))
        } else {
            None
        },
        Reading::HexInt => if is_hex_digit(c) {
            Some((Reading::HexInt, text.push(c)))
        } else if c == '_' {
            Some((Reading::HexInt, text))
        } else {
            None
        },
        Reading::SciE => if c == '+' || c == '-' {
            Some((Reading::SciSign, text.push(c)))
        } else if is_digit(c) {
            Some((Reading::Sci, text.push(c)))
        } else {
            None
        },
        Reading::SciSign => if is_digit(c) {
            Some((Reading::Sci, text.push(c)))
        } else {
            None
        },
        Reading::Sci => if is_digit(c) {
            Some((Reading::Sci, text.push(c)))
        } else {
            None
        },
    }
}

/// Where reading a number ends that has come to place `i`: the state, the
/// text and the place behind the number.
pub open spec fn number_end(line: Seq<char>, i: int, reading: Reading, text: Seq<char>) -> (
    Reading,
    Seq<char>,
    int,
)
    decreases line.len() - i,
{
    if 0 <= i < line.len() {
        match number_step(reading, text, line[i]) {
            Some(next) => number_end(line, i + 1, next.0, next.1),
            None => (reading, text, i),
        }
    } else {
        (reading, text, i)
    }
}

/// The state in which a number starts with a character.
pub open spec fn number_start(c: char) -> (Reading, Seq<char>) {
    if c == '.' {
        (Reading::Dot, Seq::empty())
    } else if c == '0' {
        (Reading::Zero, Seq::empty())
    } else {
        (Reading::DecInt, seq![c])
    }
}

/// The token that a number is when reading ends, or nothing where it
/// breaks off behind the `e` or the sign of an exponent.
pub open spec fn number(reading: Reading, text: Seq<char>) -> Option<Lexeme> {
    match reading {
        Reading::Dot => Some(Lexeme::Dot),
        Reading::Zero => Some(Lexeme::DecInt(seq!['0'])),
        Reading::DecInt => Some(Lexeme::DecInt(text)),
        Reading::BinInt => Some(Lexeme::BinInt(text)),
        Reading::OctInt => Some(Lexeme::OctInt(text)),
        Reading::HexInt => Some(Lexeme::HexInt(text)),
        Reading::Decimal => Some(Lexeme::Float(text)),
        Reading::Sci => Some(Lexeme::Float(text)),
        Reading::SciE => None,
        Reading::SciSign => None,
    }
}

/// The token that a single character is.
pub open spec fn single(a: char) -> Option<Lexeme> {
    if a == '+' {
        Some(Lexeme::Plus)
    } else if a == '-' {
        Some(Lexeme::Hyphen)
    } else if a == '*' {
        Some(Lexeme::Asterisk)
    } else if a == '/' {
        Some(Lexeme::Slash)
    } else if a == '%' {
        Some(Lexeme::Percent)
    } else if a == '=' {
        Some(Lexeme::Equal)
    } else if a == '!' {
        Some(Lexeme::Exclamation)
    } else if a == '<' {
        Some(Lexeme::Less)
    } else if a == '>' {
        Some(Lexeme::Greater)
    } else if a == '&' {
        Some(Lexeme::Ampersand)
    } else if a == '|' {
        Some(Lexeme::Bar)
    } else if a == '^' {
        Some(Lexeme::Circumflex)
    } else if a == ':' {
        Some(Lexeme::Colon)
    } else if a == ';' {
        Some(Lexeme::Semicolon)
    } else if a == ',' {
        Some(Lexeme::Comma)
    } else if a == '?' {
        Some(Lexeme::Question)
    } else if a == '#' {
        Some(Lexeme::Hash)
    } else if a == '~' {
        Some(Lexeme::Tilde)
    } else if a == '(' {
        Some(Lexeme::OpeningParenthesis)
    } else if a == ')' {
        Some(Lexeme::ClosingParenthesis)
    } else if a == '[' {
        Some(Lexeme::OpeningBracket)
    } else if a == ']' {
        Some(Lexeme::ClosingBracket)
    } else if a == '{' {
        Some(Lexeme::OpeningBrace)
    } else if a == '}' {
        Some(Lexeme::ClosingBrace)
    } else {
        None
    }
}

/// The token that two characters are.
pub open spec fn double(a: char, b: char) -> Option<Lexeme> {
    if b == '=' {
        if a == '+' {
            Some(Lexeme::PlusEqual)
        } else if a == '-' {
            Some(Lexeme::HyphenEqual)
        } else if a == '*' {
            Some(Lexeme::AsteriskEqual)
        } else if a == '/' {
            Some(Lexeme::SlashEqual)
        } else if a == '%' {
            Some(Lexeme::PercentEqual)
        } else if a == '=' {
            Some(Lexeme::DoubleEqual)
        } else if a == '!' {
            Some(Lexeme::ExclamationEqual)
        } else if a == '<' {
            Some(Lexeme::LessEqual)
        } else if a == '>' {
            Some(Lexeme::GreaterEqual)
        } else if a == '&' {
            Some(Lexeme::AmpersandEqual)
        } else if a == '|' {
            Some(Lexeme::BarEqual)
        } else if a == '^' {
            Some(Lexeme::CircumflexEqual)
        } else {
            None
        }
    } else if a == b {
        if a == '+' {
            Some(Lexeme::DoublePlus)
        } else if a == '-' {
            Some(Lexeme::DoubleHyphen)
        } else if a == '<' {
            Some(Lexeme::DoubleLess)
        } else if a == '>' {
            Some(Lexeme::DoubleGreater)
        } else if a == '&' {
            Some(Lexeme::DoubleAmpersand)
        } else if a == '|' {
            Some(Lexeme::DoubleBar)
        } else {
            None
        }
    } else {
        None
    }
}

/// The token that three characters are.
pub open spec fn triple(a: char, b: char, c: char) -> Option<Lexeme> {
    if a == '<' && b == '<' {
        if c == '<' {
            Some(Lexeme::TripleLess)
        } else if c == '=' {
            Some(Lexeme::DoubleLessEqual)
        } else {
            None
        }
    } else if a == '>' && b == '>' {
        if c == '>' {
            Some(Lexeme::TripleGreater)
        } else if c == '=' {
            Some(Lexeme::DoubleGreaterEqual)
        } else {
            None
        }
    } else {
        None
    }
}

/// The token that four characters are.
pub open spec fn quadruple(a: char, b: char, c: char, d: char) -> Option<Lexeme> {
    if a == '<' && b == '<' && c == '<' && d == '=' {
        Some(Lexeme::TripleLessEqual)
    } else if a == '>' && b == '>' && c == '>' && d == '=' {
        Some(Lexeme::TripleGreaterEqual)
    } else {
        None
    }
}

/// The operator or the punctuation mark at place `i` of a line, and the
/// number of its characters: the longest that is there.
pub open spec fn operator(line: Seq<char>, i: int) -> Option<(Lexeme, int)> {
    if i + 3 < line.len() && quadruple(line[i], line[i + 1], line[i + 2], line[i + 3]) is Some {
        Some((quadruple(line[i], line[i + 1], line[i + 2], line[i + 3])->0, 4))
    } else if i + 2 < line.len() && triple(line[i], line[i + 1], line[i + 2]) is Some {
        Some((triple(line[i], line[i + 1], line[i + 2])->0, 3))
    } else if i + 1 < line.len() && double(line[i], line[i + 1]) is Some {
        Some((double(line[i], line[i + 1])->0, 2))
    } else if single(line[i]) is Some {
        Some((single(line[i])->0, 1))
    } else {
        None
    }
}

/// What the lexer does at one place of a line.
pub enum Step {
    /// It goes on at a later place, with the scanner as given, and has
    /// maybe found a token.
    Next { next: int, scanner: Scanner, token: Option<(Range, Lexeme)> },
    /// The rest of the line is a comment.
    Stop,
    /// The line cannot be read further.
    Fail(Error),
}

/// What the lexer does at place `i` of a line.
///
/// Inside a block comment only `*/`, which closes the innermost comment,
/// and `/*`, which opens another, count. Outside comments a double quote
/// opens or closes a string literal; inside a string literal a backslash
/// and the character behind it stand for one character, and a backslash at
/// the end of the line is an error. Elsewhere white space is skipped, `//`
/// makes the rest of the line a comment, and everything else is a token,
/// the longest that starts there.
pub open spec fn step(scanner: Scanner, line_num: usize, line: Seq<char>, i: int) -> Step {
    let c = line[i];
    if scanner.comment.len() > 0 {
        if c == '*' && has(line, i + 1, '/') {
            Step::Next {
                next: i + 2,
                scanner: Scanner { comment: scanner.comment.drop_last(), string: scanner.string },
                token: None,
            }
        } else if c == '/' && has(line, i + 1, '*') {
            Step::Next {
                next: i + 2,
                scanner: Scanner {
                    comment: scanner.comment.push(at(line_num, line, i)),
                    string: scanner.string,
                },
                token: None,
            }
        } else {
            Step::Next { next: i + 1, scanner, token: None }
        }
    } else if c == '"' {
        match scanner.string {
            Some(open) => Step::Next {
                next: i + 1,
                scanner: Scanner { comment: scanner.comment, string: None },
                token: Some(
                    (
                        Range {
                            start: open.0,
                            end: End { line: line_num, column: until(line, i + 1) },
                        },
                        Lexeme::String(open.1),
                    ),
                ),
            },
            None => Step::Next {
                next: i + 1,
                scanner: Scanner {
                    comment: scanner.comment,
                    string: Some((at(line_num, line, i), Seq::empty())),
                },
                token: None,
            },
        }
    } else if scanner.string is Some {
        let open = scanner.string->0;
        if c == '\\' {
            if i + 1 < line.len() {
                Step::Next {
                    next: i + 2,
                    scanner: Scanner {
                        comment: scanner.comment,
                        string: Some((open.0, open.1.push(escaped(line[i + 1])))),
                    },
                    token: None,
                }
            } else {
                Step::Fail(Error::UnterminatedStringLiteral(open.0))
            }
        } else {
            Step::Next {
                next: i + 1,
                scanner: Scanner { comment: scanner.comment, string: Some((open.0, open.1.push(c))) },
                token: None,
            }
        }
    } else if is_space(c) {
        Step::Next { next: i + 1, scanner, token: None }
    } else if is_word_start(c) {
        let end = word_end(line, i + 1);
        Step::Next {
            next: end,
            scanner,
            token: Some((span(line_num, line, i, end), word(line.subrange(i, end)))),
        }
    } else if is_digit(c) || c == '.' {
        let start = number_start(c);
        let end = number_end(line, i + 1, start.0, start.1);
        match number(end.0, end.1) {
            Some(token) => Step::Next {
                next: end.2,
                scanner,
                token: Some((span(line_num, line, i, end.2), token)),
            },
            None => Step::Fail(Error::InvalidNumericLiteral(span(line_num, line, i, end.2))),
        }
    } else if c == '/' && has(line, i + 1, '/') {
        Step::Stop
    } else if c == '/' && has(line, i + 1, '*') {
        Step::Next {
            next: i + 2,
            scanner: Scanner {
                comment: scanner.comment.push(at(line_num, line, i)),
                string: scanner.string,
            },
            token: None,
        }
    } else {
        match operator(line, i) {
            Some(found) => Step::Next {
                next: i + found.1,
                scanner,
                token: Some((span(line_num, line, i, i + found.1), found.0)),
            },
            None => Step::Fail(Error::UnexpectedCharacter(at(line_num, line, i))),
        }
    }
}

/// What reading a line gives: the tokens found, the scanner behind the
/// line, and whether the line could be read to its end.
pub struct Scan {
    pub tokens: Seq<(Range, Lexeme)>,
    pub scanner: Scanner,
    pub result: Result<(), Error>,
}

/// What reading a line from place `i` on gives, after the tokens in
/// `found`. The tokens found before an error stay found.
pub open spec fn scan(
    scanner: Scanner,
    line_num: usize,
    line: Seq<char>,
    i: int,
    found: Seq<(Range, Lexeme)>,
) -> Scan
    decreases line.len() - i,
{
    if 0 <= i < line.len() {
        match step(scanner, line_num, line, i) {
            Step::Next { next, scanner: then, token } => if i < next <= line.len() {
                scan(
                    then,
                    line_num,
                    line,
                    next,
                    match token {
                        Some(token) => found.push(token),
                        None => found,
                    },
                )
            } else {
                Scan { tokens: found, scanner, result: Ok(()) }
            },
            Step::Stop => Scan { tokens: found, scanner, result: Ok(()) },
            Step::Fail(error) => Scan { tokens: found, scanner, result: Err(error) },
        }
    } else {
        Scan { tokens: found, scanner, result: Ok(()) }
    }
}

/// What reading a whole line gives.
pub open spec fn scanned(scanner: Scanner, line_num: usize, line: Seq<char>) -> Scan {
    scan(scanner, line_num, line, 0, Seq::empty())
}

/// The tokens of a sequence with the texts of their literals.
pub open spec fn lexemes(tokens: Seq<PToken>) -> Seq<(Range, Lexeme)> {
    Seq::new(tokens.len(), |i: int| (tokens[i].0, tokens[i].1@))
}

/// The number of bytes that a character takes in UTF-8.
pub fn utf8_width(c: char) -> (n: usize)
    ensures
        n == width(c),
{
    let code: u32 = c as u32;
    if code < 0x80 {
        1
    } else if code < 0x800 {
        2
    } else if code < 0x10000 {
        3
    } else {
        4
    }
}

/// The characters of a string.
pub fn to_chars(text: &str) -> (chars: Vec<char>)
    ensures
        chars@ == text@,
{
    let n: usize = text.unicode_len();
    let mut chars: Vec<char> = Vec::new();
    let mut i: usize = 0;
    while i < n
        invariant
            n == text@.len(),
            i <= n,
            chars@ == text@.subrange(0, i as int),
        decreases n - i,
    {
        chars.push(text.get_char(i));
        assert(text@.subrange(0, i as int).push(text@[i as int]) =~= text@.subrange(0, i + 1));
        i += 1;
    }
    assert(text@.subrange(0, n as int) =~= text@);
    chars
}

/// The columns of the places of a line, from the first character to the
/// place behind the last.
fn columns(chars: &Vec<char>) -> (found: Vec<usize>)
    ensures
        found@.len() == chars@.len() + 1,
        forall|i: int| 0 <= i <= chars@.len() ==> #[trigger] found@[i] == column(chars@, i),
{
    let mut found: Vec<usize> = Vec::new();
    found.push(0);
    let mut i: usize = 0;
    let mut sum: usize = 0;
    while i < chars.len()
        invariant
            i <= chars@.len(),
            found@.len() == i + 1,
            sum == column(chars@, i as int),
            forall|k: int| 0 <= k <= i ==> #[trigger] found@[k] == column(chars@, k),
        decreases chars@.len() - i,
    {
        let w: usize = utf8_width(chars[i]);
        sum = if sum > usize::MAX - w {
            usize::MAX
        } else {
            sum + w
        };
        found.push(sum);
        i += 1;
    }
    found
}

fn space(c: char) -> (yes: bool)
    ensures
        yes == is_space(c),
{
    c == ' ' || c == '\t' || c == '\n' || c == '\x0C' || c == '\r'
}

fn digit(c: char) -> (yes: bool)
    ensures
        yes == is_digit(c),
{
    '0' <= c && c <= '9'
}

fn hex_digit(c: char) -> (yes: bool)
    ensures
        yes == is_hex_digit(c),
{
    digit(c) || ('a' <= c && c <= 'f') || ('A' <= c && c <= 'F')
}

fn word_start(c: char) -> (yes: bool)
    ensures
        yes == is_word_start(c),
{
    ('a' <= c && c <= 'z') || ('A' <= c && c <= 'Z') || c == '_' || c == '$'
}

fn unescape(c: char) -> (r: char)
    ensures
        r == escaped(c),
{
    if c == 'n' {
        '\n'
    } else if c == 'r' {
        '\r'
    } else if c == 't' {
        '\t'
    } else if c == '0' {
        '\0'
    } else {
        c
    }
}

fn is_at(chars: &Vec<char>, i: usize, c: char) -> (yes: bool)
    ensures
        yes == has(chars@, i as int, c),
{
    i < chars.len() && chars[i] == c
}

/// Finds the place behind the identifier that goes on at place `i`.
fn read_word(chars: &Vec<char>, i: usize) -> (end: usize)
    requires
        i <= chars@.len(),
    ensures
        end == word_end(chars@, i as int),
        i <= end <= chars@.len(),
{
    let mut end: usize = i;
    while end < chars.len() && (word_start(chars[end]) || digit(chars[end]))
        invariant
            i <= end <= chars@.len(),
            word_end(chars@, i as int) == word_end(chars@, end as int),
        decreases chars@.len() - end,
    {
        end += 1;
    }
    end
}

/// Copies the characters from place `i` up to place `j` into a string.
fn copy_text(chars: &Vec<char>, i: usize, j: usize) -> (text: String)
    requires
        i <= j <= chars@.len(),
    ensures
        text@ == chars@.subrange(i as int, j as int),
{
    let mut text = String::new();
    let mut k: usize = i;
    while k < j
        invariant
            i <= k <= j <= chars@.len(),
            text@ == chars@.subrange(i as int, k as int),
        decreases j - k,
    {
        text.push(chars[k]);
        assert(chars@.subrange(i as int, k as int).push(chars@[k as int]) =~= chars@.subrange(
            i as int,
            k + 1,
        ));
        k += 1;
    }
    text
}

/// Makes the token of a word.
fn word_token(text: String) -> (token: Token)
    ensures
        token@ == word(text@),
{
    let chars = to_chars(text.as_str());
    if chars.len() == 2 && chars[0] == 'i' && chars[1] == 'f' {
        assert(chars@ =~= seq!['i', 'f']);
        Token::KeywordIf
    } else if chars.len() == 3 && chars[0] == 'f' && chars[1] == 'o' && chars[2] == 'r' {
        assert(chars@ =~= seq!['f', 'o', 'r']);
        Token::KeywordFor
    } else if chars.len() == 4 && chars[0] == 'e' && chars[1] == 'l' && chars[2] == 's' && chars[3]
        == 'e' {
        assert(chars@ =~= seq!['e', 'l', 's', 'e']);
        Token::KeywordElse
    } else {
        assert(text@ != seq!['i', 'f']) by {
            if text@ == seq!['i', 'f'] {
                assert(seq!['i', 'f'].len() == 2);
            }
        }
        assert(text@ != seq!['f', 'o', 'r']) by {
            if text@ == seq!['f', 'o', 'r'] {
                assert(seq!['f', 'o', 'r'].len() == 3);
            }
        }
        assert(text@ != seq!['e', 'l', 's', 'e']) by {
            if text@ == seq!['e', 'l', 's', 'e'] {
                assert(seq!['e', 'l', 's', 'e'].len() == 4);
            }
        }
        Token::Identifier(text)
    }
}

/// A string of one character.
fn text_of_one(a: char) -> (text: String)
    ensures
        text@ == seq![a],
{
    let mut text = String::new();
    text.push(a);
    assert(text@ =~= seq![a]);
    text
}

/// A string of two characters.
fn text_of_two(a: char, b: char) -> (text: String)
    ensures
        text@ == seq![a, b],
{
    let mut text = String::new();
    text.push(a);
    text.push(b);
    assert(text@ =~= seq![a, b]);
    text
}

/// Takes one more character into a number, where the number goes on with
/// it.
fn read_digit(reading: Reading, text: String, c: char) -> (next: Result<(Reading, String), String>)
    ensures
        match next {
            Ok(next) => number_step(reading, text@, c) == Some((next.0, next.1@)),
            Err(same) => number_step(reading, text@, c) is None && same == text,
        },
{
    let mut text = text;
    match reading {
        Reading::Dot => if digit(c) {
            Ok((Reading::Decimal, text_of_two('.', c)))
        } else {
            Err(text)
        },
        Reading::Zero => if c == '_' {
            Ok((Reading::DecInt, text_of_one('0')))
        } else if c == 'b' {
            Ok((Reading::BinInt, String::new()))
        } else if c == 'o' {
            Ok((Reading::OctInt, String::new()))
        } else if c == 'x' {
            Ok((Reading::HexInt, String::new()))
        } else if c == '.' {
            Ok((Reading::Decimal, text_of_two('0', '.')))
        } else if digit(c) {
            Ok((Reading::Decimal, text_of_one(c)))
        } else if c == 'e' || c == 'E' {
            Ok((Reading::SciE, text_of_two('0', c)))
        } else {
            Err(text)
        },
        Reading::DecInt => if c == '.' {
            text.push(c);
            Ok((Reading::Decimal, text))
        } else if digit(c) {
            text.push(c);
            Ok((Reading::DecInt, text))
        } else if c == 'e' || c == 'E' {
            text.push(c);
            Ok((Reading::SciE, text))
        } else if c == '_' {
            Ok((Reading::DecInt, text))
        } else {
            Err(text)
        },
        Reading::Decimal => if digit(c) {
            text.push(c);
            Ok((Reading::Decimal, text))
        } else if c == 'e' || c == 'E' {
            text.push(c);
            Ok((Reading::SciE, text))
        } else if c == '_' {
            Ok((Reading::Decimal, text))
        } else {
            Err(text)
        },
        Reading::BinInt => if digit(c) {
            text.push(c);
            Ok((Reading::BinInt, text))
        } else if c == '_' {
            Ok((Reading::BinInt, text))
        } else {
            Err(text)
        },
        Reading::OctInt => if digit(c) {
            text.push(c);
            Ok((Reading::OctInt, text))
        } else if c == '_' {
            Ok((Reading::OctInt, text))
        } else {
            Err(text)
        },
        Reading::HexInt => if hex_digit(c) {
            text.push(c);
            Ok((Reading::HexInt, text))
        } else if c == '_' {
            Ok((Reading::HexInt, text))
        } else {
            Err(text)
        },
        Reading::SciE => if c == '+' || c == '-' {
            text.push(c);
            Ok((Reading::SciSign, text))
        } else if digit(c) {
            text.push(c);
            Ok((Reading::Sci, text))
        } else {
            Err(text)
        },
        Reading::SciSign => if digit(c) {
            text.push(c);
            Ok((Reading::Sci, text))
        } else {
            Err(text)
        },
        Reading::Sci => if digit(c) {
            text.push(c);
            Ok((Reading::Sci, text))
        } else {
            Err(text)
        },
    }
}

/// Reads a number to its end from place `i` on.
fn read_number(chars: &Vec<char>, i: usize, reading: Reading, text: String) -> (end: (
    Reading,
    String,
    usize,
))
    requires
        i <= chars@.len(),
    ensures
        number_end(chars@, i as int, reading, text@) == (end.0, end.1@, end.2 as int),
        i <= end.2 <= chars@.len(),
{
    let ghost whole = number_end(chars@, i as int, reading, text@);
    let mut state = reading;
    let mut so_far = text;
    let mut at: usize = i;
    while at < chars.len()
        invariant
            i <= at <= chars@.len(),
            whole == number_end(chars@, i as int, reading, text@),
            whole == number_end(chars@, at as int, state, so_far@),
        decreases chars@.len() - at,
    {
        match read_digit(state, so_far, chars[at]) {
            Ok(next) => {
                state = next.0;
                so_far = next.1;
                at += 1;
            },
            Err(same) => {
                return (state, same, at);
            },
        }
    }
    (state, so_far, at)
}

/// Makes the token of a number.
fn number_token(reading: Reading, text: String) -> (token: Option<Token>)
    ensures
        match token {
            Some(token) => number(reading, text@) == Some(token@),
            None => number(reading, text@) is None,
        },
{
    match reading {
        Reading::Dot => Some(Token::Dot),
        Reading::Zero => Some(Token::DecInt(text_of_one('0'))),
        Reading::DecInt => Some(Token::DecInt(text)),
        Reading::BinInt => Some(Token::BinInt(text)),
        Reading::OctInt => Some(Token::OctInt(text)),
        Reading::HexInt => Some(Token::HexInt(text)),
        Reading::Decimal => Some(Token::Float(text)),
        Reading::Sci => Some(Token::Float(text)),
        Reading::SciE => None,
        Reading::SciSign => None,
    }
}

fn token_of_one(a: char) -> (token: Option<Token>)
    ensures
        match token {
            Some(token) => single(a) == Some(token@),
            None => single(a) is None,
        },
{
    if a == '+' {
        Some(Token::Plus)
    } else if a == '-' {
        Some(Token::Hyphen)
    } else if a == '*' {
        Some(Token::Asterisk)
    } else if a == '/' {
        Some(Token::Slash)
    } else if a == '%' {
        Some(Token::Percent)
    } else if a == '=' {
        Some(Token::Equal)
    } else if a == '!' {
        Some(Token::Exclamation)
    } else if a == '<' {
        Some(Token::Less)
    } else if a == '>' {
        Some(Token::Greater)
    } else if a == '&' {
        Some(Token::Ampersand)
    } else if a == '|' {
        Some(Token::Bar)
    } else if a == '^' {
        Some(Token::Circumflex)
    } else if a == ':' {
        Some(Token::Colon)
    } else if a == ';' {
        Some(Token::Semicolon)
    } else if a == ',' {
        Some(Token::Comma)
    } else if a == '?' {
        Some(Token::Question)
    } else if a == '#' {
        Some(Token::Hash)
    } else if a == '~' {
        Some(Token::Tilde)
    } else if a == '(' {
        Some(Token::OpeningParenthesis)
    } else if a == ')' {
        Some(Token::ClosingParenthesis)
    } else if a == '[' {
        Some(Token::OpeningBracket)
    } else if a == ']' {
        Some(Token::ClosingBracket)
    } else if a == '{' {
        Some(Token::OpeningBrace)
    } else if a == '}' {
        Some(Token::ClosingBrace)
    } else {
        None
    }
}

fn token_of_two(a: char, b: char) -> (token: Option<Token>)
    ensures
        match token {
            Some(token) => double(a, b) == Some(token@),
            None => double(a, b) is None,
        },
{
    if b == '=' {
        if a == '+' {
            Some(Token::PlusEqual)
        } else if a == '-' {
            Some(Token::HyphenEqual)
        } else if a == '*' {
            Some(Token::AsteriskEqual)
        } else if a == '/' {
            Some(Token::SlashEqual)
        } else if a == '%' {
            Some(Token::PercentEqual)
        } else if a == '=' {
            Some(Token::DoubleEqual)
        } else if a == '!' {
            Some(Token::ExclamationEqual)
        } else if a == '<' {
            Some(Token::LessEqual)
        } else if a == '>' {
            Some(Token::GreaterEqual)
        } else if a == '&' {
            Some(Token::AmpersandEqual)
        } else if a == '|' {
            Some(Token::BarEqual)
        } else if a == '^' {
            Some(Token::CircumflexEqual)
        } else {
            None
        }
    } else if a == b {
        if a == '+' {
            Some(Token::DoublePlus)
        } else if a == '-' {
            Some(Token::DoubleHyphen)
        } else if a == '<' {
            Some(Token::DoubleLess)
        } else if a == '>' {
            Some(Token::DoubleGreater)
        } else if a == '&' {
            Some(Token::DoubleAmpersand)
        } else if a == '|' {
            Some(Token::DoubleBar)
        } else {
            None
        }
    } else {
        None
    }
}

fn token_of_three(a: char, b: char, c: char) -> (token: Option<Token>)
    ensures
        match token {
            Some(token) => triple(a, b, c) == Some(token@),
            None => triple(a, b, c) is None,
        },
{
    if a == '<' && b == '<' {
        if c == '<' {
            Some(Token::TripleLess)
        } else if c == '=' {
            Some(Token::DoubleLessEqual)
        } else {
            None
        }
    } else if a == '>' && b == '>' {
        if c == '>' {
            Some(Token::TripleGreater)
        } else if c == '=' {
            Some(Token::DoubleGreaterEqual)
        } else {
            None
        }
    } else {
        None
    }
}

fn token_of_four(a: char, b: char, c: char, d: char) -> (token: Option<Token>)
    ensures
        match token {
            Some(token) => quadruple(a, b, c, d) == Some(token@),
            None => quadruple(a, b, c, d) is None,
        },
{
    if a == '<' && b == '<' && c == '<' && d == '=' {
        Some(Token::TripleLessEqual)
    } else if a == '>' && b == '>' && c == '>' && d == '=' {
        Some(Token::TripleGreaterEqual)
    } else {
        None
    }
}

/// Reads the operator or the punctuation mark at place `i`.
fn read_operator(chars: &Vec<char>, i: usize) -> (found: Option<(Token, usize)>)
    requires
        i < chars@.len(),
    ensures
        match found {
            Some(found) => operator(chars@, i as int) == Some((found.0@, found.1 as int)) && 1
                <= found.1 && i + found.1 <= chars@.len(),
            None => operator(chars@, i as int) is None,
        },
{
    let n: usize = chars.len();
    if n - i > 3 {
        if let Some(token) = token_of_four(chars[i], chars[i + 1], chars[i + 2], chars[i + 3]) {
            return Some((token, 4));
        }
    }
    if n - i > 2 {
        if let Some(token) = token_of_three(chars[i], chars[i + 1], chars[i + 2]) {
            return Some((token, 3));
        }
    }
    if n - i > 1 {
        if let Some(token) = token_of_two(chars[i], chars[i + 1]) {
            return Some((token, 2));
        }
    }
    match token_of_one(chars[i]) {
        Some(token) => Some((token, 1)),
        None => None,
    }
}

/// The error of a line is one of three: a character that starts no token,
/// a number that breaks off, or a backslash at the end of the line in a
/// string literal. That of comments left open comes at the end of the
/// input only.
pub proof fn line_error_is_of_the_line(
    scanner: Scanner,
    line_num: usize,
    line: Seq<char>,
    i: int,
    found: Seq<(Range, Lexeme)>,
)
    ensures
        match scan(scanner, line_num, line, i, found).result {
            Err(error) => error is UnexpectedCharacter || error is InvalidNumericLiteral
                || error is UnterminatedStringLiteral,
            Ok(_) => true,
        },
    decreases line.len() - i,
{
    if 0 <= i < line.len() {
        match step(scanner, line_num, line, i) {
            Step::Next { next, scanner: then, token } => {
                if i < next <= line.len() {
                    line_error_is_of_the_line(
                        then,
                        line_num,
                        line,
                        next,
                        match token {
                            Some(token) => found.push(token),
                            None => found,
                        },
                    );
                }
            },
            Step::Stop => {},
            Step::Fail(error) => {},
        }
    }
}

/// What is wrong where the input ends.
pub enum Ending {
    /// Block comments are open; where they began, outermost first.
    Comment(Seq<Start>),
    /// A string literal is open; where it began.
    String(Start),
}

/// The scanner behind the end of the input, and what is wrong there if
/// anything is. Open comments come before an open string literal, and are
/// forgotten alone; an open string literal is forgotten where it is the
/// error.
pub open spec fn at_end(scanner: Scanner) -> (Scanner, Option<Ending>) {
    if scanner.comment.len() > 0 {
        (
            Scanner { comment: Seq::empty(), string: scanner.string },
            Some(Ending::Comment(scanner.comment)),
        )
    } else {
        match scanner.string {
            Some(open) => (
                Scanner { comment: Seq::empty(), string: None },
                Some(Ending::String(open.0)),
            ),
            None => (scanner, None),
        }
    }
}

/// Puts a token behind those that are there.
fn emit(tokens: &mut VecDeque<PToken>, range: Range, token: Token)
    ensures
        lexemes(final(tokens)@) == lexemes(old(tokens)@).push((range, token@)),
{
    tokens.push_back((range, token));
    assert(lexemes(tokens@) =~= lexemes(old(tokens)@).push((range, token@)));
}

impl LineLexer {
    /// A lexer at the start of the input: nothing is open.
    pub fn new() -> (lexer: LineLexer)
        ensures
            lexer@ == (Scanner { comment: Seq::empty(), string: None }),
    {
        LineLexer { comment: Vec::new(), string: None }
    }

    /// Takes note that the input has ended. That is an error inside a block
    /// comment, and else inside a string literal; the lexer then forgets
    /// what was open.
    pub fn deal_with_eof(&mut self) -> (result: Result<(), Error>)
        ensures
            final(self)@ == at_end(old(self)@).0,
            match result {
                Ok(_) => at_end(old(self)@).1 is None,
                Err(Error::UnterminatedComment(starts)) => at_end(old(self)@).1 == Some(
                    Ending::Comment(starts@),
                ),
                Err(Error::UnterminatedStringLiteral(start)) => at_end(old(self)@).1 == Some(
                    Ending::String(start),
                ),
                Err(_) => false,
            },
    {
        if self.comment.len() > 0 {
            let mut starts: Vec<Start> = Vec::new();
            core::mem::swap(&mut self.comment, &mut starts);
            Err(Error::UnterminatedComment(starts))
        } else {
            assert(self.comment@ =~= Seq::empty());
            match self.string.take() {
                Some(open) => Err(Error::UnterminatedStringLiteral(open.0)),
                None => Ok(()),
            }
        }
    }

    /// Reads a line: puts its tokens behind those in `tokens`, in order.
    ///
    /// `line_num` is the number of the line, which the positions of the
    /// tokens and of an error carry. On an error the tokens found before it
    /// are in `tokens` all the same.
    pub fn run(&mut self, line_num: usize, line: &str, tokens: &mut VecDeque<PToken>) -> (result:
        Result<(), Error>)
        ensures
            result == scanned(old(self)@, line_num, line@).result,
            final(self)@ == scanned(old(self)@, line_num, line@).scanner,
            lexemes(final(tokens)@) == lexemes(old(tokens)@) + scanned(
                old(self)@,
                line_num,
                line@,
            ).tokens,
    {
        let chars = to_chars(line);
        let cols = columns(&chars);
        let n: usize = chars.len();
        let ghost whole = scanned(self@, line_num, line@);
        let ghost mut found: Seq<(Range, Lexeme)> = Seq::empty();
        let mut i: usize = 0;
        assert(lexemes(tokens@) + found =~= lexemes(tokens@));
        while i < n
            invariant
                n == chars@.len(),
                chars@ == line@,
                cols@.len() == n + 1,
                forall|k: int| 0 <= k <= n ==> #[trigger] cols@[k] == column(chars@, k),
                i <= n,
                whole == scanned(old(self)@, line_num, line@),
                whole == scan(self@, line_num, chars@, i as int, found),
                lexemes(tokens@) == lexemes(old(tokens)@) + found,
            decreases n - i,
        {
            let c = chars[i];
            let ghost before = self@;
            let ghost did = step(before, line_num, chars@, i as int);
            if self.comment.len() > 0 {
                if c == '*' && is_at(&chars, i + 1, '/') {
                    self.comment.pop();
                    i += 2;
                } else if c == '/' && is_at(&chars, i + 1, '*') {
                    self.comment.push(Start::new(line_num, cols[i]));
                    i += 2;
                } else {
                    i += 1;
                }
            } else if c == '"' {
                match self.string.take() {
                    Some(open) => {
                        let end = End::new(
                            line_num,
                            if i + 1 < n {
                                Some(cols[i + 1])
                            } else {
                                None
                            },
                        );
                        let range = Range::new(open.0, end);
                        let ghost text = open.1@;
                        emit(tokens, range, Token::String(open.1));
                        proof {
                            found = found.push((range, Lexeme::String(text)));
                            assert(lexemes(tokens@) =~= lexemes(old(tokens)@) + found);
                        }
                    },
                    None => {
                        self.string = Some((Start::new(line_num, cols[i]), String::new()));
                    },
                }
                i += 1;
            } else if self.string.is_some() {
                let open = self.string.take().unwrap();
                let start = open.0;
                let mut text = open.1;
                if c == '\\' {
                    if i + 1 < n {
                        text.push(unescape(chars[i + 1]));
                        self.string = Some((start, text));
                        i += 2;
                    } else {
                        self.string = Some((start, text));
                        return Err(Error::UnterminatedStringLiteral(start));
                    }
                } else {
                    text.push(c);
                    self.string = Some((start, text));
                    i += 1;
                }
            } else if space(c) {
                i += 1;
            } else if word_start(c) {
                let end = read_word(&chars, i + 1);
                let range = Range::new_single_line(
                    line_num,
                    cols[i],
                    if end < n {
                        Some(cols[end])
                    } else {
                        None
                    },
                );
                let token = word_token(copy_text(&chars, i, end));
                emit(tokens, range, token);
                proof {
                    found = found.push((range, token@));
                    assert(lexemes(tokens@) =~= lexemes(old(tokens)@) + found);
                }
                i = end;
            } else if digit(c) || c == '.' {
                let (reading, text) = if c == '.' {
                    (Reading::Dot, String::new())
                } else if c == '0' {
                    (Reading::Zero, String::new())
                } else {
                    (Reading::DecInt, text_of_one(c))
                };
                let (reading, text, end) = read_number(&chars, i + 1, reading, text);
                let range = Range::new_single_line(
                    line_num,
                    cols[i],
                    if end < n {
                        Some(cols[end])
                    } else {
                        None
                    },
                );
                match number_token(reading, text) {
                    Some(token) => {
                        emit(tokens, range, token);
                        proof {
                            found = found.push((range, token@));
                            assert(lexemes(tokens@) =~= lexemes(old(tokens)@) + found);
                        }
                        i = end;
                    },
                    None => {
                        return Err(Error::InvalidNumericLiteral(range));
                    },
                }
            } else if c == '/' && is_at(&chars, i + 1, '/') {
                return Ok(());
            } else if c == '/' && is_at(&chars, i + 1, '*') {
                self.comment.push(Start::new(line_num, cols[i]));
                i += 2;
            } else {
                match read_operator(&chars, i) {
                    Some(operator) => {
                        let end: usize = i + operator.1;
                        let range = Range::new_single_line(
                            line_num,
                            cols[i],
                            if end < n {
                                Some(cols[end])
                            } else {
                                None
                            },
                        );
                        emit(tokens, range, operator.0);
                        proof {
                            found = found.push((range, operator.0@));
                            assert(lexemes(tokens@) =~= lexemes(old(tokens)@) + found);
                        }
                        i = end;
                    },
                    None => {
                        return Err(Error::UnexpectedCharacter(Start::new(line_num, cols[i])));
                    },
                }
            }
        }
        Ok(())
    }
}

} // verus!

//! Errors as text: what an error says, with the source lines that it is
//! about.

use vstd::prelude::*;
use crate::error::Error;
use crate::lexer::line_lexer::{column, to_chars, utf8_width};
use crate::lexer::texts;
use crate::pos::{End, Range, Start};
use crate::types::Type;

verus! {

/// The character of a digit.
pub open spec fn digit(d: nat) -> char {
    if d == 0 {
        '0'
    } else if d == 1 {
        '1'
    } else if d == 2 {
        '2'
    } else if d == 3 {
        '3'
    } else if d == 4 {
        '4'
    } else if d == 5 {
        '5'
    } else if d == 6 {
        '6'
    } else if d == 7 {
        '7'
    } else if d == 8 {
        '8'
    } else {
        '9'
    }
}

/// A number in decimal digits, without leading zeros.
pub open spec fn decimal(n: nat) -> Seq<char>
    decreases n,
{
    if n < 10 {
        seq![digit(n)]
    } else {
        decimal(n / 10).push(digit(n % 10))
    }
}

fn digit_of(d: u128) -> (c: char)
    requires
        d < 10,
    ensures
        c == digit(d as nat),
{
    if d == 0 {
        '0'
    } else if d == 1 {
        '1'
    } else if d == 2 {
        '2'
    } else if d == 3 {
        '3'
    } else if d == 4 {
        '4'
    } else if d == 5 {
        '5'
    } else if d == 6 {
        '6'
    } else if d == 7 {
        '7'
    } else if d == 8 {
        '8'
    } else {
        '9'
    }
}

/// Writes a number in decimal digits behind a text.
pub fn write_decimal(n: u128, text: &mut String)
    ensures
        final(text)@ == old(text)@ + decimal(n as nat),
    decreases n,
{
    if n < 10 {
        text.push(digit_of(n));
        assert(text@ =~= old(text)@ + decimal(n as nat));
    } else {
        write_decimal(n / 10, text);
        text.push(digit_of(n % 10));
        assert(text@ =~= old(text)@ + decimal(n as nat));
    }
}

/// A start as it is shown: the line and the column, both counted from one.
pub open spec fn start_text(start: Start) -> Seq<char> {
    decimal((start.line + 1) as nat) + ":"@ + decimal((start.column + 1) as nat)
}

/// An end as it is shown: the line counted from one, and the column, or
/// `$` for the end of the line.
pub open spec fn end_text(end: End) -> Seq<char> {
    decimal((end.line + 1) as nat) + ":"@ + match end.column {
        Some(column) => decimal(column as nat),
        None => "$"@,
    }
}

/// A range as it is shown: its start, a hyphen, its end.
pub open spec fn range_text(range: Range) -> Seq<char> {
    start_text(range.start) + "-"@ + end_text(range.end)
}

fn write_start(start: &Start, text: &mut String)
    ensures
        final(text)@ == old(text)@ + start_text(*start),
{
    write_decimal(start.line as u128 + 1, text);
    text.append(":");
    write_decimal(start.column as u128 + 1, text);
    assert(text@ =~= old(text)@ + start_text(*start));
}

fn write_end(end: &End, text: &mut String)
    ensures
        final(text)@ == old(text)@ + end_text(*end),
{
    write_decimal(end.line as u128 + 1, text);
    text.append(":");
    match end.column {
        Some(column) => write_decimal(column as u128, text),
        None => text.append("$"),
    }
    assert(text@ =~= old(text)@ + end_text(*end));
}

fn write_range(range: &Range, text: &mut String)
    ensures
        final(text)@ == old(text)@ + range_text(*range),
{
    write_start(&range.start, text);
    text.append("-");
    write_end(&range.end, text);
    assert(text@ =~= old(text)@ + range_text(*range));
}

impl Start {
    /// The start as it is shown.
    pub fn to_string(&self) -> (text: String)
        ensures
            text@ == start_text(*self),
    {
        let mut text = String::new();
        write_start(self, &mut text);
        assert(Seq::<char>::empty() + start_text(*self) =~= start_text(*self));
        text
    }
}

impl End {
    /// The end as it is shown.
    pub fn to_string(&self) -> (text: String)
        ensures
            text@ == end_text(*self),
    {
        let mut text = String::new();
        write_end(self, &mut text);
        assert(Seq::<char>::empty() + end_text(*self) =~= end_text(*self));
        text
    }
}

impl Range {
    /// The range as it is shown.
    pub fn to_string(&self) -> (text: String)
        ensures
            text@ == range_text(*self),
    {
        let mut text = String::new();
        write_range(self, &mut text);
        assert(Seq::<char>::empty() + range_text(*self) =~= range_text(*self));
        text
    }
}

/// The place in a line of the character at a column, from place `from` on:
/// there is none where the column lies inside a character or behind the
/// end of the line.
pub open spec fn place(line: Seq<char>, at: usize, from: int) -> Option<int>
    decreases line.len() - from,
{
    if from < 0 || from > line.len() {
        None
    } else if column(line, from) == at {
        Some(from)
    } else if from == line.len() {
        None
    } else {
        place(line, at, from + 1)
    }
}

/// Finds the place in a line of the character at a column.
fn find_place(chars: &Vec<char>, at: usize) -> (found: Option<usize>)
    ensures
        match found {
            Some(i) => place(chars@, at, 0) == Some(i as int) && i <= chars@.len(),
            None => place(chars@, at, 0) is None,
        },
{
    let mut i: usize = 0;
    let mut sum: usize = 0;
    loop
        invariant
            i <= chars@.len(),
            sum == column(chars@, i as int),
            place(chars@, at, 0) == place(chars@, at, i as int),
        decreases chars@.len() - i,
    {
        if sum == at {
            return Some(i);
        }
        if i == chars.len() {
            return None;
        }
        let w: usize = utf8_width(chars[i]);
        sum = if sum > usize::MAX - w {
            usize::MAX
        } else {
            sum + w
        };
        i += 1;
    }
}

/// Writes the characters of a line from place `i` up to place `j` behind a
/// text.
fn write_part(chars: &Vec<char>, i: usize, j: usize, text: &mut String)
    requires
        i <= j <= chars@.len(),
    ensures
        final(text)@ == old(text)@ + chars@.subrange(i as int, j as int),
{
    let mut k: usize = i;
    assert(text@ =~= old(text)@ + chars@.subrange(i as int, k as int));
    while k < j
        invariant
            i <= k <= j <= chars@.len(),
            text@ == old(text)@ + chars@.subrange(i as int, k as int),
        decreases j - k,
    {
        text.push(chars[k]);
        assert(text@ =~= old(text)@ + chars@.subrange(i as int, k + 1));
        k += 1;
    }
}

/// A line with a mark before the character at a column; nothing where the
/// lines have no such character.
pub open spec fn marked_start(start: Start, lines: Seq<Seq<char>>) -> Option<Seq<char>> {
    if start.line < lines.len() {
        let line = lines[start.line as int];
        match place(line, start.column, 0) {
            Some(i) => Some(line.take(i) + " !-> "@ + line.skip(i)),
            None => None,
        }
    } else {
        None
    }
}

/// The lines of a range with a mark before its first character and one
/// behind its last; of a range over several lines the first and the last
/// line, with three dots between them. Nothing where the lines have no such
/// characters, or the range ends before it starts.
pub open spec fn marked_range(range: Range, lines: Seq<Seq<char>>) -> Option<Seq<char>> {
    if range.start.line < lines.len() && range.end.line < lines.len() {
        let first = lines[range.start.line as int];
        let last = lines[range.end.line as int];
        match place(first, range.start.column, 0) {
            None => None,
            Some(i) => if range.start.line == range.end.line {
                match range.end.column {
                    None => Some(first.take(i) + " !-> "@ + first.skip(i) + " <-!\n"@),
                    Some(column) => match place(first, column, 0) {
                        Some(j) => if i <= j {
                            Some(
                                first.take(i) + " !-> "@ + first.subrange(i, j) + " <-! "@
                                    + first.skip(j),
                            )
                        } else {
                            None
                        },
                        None => None,
                    },
                }
            } else {
                match range.end.column {
                    None => Some(
                        first.take(i) + " !-> "@ + first.skip(i) + "...\n"@ + last + " <-!\n"@,
                    ),
                    Some(column) => match place(last, column, 0) {
                        Some(j) => Some(
                            first.take(i) + " !-> "@ + first.skip(i) + "...\n"@ + last.take(j)
                                + " <-! "@ + last.skip(j),
                        ),
                        None => None,
                    },
                }
            },
        }
    } else {
        None
    }
}

/// Writes a line with a mark before the character at a column; tells
/// whether there is such a character.
fn write_marked_start(start: &Start, log: &Vec<String>, text: &mut String) -> (done: bool)
    ensures
        match marked_start(*start, texts(log@)) {
            Some(marked) => done && final(text)@ == old(text)@ + marked,
            None => !done,
        },
{
    if start.line >= log.len() {
        return false;
    }
    let chars = to_chars(log[start.line].as_str());
    assert(texts(log@)[start.line as int] == chars@);
    match find_place(&chars, start.column) {
        None => false,
        Some(i) => {
            write_part(&chars, 0, i, text);
            text.append(" !-> ");
            write_part(&chars, i, chars.len(), text);
            assert(text@ =~= old(text)@ + (chars@.take(i as int) + " !-> "@ + chars@.skip(
                i as int,
            )));
            true
        },
    }
}

/// Writes the lines of a range with marks around the range; tells whether
/// the lines have the characters of the range.
fn write_marked_range(range: &Range, log: &Vec<String>, text: &mut String) -> (done: bool)
    ensures
        match marked_range(*range, texts(log@)) {
            Some(marked) => done && final(text)@ == old(text)@ + marked,
            None => !done,
        },
{
    if range.start.line >= log.len() || range.end.line >= log.len() {
        return false;
    }
    let first = to_chars(log[range.start.line].as_str());
    assert(texts(log@)[range.start.line as int] == first@);
    assert(texts(log@)[range.end.line as int] == log@[range.end.line as int]@);
    let i = match find_place(&first, range.start.column) {
        Some(i) => i,
        None => {
            return false;
        },
    };
    if range.start.line == range.end.line {
        match range.end.column {
            None => {
                write_part(&first, 0, i, text);
                text.append(" !-> ");
                write_part(&first, i, first.len(), text);
                text.append(" <-!\n");
                assert(text@ =~= old(text)@ + (first@.take(i as int) + " !-> "@ + first@.skip(
                    i as int,
                ) + " <-!\n"@));
                true
            },
            Some(column) => match find_place(&first, column) {
                None => false,
                Some(j) => {
                    if i > j {
                        return false;
                    }
                    write_part(&first, 0, i, text);
                    text.append(" !-> ");
                    write_part(&first, i, j, text);
                    text.append(" <-! ");
                    write_part(&first, j, first.len(), text);
                    assert(text@ =~= old(text)@ + (first@.take(i as int) + " !-> "@
                        + first@.subrange(i as int, j as int) + " <-! "@ + first@.skip(j as int)));
                    true
                },
            },
        }
    } else {
        let last = to_chars(log[range.end.line].as_str());
        match range.end.column {
            None => {
                write_part(&first, 0, i, text);
                text.append(" !-> ");
                write_part(&first, i, first.len(), text);
                text.append("...\n");
                write_part(&last, 0, last.len(), text);
                text.append(" <-!\n");
                assert(last@.subrange(0, last@.len() as int) =~= last@);
                assert(text@ =~= old(text)@ + (first@.take(i as int) + " !-> "@ + first@.skip(
                    i as int,
                ) + "...\n"@ + last@ + " <-!\n"@));
                true
            },
            Some(column) => match find_place(&last, column) {
                None => false,
                Some(j) => {
                    write_part(&first, 0, i, text);
                    text.append(" !-> ");
                    write_part(&first, i, first.len(), text);
                    text.append("...\n");
                    write_part(&last, 0, j, text);
                    text.append(" <-! ");
                    write_part(&last, j, last.len(), text);
                    assert(text@ =~= old(text)@ + (first@.take(i as int) + " !-> "@ + first@.skip(
                        i as int,
                    ) + "...\n"@ + last@.take(j as int) + " <-! "@ + last@.skip(j as int)));
                    true
                },
            },
        }
    }
}

impl Start {
    /// The line of the start with a mark before its character; nothing
    /// where the lines have no such character.
    pub fn mark(&self, log: &Vec<String>) -> (marked: Option<String>)
        ensures
            match marked {
                Some(text) => marked_start(*self, texts(log@)) == Some(text@),
                None => marked_start(*self, texts(log@)) is None,
            },
    {
        let mut text = String::new();
        if write_marked_start(self, log, &mut text) {
            assert(Seq::<char>::empty() + text@ =~= text@);
            Some(text)
        } else {
            None
        }
    }
}

impl Range {
    /// The lines of the range with marks around it; nothing where the
    /// lines have no such characters.
    pub fn mark(&self, log: &Vec<String>) -> (marked: Option<String>)
        ensures
            match marked {
                Some(text) => marked_range(*self, texts(log@)) == Some(text@),
                None => marked_range(*self, texts(log@)) is None,
            },
    {
        let mut text = String::new();
        if write_marked_range(self, log, &mut text) {
            assert(Seq::<char>::empty() + text@ =~= text@);
            Some(text)
        } else {
            None
        }
    }
}

/// What is said about a range: the words before its place, its place, the
/// words behind it, a line end, and its lines with marks around it.
pub open spec fn about_range(
    before: Seq<char>,
    range: Range,
    after: Seq<char>,
    lines: Seq<Seq<char>>,
) -> Option<Seq<char>> {
    match marked_range(range, lines) {
        Some(marked) => Some(before + range_text(range) + after + "\n"@ + marked),
        None => None,
    }
}

/// What is said about a start: the words before its place, its place, a
/// line end, and its line with a mark before it.
pub open spec fn about_start(before: Seq<char>, start: Start, lines: Seq<Seq<char>>) -> Option<
    Seq<char>,
> {
    match marked_start(start, lines) {
        Some(marked) => Some(before + start_text(start) + "\n"@ + marked),
        None => None,
    }
}

/// One text behind the other, where there are both.
pub open spec fn both(first: Option<Seq<char>>, second: Option<Seq<char>>) -> Option<Seq<char>> {
    match (first, second) {
        (Some(first), Some(second)) => Some(first + second),
        _ => None,
    }
}

/// What is said about the comments left open, from the `from`-th on: where
/// each started.
pub open spec fn about_comments(starts: Seq<Start>, from: int, lines: Seq<Seq<char>>) -> Option<
    Seq<char>,
>
    decreases starts.len() - from,
{
    if 0 <= from < starts.len() {
        both(
            about_start("started at "@, starts[from], lines),
            about_comments(starts, from + 1, lines),
        )
    } else {
        Some(Seq::empty())
    }
}

/// What is said about an error, without the heading.
///
/// Nothing where the lines of the source have no such places as the error
/// names.
pub open spec fn message(error: Error, lines: Seq<Seq<char>>) -> Option<Seq<char>> {
    match error {
        Error::UnexpectedCharacter(start) => about_start(
            "unexpected character at "@,
            start,
            lines,
        ),
        Error::InvalidNumericLiteral(range) => about_range(
            "invalid numeric literal at "@,
            range,
            ""@,
            lines,
        ),
        Error::UnterminatedComment(starts) => both(
            Some("unterminated comment\n"@),
            about_comments(starts@, 0, lines),
        ),
        Error::UnterminatedStringLiteral(start) => about_start(
            "unterminated string literal started at "@,
            start,
            lines,
        ),
        Error::UnexpectedEOFAfterPrefixOperator(range) => Some(
            "unexpected EOF after prefix operator at "@ + range_text(range) + "\n"@,
        ),
        Error::UnexpectedTokenAfterPrefixOperator(operator, token) => both(
            about_range("unexpected token at "@, token, ""@, lines),
            about_range("after prefix operator at "@, operator, ""@, lines),
        ),
        Error::UnexpectedEOFAfterBinaryOperator(range) => Some(
            "unexpected EOF after binary operator at "@ + range_text(range) + "\n"@,
        ),
        Error::UnexpectedTokenAfterBinaryOperator(operator, token) => both(
            about_range("unexpected token at "@, token, ""@, lines),
            about_range("after binary operator at "@, operator, ""@, lines),
        ),
        Error::NoClosingParenthesis(open) => about_range(
            "no closing parenthesis (opened at "@,
            open,
            ")"@,
            lines,
        ),
        Error::UnexpectedTokenInParenthesis(open, token) => both(
            about_range("unexpected token at "@, token, ""@, lines),
            about_range("parenthesis opened at "@, open, ""@, lines),
        ),
        Error::EmptyParenthesis(open, close) => both(
            about_range("empty parenthesis (opened at "@, open, ")"@, lines),
            about_range("(closed at "@, close, ")"@, lines),
        ),
        Error::NoExpressionBeforeComma(comma) => about_range(
            "no expression before comma at "@,
            comma,
            ""@,
            lines,
        ),
        Error::MissingSemicolon(Some(token)) => about_range(
            "no semicolon before the token at "@,
            token,
            ""@,
            lines,
        ),
        Error::MissingSemicolon(None) => Some("no semicolon before the end of the input\n"@),
        Error::UndefinedVariable(name, range) => about_range(
            "undefined variable "@ + name@ + " at "@,
            range,
            ""@,
            lines,
        ),
        Error::UndefinedFunction(name, range) => about_range(
            "undefined function "@ + name@ + " at "@,
            range,
            ""@,
            lines,
        ),
        Error::WrongNumberOfArguments(range, expected, given) => about_range(
            decimal(given as nat) + " arguments for a function of "@ + decimal(expected as nat)
                + " at "@,
            range,
            ""@,
            lines,
        ),
        Error::UnusedNamedArgument(name, range) => about_range(
            "unused named argument "@ + name@ + " at "@,
            range,
            ""@,
            lines,
        ),
        Error::TypeMismatchArgument(range, ty) => about_range(
            "argument of type "@ + ty.spec_name() + " at "@,
            range,
            ""@,
            lines,
        ),
        Error::TypeMismatchUnary(range, ty) => about_range(
            "operand of type "@ + ty.spec_name() + " at "@,
            range,
            ""@,
            lines,
        ),
        Error::TypeMismatchBinary(left, left_ty, right, right_ty) => both(
            about_range("operand of type "@ + left_ty.spec_name() + " at "@, left, ""@, lines),
            about_range("with operand of type "@ + right_ty.spec_name() + " at "@, right, ""@, lines),
        ),
        Error::TypeMismatchCond(range, ty) => about_range(
            "condition of type "@ + ty.spec_name() + " at "@,
            range,
            ""@,
            lines,
        ),
        Error::VoidRHS(range) => about_range("declaration without a value at "@, range, ""@, lines),
        Error::ReturnOutsideFunction(range) => about_range(
            "return outside a function at "@,
            range,
            ""@,
            lines,
        ),
    }
}

/// The report of an error: the heading and what is said about the error.
pub open spec fn report(error: Error, lines: Seq<Seq<char>>) -> Option<Seq<char>> {
    both(Some("error: "@), message(error, lines))
}

/// Writes what is said about a range.
fn write_about_range(
    before: &str,
    range: &Range,
    after: &str,
    log: &Vec<String>,
    text: &mut String,
) -> (done: bool)
    ensures
        match about_range(before@, *range, after@, texts(log@)) {
            Some(said) => done && final(text)@ == old(text)@ + said,
            None => !done,
        },
{
    text.append(before);
    write_range(range, text);
    text.append(after);
    text.append("\n");
    let ghost head = text@;
    let done = write_marked_range(range, log, text);
    proof {
        if done {
            let marked = marked_range(*range, texts(log@))->0;
            assert(text@ =~= old(text)@ + (before@ + range_text(*range) + after@ + "\n"@ + marked));
        }
    }
    done
}

/// Writes what is said about a start.
fn write_about_start(before: &str, start: &Start, log: &Vec<String>, text: &mut String) -> (done:
    bool)
    ensures
        match about_start(before@, *start, texts(log@)) {
            Some(said) => done && final(text)@ == old(text)@ + said,
            None => !done,
        },
{
    text.append(before);
    write_start(start, text);
    text.append("\n");
    let done = write_marked_start(start, log, text);
    proof {
        if done {
            let marked = marked_start(*start, texts(log@))->0;
            assert(text@ =~= old(text)@ + (before@ + start_text(*start) + "\n"@ + marked));
        }
    }
    done
}

/// Writes what is said about two ranges, one after the other.
fn write_about_two(
    first_words: &str,
    first: &Range,
    second_words: &str,
    second: &Range,
    after: &str,
    log: &Vec<String>,
    text: &mut String,
) -> (done: bool)
    ensures
        match both(
            about_range(first_words@, *first, after@, texts(log@)),
            about_range(second_words@, *second, after@, texts(log@)),
        ) {
            Some(said) => done && final(text)@ == old(text)@ + said,
            None => !done,
        },
{
    if !write_about_range(first_words, first, after, log, text) {
        return false;
    }
    let done = write_about_range(second_words, second, after, log, text);
    proof {
        if done {
            let a = about_range(first_words@, *first, after@, texts(log@))->0;
            let b = about_range(second_words@, *second, after@, texts(log@))->0;
            assert(text@ =~= old(text)@ + (a + b));
        }
    }
    done
}

/// Writes where the comments left open started.
fn write_about_comments(starts: &Vec<Start>, log: &Vec<String>, text: &mut String) -> (done: bool)
    ensures
        match about_comments(starts@, 0, texts(log@)) {
            Some(said) => done && final(text)@ == old(text)@ + said,
            None => !done,
        },
{
    let ghost lines = texts(log@);
    let ghost mut written: Seq<char> = Seq::empty();
    let mut i: usize = 0;
    assert(text@ =~= old(text)@ + written);
    while i < starts.len()
        invariant
            i <= starts@.len(),
            lines == texts(log@),
            text@ == old(text)@ + written,
            about_comments(starts@, 0, lines) == both(
                Some(written),
                about_comments(starts@, i as int, lines),
            ),
        decreases starts@.len() - i,
    {
        let ghost before = text@;
        if !write_about_start("started at ", &starts[i], log, text) {
            return false;
        }
        proof {
            let one = about_start("started at "@, starts@[i as int], lines)->0;
            let rest = about_comments(starts@, i + 1, lines);
            if let Some(rest) = rest {
                assert(written + (one + rest) =~= (written + one) + rest);
            }
            written = written + one;
            assert(text@ =~= old(text)@ + written);
        }
        i += 1;
    }
    assert(written + Seq::<char>::empty() =~= written);
    true
}

/// A text of some words, a text between them, and some more words.
fn words_around(before: &str, middle: &str, after: &str) -> (text: String)
    ensures
        text@ == before@ + middle@ + after@,
{
    let mut text = String::from_str(before);
    text.append(middle);
    text.append(after);
    text
}

impl Error {
    /// What is said about the error, without the heading; nothing where
    /// the lines of the source have no such places as the error names.
    pub fn message(&self, log: &Vec<String>) -> (said: Option<String>)
        ensures
            match said {
                Some(text) => message(*self, texts(log@)) == Some(text@),
                None => message(*self, texts(log@)) is None,
            },
    {
        let mut text = String::new();
        let ghost lines = texts(log@);
        let done = match self {
            Error::UnexpectedCharacter(start) => write_about_start(
                "unexpected character at ",
                start,
                log,
                &mut text,
            ),
            Error::InvalidNumericLiteral(range) => write_about_range(
                "invalid numeric literal at ",
                range,
                "",
                log,
                &mut text,
            ),
            Error::UnterminatedComment(starts) => {
                text.append("unterminated comment\n");
                write_about_comments(starts, log, &mut text)
            },
            Error::UnterminatedStringLiteral(start) => write_about_start(
                "unterminated string literal started at ",
                start,
                log,
                &mut text,
            ),
            Error::UnexpectedEOFAfterPrefixOperator(range) => {
                text.append("unexpected EOF after prefix operator at ");
                write_range(range, &mut text);
                text.append("\n");
                true
            },
            Error::UnexpectedTokenAfterPrefixOperator(operator, token) => write_about_two(
                "unexpected token at ",
                token,
                "after prefix operator at ",
                operator,
                "",
                log,
                &mut text,
            ),
            Error::UnexpectedEOFAfterBinaryOperator(range) => {
                text.append("unexpected EOF after binary operator at ");
                write_range(range, &mut text);
                text.append("\n");
                true
            },
            Error::UnexpectedTokenAfterBinaryOperator(operator, token) => write_about_two(
                "unexpected token at ",
                token,
                "after binary operator at ",
                operator,
                "",
                log,
                &mut text,
            ),
            Error::NoClosingParenthesis(open) => write_about_range(
                "no closing parenthesis (opened at ",
                open,
                ")",
                log,
                &mut text,
            ),
            Error::UnexpectedTokenInParenthesis(open, token) => write_about_two(
                "unexpected token at ",
                token,
                "parenthesis opened at ",
                open,
                "",
                log,
                &mut text,
            ),
            Error::EmptyParenthesis(open, close) => write_about_two(
                "empty parenthesis (opened at ",
                open,
                "(closed at ",
                close,
                ")",
                log,
                &mut text,
            ),
            Error::NoExpressionBeforeComma(comma) => write_about_range(
                "no expression before comma at ",
                comma,
                "",
                log,
                &mut text,
            ),
            Error::MissingSemicolon(Some(token)) => write_about_range(
                "no semicolon before the token at ",
                token,
                "",
                log,
                &mut text,
            ),
            Error::MissingSemicolon(None) => {
                text.append("no semicolon before the end of the input\n");
                true
            },
            Error::UndefinedVariable(name, range) => {
                let words = words_around("undefined variable ", name.as_str(), " at ");
                write_about_range(words.as_str(), range, "", log, &mut text)
            },
            Error::UndefinedFunction(name, range) => {
                let words = words_around("undefined function ", name.as_str(), " at ");
                write_about_range(words.as_str(), range, "", log, &mut text)
            },
            Error::WrongNumberOfArguments(range, expected, given) => {
                let mut words = String::new();
                write_decimal(*given as u128, &mut words);
                words.append(" arguments for a function of ");
                write_decimal(*expected as u128, &mut words);
                words.append(" at ");
                assert(words@ =~= decimal(*given as nat) + " arguments for a function of "@
                    + decimal(*expected as nat) + " at "@);
                write_about_range(words.as_str(), range, "", log, &mut text)
            },
            Error::UnusedNamedArgument(name, range) => {
                let words = words_around("unused named argument ", name.as_str(), " at ");
                write_about_range(words.as_str(), range, "", log, &mut text)
            },
            Error::TypeMismatchArgument(range, ty) => {
                let words = words_around("argument of type ", ty.name(), " at ");
                write_about_range(words.as_str(), range, "", log, &mut text)
            },
            Error::TypeMismatchUnary(range, ty) => {
                let words = words_around("operand of type ", ty.name(), " at ");
                write_about_range(words.as_str(), range, "", log, &mut text)
            },
            Error::TypeMismatchBinary(left, left_ty, right, right_ty) => {
                let first = words_around("operand of type ", left_ty.name(), " at ");
                let second = words_around("with operand of type ", right_ty.name(), " at ");
                write_about_two(first.as_str(), left, second.as_str(), right, "", log, &mut text)
            },
            Error::TypeMismatchCond(range, ty) => {
                let words = words_around("condition of type ", ty.name(), " at ");
                write_about_range(words.as_str(), range, "", log, &mut text)
            },
            Error::VoidRHS(range) => write_about_range(
                "declaration without a value at ",
                range,
                "",
                log,
                &mut text,
            ),
            Error::ReturnOutsideFunction(range) => write_about_range(
                "return outside a function at ",
                range,
                "",
                log,
                &mut text,
            ),
        };
        if done {
            proof {
                let said = message(*self, lines)->0;
                assert(Seq::<char>::empty() + said =~= said);
                assert(text@ =~= said);
            }
            Some(text)
        } else {
            None
        }
    }

    /// The report of the error: the heading and what is said about the
    /// error. Nothing where the lines of the source have no such places as
    /// the error names.
    pub fn report(&self, log: &Vec<String>) -> (said: Option<String>)
        ensures
            match said {
                Some(text) => report(*self, texts(log@)) == Some(text@),
                None => report(*self, texts(log@)) is None,
            },
    {
        match self.message(log) {
            None => None,
            Some(said) => {
                let mut text = String::from_str("error: ");
                text.append(said.as_str());
                Some(text)
            },
        }
    }
}

} // verus!

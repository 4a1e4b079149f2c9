//! The lexer: from lines of source text to tokens.
//!
//! A lexer is fed the lines of its input and hands out their tokens one by
//! one. Where a line cannot be read, the error comes in place of the tokens
//! of that line, before those that were found on it.

pub mod line_lexer;

use std::collections::VecDeque;
use vstd::prelude::*;
use crate::error::Error;
use crate::lexer::line_lexer::{
    at_end, lexemes, line_error_is_of_the_line, scanned, Ending, LineLexer, Scan, Scanner,
};
use crate::pos::{Range, Start};
use crate::token::{Lexeme, PToken, Token};

verus! {

/// What a lexer hands out next: a token, or an error.
#[derive(Debug, PartialEq, Eq)]
pub enum Item {
    Token(PToken),
    Failure(Error),
}

/// The mathematical value of an [`Item`].
pub enum Delivery {
    Token(Range, Lexeme),
    /// An error other than block comments left open.
    Failure(Error),
    /// The input ended inside block comments; where they began.
    OpenComments(Seq<Start>),
}

impl View for Item {
    type V = Delivery;

    open spec fn view(&self) -> Delivery {
        match *self {
            Item::Token(token) => Delivery::Token(token.0, token.1@),
            Item::Failure(Error::UnterminatedComment(starts)) => Delivery::OpenComments(starts@),
            Item::Failure(error) => Delivery::Failure(error),
        }
    }
}

/// The values of the items of a sequence.
pub open spec fn events(items: Seq<Item>) -> Seq<Delivery> {
    Seq::new(items.len(), |i: int| items[i]@)
}

/// The tokens of a line as what a lexer hands out.
pub open spec fn as_events(tokens: Seq<(Range, Lexeme)>) -> Seq<Delivery> {
    Seq::new(tokens.len(), |i: int| Delivery::Token(tokens[i].0, tokens[i].1))
}

/// What a line gives: its error if it has one, and then its tokens.
pub open spec fn line_events(line: Scan) -> Seq<Delivery> {
    let failure = match line.result {
        Err(error) => seq![Delivery::Failure(error)],
        Ok(_) => Seq::empty(),
    };
    failure + as_events(line.tokens)
}

/// What the end of the input gives: the error of an input that ends
/// inside a comment or a string literal.
pub open spec fn end_events(scanner: Scanner) -> Seq<Delivery> {
    match at_end(scanner).1 {
        Some(Ending::Comment(starts)) => seq![Delivery::OpenComments(starts)],
        Some(Ending::String(start)) => seq![
            Delivery::Failure(Error::UnterminatedStringLiteral(start)),
        ],
        None => Seq::empty(),
    }
}

/// What the input gives from the line `from` on, read with a scanner: for
/// each line the error if it has one and then its tokens, and behind the
/// last line the error of an input that ends inside a comment or a string
/// literal.
pub open spec fn lexed(scanner: Scanner, lines: Seq<Seq<char>>, from: int) -> Seq<Delivery>
    decreases lines.len() - from,
{
    if 0 <= from < lines.len() {
        let line = scanned(scanner, from as usize, lines[from]);
        line_events(line) + lexed(line.scanner, lines, from + 1)
    } else {
        end_events(scanner)
    }
}

/// The texts of lines.
pub open spec fn texts(lines: Seq<String>) -> Seq<Seq<char>> {
    Seq::new(lines.len(), |i: int| lines[i]@)
}

/// Where a lexer stands in its input: the lines that it was fed, what it
/// carries over from them, and whether the input has ended.
pub struct Source {
    pub lines: Seq<String>,
    pub scanner: Scanner,
    pub closed: bool,
}

/// Whether reading a sentence stops at an item at the latest: at an error,
/// and at a semicolon.
pub open spec fn ends_sentence(item: Item) -> bool {
    match item {
        Item::Failure(_) => true,
        Item::Token(token) => token.1 is Semicolon,
    }
}

/// Whether a stream holds an item at which reading a sentence stops.
pub open spec fn holds_end(stream: Seq<Item>) -> bool {
    exists|i: int| 0 <= i < stream.len() && ends_sentence(#[trigger] stream[i])
}

/// Whether an error says that the input ended too early. A lexer hands out
/// no such error: they come from reading sentences.
pub open spec fn at_end_of_input(error: Error) -> bool {
    match error {
        Error::UnexpectedEOFAfterPrefixOperator(_) => true,
        Error::UnexpectedEOFAfterBinaryOperator(_) => true,
        Error::NoClosingParenthesis(_) => true,
        Error::MissingSemicolon(None) => true,
        _ => false,
    }
}

/// Whether no error of a stream says that the input ended too early.
pub open spec fn plain(stream: Seq<Item>) -> bool {
    forall|i: int|
        0 <= i < stream.len() ==> match #[trigger] stream[i] {
            Item::Failure(error) => !at_end_of_input(error),
            Item::Token(_) => true,
        }
}

/// Where a lexer stands after it is fed a line; once the input has ended
/// a line changes nothing.
pub open spec fn fed(source: Source, line: String) -> Source {
    if source.closed {
        source
    } else {
        Source {
            lines: source.lines.push(line),
            scanner: scanned(source.scanner, source.lines.len() as usize, line@).scanner,
            closed: false,
        }
    }
}

/// What a line that a lexer is fed gives; nothing once the input has
/// ended. The number of the line is the number of lines fed before it.
pub open spec fn fed_events(source: Source, line: Seq<char>) -> Seq<Delivery> {
    if source.closed {
        Seq::empty()
    } else {
        line_events(scanned(source.scanner, source.lines.len() as usize, line))
    }
}

/// Where a lexer stands after its input has ended.
pub open spec fn shut(source: Source) -> Source {
    if source.closed {
        source
    } else {
        Source { lines: source.lines, scanner: at_end(source.scanner).0, closed: true }
    }
}

/// What the end of the input gives; nothing if it has ended before.
pub open spec fn shut_events(source: Source) -> Seq<Delivery> {
    if source.closed {
        Seq::empty()
    } else {
        end_events(source.scanner)
    }
}

/// A lexer: it is fed the lines of an input one by one and hands out their
/// tokens.
#[derive(Debug, PartialEq, Eq)]
pub struct Lexer {
    items: VecDeque<Item>,
    log: Vec<String>,
    line_lexer: LineLexer,
    closed: bool,
}

impl Lexer {
    /// What the lexer has yet to hand out, in order.
    pub closed spec fn stream(&self) -> Seq<Item> {
        self.items@
    }

    /// Where the lexer stands in its input.
    pub closed spec fn source(&self) -> Source {
        Source { lines: self.log@, scanner: self.line_lexer@, closed: self.closed }
    }

    /// The lines that the lexer was fed.
    pub open spec fn lines(&self) -> Seq<String> {
        self.source().lines
    }

    /// A lexer at the start of an input: it has been fed nothing.
    pub fn open() -> (lexer: Lexer)
        ensures
            lexer.stream() == Seq::<Item>::empty(),
            plain(lexer.stream()),
            lexer.source() == (Source {
                lines: Seq::empty(),
                scanner: Scanner { comment: Seq::empty(), string: None },
                closed: false,
            }),
    {
        Lexer { items: VecDeque::new(), log: Vec::new(), line_lexer: LineLexer::new(), closed: false }
    }

    /// Whether the input has ended.
    pub fn is_closed(&self) -> (closed: bool)
        ensures
            closed == self.source().closed,
    {
        self.closed
    }

    /// Tells whether a sentence can be read without more input: the input
    /// has ended, or what the lexer has yet to hand out holds a semicolon
    /// or an error, at which reading a sentence stops at the latest.
    pub fn ready(&self) -> (yes: bool)
        ensures
            yes == (self.source().closed || holds_end(self.stream())),
    {
        if self.closed {
            return true;
        }
        let mut i: usize = 0;
        while i < self.items.len()
            invariant
                i <= self.items@.len(),
                forall|k: int| 0 <= k < i ==> !ends_sentence(#[trigger] self.items@[k]),
            decreases self.items@.len() - i,
        {
            let found = match &self.items[i] {
                Item::Failure(_) => true,
                Item::Token(token) => matches!(token.1, Token::Semicolon),
            };
            if found {
                return true;
            }
            i += 1;
        }
        false
    }

    /// Feeds the lexer the next line of the input: what the line gives
    /// comes behind what the lexer has yet to hand out. The lines are
    /// numbered from zero. Once the input has ended nothing is taken.
    pub fn feed(&mut self, line: String)
        ensures
            final(self).source() == fed(old(self).source(), line),
            events(final(self).stream()) == events(old(self).stream()) + fed_events(
                old(self).source(),
                line@,
            ),
            old(self).source().closed ==> final(self).stream() == old(self).stream(),
            plain(old(self).stream()) ==> plain(final(self).stream()),
    {
        if self.closed {
            assert(events(self.items@) + Seq::<Delivery>::empty() =~= events(self.items@));
            return ;
        }
        let k: usize = self.log.len();
        let ghost before = events(self.items@);
        let ghost scan = scanned(self.line_lexer@, k, line@);
        let mut tokens: VecDeque<PToken> = VecDeque::new();
        assert(lexemes(tokens@) =~= Seq::empty());
        proof {
            line_error_is_of_the_line(self.line_lexer@, k, line@, 0, Seq::empty());
        }
        let result = self.line_lexer.run(k, line.as_str(), &mut tokens);
        assert(lexemes(tokens@) =~= scan.tokens);
        if let Err(error) = result {
            self.items.push_back(Item::Failure(error));
            assert(events(self.items@) =~= before + seq![Delivery::Failure(error)]);
        } else {
            assert(events(self.items@) =~= before + Seq::<Delivery>::empty());
        }
        let ghost failed = events(self.items@);
        let ghost mut moved: Seq<(Range, Lexeme)> = Seq::empty();
        assert(failed + as_events(moved) =~= failed);
        assert(moved + lexemes(tokens@) =~= scan.tokens);
        while tokens.len() > 0
            invariant
                events(self.items@) == failed + as_events(moved),
                moved + lexemes(tokens@) == scan.tokens,
                self.log@ == old(self).log@,
                self.line_lexer@ == scan.scanner,
                !self.closed,
                plain(old(self).items@) ==> plain(self.items@),
            decreases tokens@.len(),
        {
            let ghost waiting = lexemes(tokens@);
            let token = tokens.pop_front().unwrap();
            assert(lexemes(tokens@) =~= waiting.drop_first());
            assert(waiting[0] == (token.0, token.1@));
            let ghost held = events(self.items@);
            self.items.push_back(Item::Token(token));
            proof {
                assert(events(self.items@) =~= held.push(Delivery::Token(token.0, token.1@)));
                assert(as_events(moved.push((token.0, token.1@))) =~= as_events(moved).push(
                    Delivery::Token(token.0, token.1@),
                ));
                assert(moved.push(waiting[0]) + waiting.drop_first() =~= moved + waiting);
                moved = moved.push((token.0, token.1@));
                assert(events(self.items@) =~= failed + as_events(moved));
            }
        }
        proof {
            assert(lexemes(tokens@) =~= Seq::empty());
            assert(moved =~= scan.tokens);
            assert(events(self.items@) =~= before + line_events(scan));
        }
        self.log.push(line);
    }

    /// Tells the lexer that the input has ended: the error of an input that
    /// ends inside a comment or a string literal comes behind what the
    /// lexer has yet to hand out. Nothing happens if the input has ended
    /// before.
    pub fn close(&mut self)
        ensures
            final(self).source() == shut(old(self).source()),
            events(final(self).stream()) == events(old(self).stream()) + shut_events(
                old(self).source(),
            ),
            old(self).source().closed ==> final(self).stream() == old(self).stream(),
            plain(old(self).stream()) ==> plain(final(self).stream()),
    {
        if self.closed {
            assert(events(self.items@) + Seq::<Delivery>::empty() =~= events(self.items@));
            return ;
        }
        let ghost before = events(self.items@);
        match self.line_lexer.deal_with_eof() {
            Ok(_) => {
                assert(events(self.items@) =~= before + Seq::<Delivery>::empty());
            },
            Err(error) => {
                self.items.push_back(Item::Failure(error));
                assert(events(self.items@) =~= before + seq![
                    self.items@[self.items@.len() - 1]@,
                ]);
            },
        }
        self.closed = true;
    }

    /// A lexer over all the lines of an input, which has ended behind them.
    pub fn new(lines: Vec<String>) -> (lexer: Lexer)
        ensures
            lexer.source().lines == lines@,
            lexer.source().closed,
            plain(lexer.stream()),
            events(lexer.stream()) == lexed(
                Scanner { comment: Seq::empty(), string: None },
                texts(lines@),
                0,
            ),
    {
        let mut lexer = Lexer::open();
        let ghost whole = lexed(lexer.source().scanner, texts(lines@), 0);
        let mut k: usize = 0;
        assert(events(lexer.stream()) =~= Seq::<Delivery>::empty());
        assert(Seq::<Delivery>::empty() + whole =~= whole);
        assert(lines@.take(0) =~= Seq::<String>::empty());
        while k < lines.len()
            invariant
                k <= lines@.len(),
                lexer.source().lines == lines@.take(k as int),
                !lexer.source().closed,
                plain(lexer.stream()),
                events(lexer.stream()) + lexed(lexer.source().scanner, texts(lines@), k as int)
                    == whole,
            decreases lines@.len() - k,
        {
            let ghost before = events(lexer.stream());
            let ghost scan = scanned(lexer.source().scanner, k, lines@[k as int]@);
            let ghost rest = lexed(scan.scanner, texts(lines@), k + 1);
            assert(texts(lines@)[k as int] == lines@[k as int]@);
            lexer.feed(lines[k].clone());
            proof {
                assert(lines@.take(k as int).push(lines@[k as int]) =~= lines@.take(k + 1));
                assert(before + (line_events(scan) + rest) =~= before + line_events(scan) + rest);
            }
            k += 1;
        }
        let ghost before = events(lexer.stream());
        lexer.close();
        assert(lines@.take(lines@.len() as int) =~= lines@);
        lexer
    }

    /// The lines of the input.
    pub fn log(&self) -> (lines: &Vec<String>)
        ensures
            lines@ == self.source().lines,
    {
        &self.log
    }

    /// Hands out the next token; nothing at the end of the input.
    pub fn next(&mut self) -> (result: Result<Option<PToken>, Error>)
        ensures
            final(self).source() == old(self).source(),
            final(self).stream() == rest(old(self).stream()),
            result == taken(old(self).stream()),
    {
        match self.items.pop_front() {
            None => {
                Ok(None)
            },
            Some(Item::Token(token)) => {
                assert(self.stream() =~= old(self).stream().skip(1));
                Ok(Some(token))
            },
            Some(Item::Failure(error)) => {
                assert(self.stream() =~= old(self).stream().skip(1));
                Err(error)
            },
        }
    }

    /// Hands out the next token if `cond` holds of it; nothing if it does
    /// not, and nothing at the end of the input.
    pub fn next_if<F: FnOnce(&Token) -> bool>(&mut self, cond: F) -> (result: Result<
        Option<PToken>,
        Error,
    >)
        requires
            forall|token: &Token| cond.requires((token,)),
        ensures
            final(self).source() == old(self).source(),
            match first(old(self).stream()) {
                None => result == Ok::<Option<PToken>, Error>(None) && final(self).stream() == old(
                    self,
                ).stream(),
                Some(Item::Failure(error)) => result == Err::<Option<PToken>, Error>(error)
                    && final(self).stream() == rest(old(self).stream()),
                Some(Item::Token(token)) => (cond.ensures((&token.1,), true) && result == Ok::<
                    Option<PToken>,
                    Error,
                >(Some(token)) && final(self).stream() == rest(old(self).stream())) || (
                cond.ensures((&token.1,), false) && result == Ok::<Option<PToken>, Error>(None)
                    && final(self).stream() == old(self).stream()),
            },
    {
        if self.items.len() == 0 {
            return Ok(None);
        }
        let take = match &self.items[0] {
            Item::Token(token) => cond(&token.1),
            Item::Failure(_) => true,
        };
        if take {
            self.next()
        } else {
            Ok(None)
        }
    }

    /// Hands out the next token as something else, if `f` makes something
    /// of it; nothing if it does not, and nothing at the end of the input.
    pub fn next_if_map<B, F: FnOnce(&Token) -> Option<B>>(&mut self, f: F) -> (result: Result<
        Option<(Range, B)>,
        Error,
    >)
        requires
            forall|token: &Token| f.requires((token,)),
        ensures
            final(self).source() == old(self).source(),
            match first(old(self).stream()) {
                None => result == Ok::<Option<(Range, B)>, Error>(None) && final(self).stream()
                    == old(self).stream(),
                Some(Item::Failure(error)) => result == Err::<Option<(Range, B)>, Error>(error)
                    && final(self).stream() == rest(old(self).stream()),
                Some(Item::Token(token)) => match result {
                    Ok(Some(made)) => f.ensures((&token.1,), Some(made.1)) && made.0 == token.0
                        && final(self).stream() == rest(old(self).stream()),
                    Ok(None) => f.ensures((&token.1,), None) && final(self).stream() == old(
                        self,
                    ).stream(),
                    Err(_) => false,
                },
            },
    {
        if self.items.len() == 0 {
            return Ok(None);
        }
        let made = match &self.items[0] {
            Item::Token(token) => match f(&token.1) {
                Some(made) => Some((token.0, made)),
                None => {
                    return Ok(None);
                },
            },
            Item::Failure(_) => None,
        };
        match self.next() {
            Err(error) => Err(error),
            Ok(_) => Ok(made),
        }
    }

    /// The number of tokens and errors that the lexer has yet to hand out.
    pub fn remaining(&self) -> (n: usize)
        ensures
            n == self.stream().len(),
    {
        self.items.len()
    }
}

/// A stream without its first item; an empty stream stays empty.
pub open spec fn rest(stream: Seq<Item>) -> Seq<Item> {
    if stream.len() > 0 {
        stream.skip(1)
    } else {
        stream
    }
}

/// The first item of a stream.
pub open spec fn first(stream: Seq<Item>) -> Option<Item> {
    if stream.len() > 0 {
        Some(stream[0])
    } else {
        None
    }
}

/// What a lexer hands out of a stream: the token that comes first, the
/// error that comes first, or nothing at the end.
pub open spec fn taken(stream: Seq<Item>) -> Result<Option<PToken>, Error> {
    match first(stream) {
        None => Ok(None),
        Some(Item::Token(token)) => Ok(Some(token)),
        Some(Item::Failure(error)) => Err(error),
    }
}

} // verus!

//! The tokens of the language.

use vstd::prelude::*;
use crate::pos::Range;

verus! {

/// One token. Literals carry their text: for an integer the digits without
/// prefix or separators, for a string the contents with escapes resolved.
#[derive(Debug, PartialEq, Eq)]
pub enum Token {
    Identifier(String),
    BinInt(String),
    OctInt(String),
    DecInt(String),
    HexInt(String),
    Float(String),
    String(String),
    KeywordFor,
    KeywordIf,
    KeywordElse,
    Plus,
    DoublePlus,
    PlusEqual,
    Hyphen,
    DoubleHyphen,
    HyphenEqual,
    Asterisk,
    AsteriskEqual,
    Slash,
    SlashEqual,
    Percent,
    PercentEqual,
    Equal,
    DoubleEqual,
    Exclamation,
    ExclamationEqual,
    Less,
    LessEqual,
    DoubleLess,
    DoubleLessEqual,
    TripleLess,
    TripleLessEqual,
    Greater,
    GreaterEqual,
    DoubleGreater,
    DoubleGreaterEqual,
    TripleGreater,
    TripleGreaterEqual,
    Ampersand,
    AmpersandEqual,
    DoubleAmpersand,
    Bar,
    BarEqual,
    DoubleBar,
    Circumflex,
    CircumflexEqual,
    Dot,
    Colon,
    Semicolon,
    Comma,
    Question,
    Hash,
    Tilde,
    OpeningParenthesis,
    ClosingParenthesis,
    OpeningBracket,
    ClosingBracket,
    OpeningBrace,
    ClosingBrace,
}

/// A token as the lexer hands it out, and the mathematical value of such a
/// token: the texts of literals are sequences of characters.
pub type PToken = (Range, Token);

impl View for Token {
    type V = Lexeme;

    open spec fn view(&self) -> Lexeme {
        match *self {
            Token::Identifier(s) => Lexeme::Identifier(s@),
            Token::BinInt(s) => Lexeme::BinInt(s@),
            Token::OctInt(s) => Lexeme::OctInt(s@),
            Token::DecInt(s) => Lexeme::DecInt(s@),
            Token::HexInt(s) => Lexeme::HexInt(s@),
            Token::Float(s) => Lexeme::Float(s@),
            Token::String(s) => Lexeme::String(s@),
            Token::KeywordFor => Lexeme::KeywordFor,
            Token::KeywordIf => Lexeme::KeywordIf,
            Token::KeywordElse => Lexeme::KeywordElse,
            Token::Plus => Lexeme::Plus,
            Token::DoublePlus => Lexeme::DoublePlus,
            Token::PlusEqual => Lexeme::PlusEqual,
            Token::Hyphen => Lexeme::Hyphen,
            Token::DoubleHyphen => Lexeme::DoubleHyphen,
            Token::HyphenEqual => Lexeme::HyphenEqual,
            Token::Asterisk => Lexeme::Asterisk,
            Token::AsteriskEqual => Lexeme::AsteriskEqual,
            Token::Slash => Lexeme::Slash,
            Token::SlashEqual => Lexeme::SlashEqual,
            Token::Percent => Lexeme::Percent,
            Token::PercentEqual => Lexeme::PercentEqual,
            Token::Equal => Lexeme::Equal,
            Token::DoubleEqual => Lexeme::DoubleEqual,
            Token::Exclamation => Lexeme::Exclamation,
            Token::ExclamationEqual => Lexeme::ExclamationEqual,
            Token::Less => Lexeme::Less,
            Token::LessEqual => Lexeme::LessEqual,
            Token::DoubleLess => Lexeme::DoubleLess,
            Token::DoubleLessEqual => Lexeme::DoubleLessEqual,
            Token::TripleLess => Lexeme::TripleLess,
            Token::TripleLessEqual => Lexeme::TripleLessEqual,
            Token::Greater => Lexeme::Greater,
            Token::GreaterEqual => Lexeme::GreaterEqual,
            Token::DoubleGreater => Lexeme::DoubleGreater,
            Token::DoubleGreaterEqual => Lexeme::DoubleGreaterEqual,
            Token::TripleGreater => Lexeme::TripleGreater,
            Token::TripleGreaterEqual => Lexeme::TripleGreaterEqual,
            Token::Ampersand => Lexeme::Ampersand,
            Token::AmpersandEqual => Lexeme::AmpersandEqual,
            Token::DoubleAmpersand => Lexeme::DoubleAmpersand,
            Token::Bar => Lexeme::Bar,
            Token::BarEqual => Lexeme::BarEqual,
            Token::DoubleBar => Lexeme::DoubleBar,
            Token::Circumflex => Lexeme::Circumflex,
            Token::CircumflexEqual => Lexeme::CircumflexEqual,
            Token::Dot => Lexeme::Dot,
            Token::Colon => Lexeme::Colon,
            Token::Semicolon => Lexeme::Semicolon,
            Token::Comma => Lexeme::Comma,
            Token::Question => Lexeme::Question,
            Token::Hash => Lexeme::Hash,
            Token::Tilde => Lexeme::Tilde,
            Token::OpeningParenthesis => Lexeme::OpeningParenthesis,
            Token::ClosingParenthesis => Lexeme::ClosingParenthesis,
            Token::OpeningBracket => Lexeme::OpeningBracket,
            Token::ClosingBracket => Lexeme::ClosingBracket,
            Token::OpeningBrace => Lexeme::OpeningBrace,
            Token::ClosingBrace => Lexeme::ClosingBrace,
        }
    }
}

/// The mathematical value of a [`Token`].
pub ghost enum Lexeme {
    Identifier(Seq<char>),
    BinInt(Seq<char>),
    OctInt(Seq<char>),
    DecInt(Seq<char>),
    HexInt(Seq<char>),
    Float(Seq<char>),
    String(Seq<char>),
    KeywordFor,
    KeywordIf,
    KeywordElse,
    Plus,
    DoublePlus,
    PlusEqual,
    Hyphen,
    DoubleHyphen,
    HyphenEqual,
    Asterisk,
    AsteriskEqual,
    Slash,
    SlashEqual,
    Percent,
    PercentEqual,
    Equal,
    DoubleEqual,
    Exclamation,
    ExclamationEqual,
    Less,
    LessEqual,
    DoubleLess,
    DoubleLessEqual,
    TripleLess,
    TripleLessEqual,
    Greater,
    GreaterEqual,
    DoubleGreater,
    DoubleGreaterEqual,
    TripleGreater,
    TripleGreaterEqual,
    Ampersand,
    AmpersandEqual,
    DoubleAmpersand,
    Bar,
    BarEqual,
    DoubleBar,
    Circumflex,
    CircumflexEqual,
    Dot,
    Colon,
    Semicolon,
    Comma,
    Question,
    Hash,
    Tilde,
    OpeningParenthesis,
    ClosingParenthesis,
    OpeningBracket,
    ClosingBracket,
    OpeningBrace,
    ClosingBrace,
}

impl Token {
    pub fn is_identifier(&self) -> (yes: bool)
        ensures
            yes == (*self is Identifier),
            yes == (self@ is Identifier),
    {
        matches!(self, Token::Identifier(..))
    }

    pub fn is_bin_int(&self) -> (yes: bool)
        ensures
            yes == (*self is BinInt),
            yes == (self@ is BinInt),
    {
        matches!(self, Token::BinInt(..))
    }

    pub fn is_oct_int(&self) -> (yes: bool)
        ensures
            yes == (*self is OctInt),
            yes == (self@ is OctInt),
    {
        matches!(self, Token::OctInt(..))
    }

    pub fn is_dec_int(&self) -> (yes: bool)
        ensures
            yes == (*self is DecInt),
            yes == (self@ is DecInt),
    {
        matches!(self, Token::DecInt(..))
    }

    pub fn is_hex_int(&self) -> (yes: bool)
        ensures
            yes == (*self is HexInt),
            yes == (self@ is HexInt),
    {
        matches!(self, Token::HexInt(..))
    }

    pub fn is_float(&self) -> (yes: bool)
        ensures
            yes == (*self is Float),
            yes == (self@ is Float),
    {
        matches!(self, Token::Float(..))
    }

    pub fn is_string(&self) -> (yes: bool)
        ensures
            yes == (*self is String),
            yes == (self@ is String),
    {
        matches!(self, Token::String(..))
    }

    pub fn is_opening_parenthesis(&self) -> (yes: bool)
        ensures
            yes == (*self is OpeningParenthesis),
            yes == (self@ is OpeningParenthesis),
    {
        matches!(self, Token::OpeningParenthesis)
    }

    pub fn is_comma(&self) -> (yes: bool)
        ensures
            yes == (*self is Comma),
            yes == (self@ is Comma),
    {
        matches!(self, Token::Comma)
    }
}

} // verus!

//! The scanner: token kinds, tokens, and the cursor-driven lexer.

use vstd::prelude::*;

use crate::classify::is_digit_char;
use crate::classify::is_identifier_char;
use crate::classify::is_whitespace_char;
use crate::model::digit_run_end;
use crate::model::identifier_run_end;
use crate::model::keyword_or_identifier;
use crate::model::lemma_progress;
use crate::model::number_value;
use crate::model::punctuation_end;
use crate::model::punctuation_kind;
use crate::model::token_end_at;
use crate::model::token_kind_at;
use crate::span::TextSpan;
use vstd::string::StrSliceExecFns;

verus! {

/// The closed set of token kinds the scanner produces.  Only the
/// numeric literal carries a payload: its folded integer value.
#[derive(Debug, Clone, PartialEq, Eq, Structural)]
pub enum TokenKind {
    // literals
    Number(i64),
    // separators
    LeftParen,
    RightParen,
    OpenBrace,
    CloseBrace,
    Comma,
    Colon,
    SemiColon,
    Arrow,
    // operators
    Plus,
    Minus,
    Asterisk,
    Slash,
    Equals,
    Ampersand,
    Pipe,
    Caret,
    DoubleAsterisk,
    Percent,
    Tilde,
    GreaterThan,
    LessThan,
    GreaterThanEquals,
    LessThanEquals,
    EqualsEquals,
    BangEquals,
    // keywords
    Let,
    If,
    Else,
    True,
    False,
    While,
    Func,
    Return,
    // special
    Identifier,
    Whitespace,
    Bad,
    Eof,
}

/// The canonical short rendering of a token kind.
pub open spec fn token_kind_text(kind: TokenKind) -> Seq<char> {
    match kind {
        TokenKind::Number(_) => "Number"@,
        TokenKind::Plus => "+"@,
        TokenKind::Minus => "-"@,
        TokenKind::Asterisk => "*"@,
        TokenKind::Slash => "/"@,
        TokenKind::LeftParen => "("@,
        TokenKind::RightParen => ")"@,
        TokenKind::OpenBrace => "{"@,
        TokenKind::CloseBrace => "}"@,
        TokenKind::Comma => ","@,
        TokenKind::Colon => ":"@,
        TokenKind::SemiColon => ";"@,
        TokenKind::Arrow => "->"@,
        TokenKind::Equals => "="@,
        TokenKind::Ampersand => "&"@,
        TokenKind::Pipe => "|"@,
        TokenKind::Caret => "^"@,
        TokenKind::DoubleAsterisk => "**"@,
        TokenKind::Percent => "%"@,
        TokenKind::Tilde => "~"@,
        TokenKind::GreaterThan => ">"@,
        TokenKind::LessThan => "<"@,
        TokenKind::GreaterThanEquals => ">="@,
        TokenKind::LessThanEquals => "<="@,
        TokenKind::EqualsEquals => "=="@,
        TokenKind::BangEquals => "!="@,
        TokenKind::Let => "let"@,
        TokenKind::If => "if"@,
        TokenKind::Else => "else"@,
        TokenKind::True => "true"@,
        TokenKind::False => "false"@,
        TokenKind::While => "while"@,
        TokenKind::Func => "func"@,
        TokenKind::Return => "return"@,
        TokenKind::Identifier => "Identifier"@,
        TokenKind::Whitespace => "Whitespace"@,
        TokenKind::Bad => "Bad"@,
        TokenKind::Eof => "EOF"@,
    }
}

impl TokenKind {
    /// The canonical short rendering of this kind, for diagnostics and
    /// printing; total over the closed kind set.
    pub fn display_text(&self) -> (text: String)
        ensures
            text@ == token_kind_text(*self),
    {
        match self {
            TokenKind::Number(_) => "Number".to_owned(),
            TokenKind::Plus => "+".to_owned(),
            TokenKind::Minus => "-".to_owned(),
            TokenKind::Asterisk => "*".to_owned(),
            TokenKind::Slash => "/".to_owned(),
            TokenKind::LeftParen => "(".to_owned(),
            TokenKind::RightParen => ")".to_owned(),
            TokenKind::OpenBrace => "{".to_owned(),
            TokenKind::CloseBrace => "}".to_owned(),
            TokenKind::Comma => ",".to_owned(),
            TokenKind::Colon => ":".to_owned(),
            TokenKind::SemiColon => ";".to_owned(),
            TokenKind::Arrow => "->".to_owned(),
            TokenKind::Equals => "=".to_owned(),
            TokenKind::Ampersand => "&".to_owned(),
            TokenKind::Pipe => "|".to_owned(),
            TokenKind::Caret => "^".to_owned(),
            TokenKind::DoubleAsterisk => "**".to_owned(),
            TokenKind::Percent => "%".to_owned(),
            TokenKind::Tilde => "~".to_owned(),
            TokenKind::GreaterThan => ">".to_owned(),
            TokenKind::LessThan => "<".to_owned(),
            TokenKind::GreaterThanEquals => ">=".to_owned(),
            TokenKind::LessThanEquals => "<=".to_owned(),
            TokenKind::EqualsEquals => "==".to_owned(),
            TokenKind::BangEquals => "!=".to_owned(),
            TokenKind::Let => "let".to_owned(),
            TokenKind::If => "if".to_owned(),
            TokenKind::Else => "else".to_owned(),
            TokenKind::True => "true".to_owned(),
            TokenKind::False => "false".to_owned(),
            TokenKind::While => "while".to_owned(),
            TokenKind::Func => "func".to_owned(),
            TokenKind::Return => "return".to_owned(),
            TokenKind::Identifier => "Identifier".to_owned(),
            TokenKind::Whitespace => "Whitespace".to_owned(),
            TokenKind::Bad => "Bad".to_owned(),
            TokenKind::Eof => "EOF".to_owned(),
        }
    }
}

/// A classified unit of source text: a kind plus the span it covers.
#[derive(Debug, Clone, PartialEq)]
pub struct Token {
    pub kind: TokenKind,
    pub span: TextSpan,
}

impl Token {
    pub fn new(kind: TokenKind, span: TextSpan) -> (token: Self)
        ensures
            token.kind == kind,
            token.span == span,
    {
        Self { kind, span }
    }
}

/// The literal carried by the end-of-input token: a single sentinel
/// null character.
pub open spec fn eof_literal() -> Seq<char> {
    seq!['\0']
}

/// Whether two strings hold the same sequence of characters.
pub fn text_eq(a: &str, b: &str) -> (r: bool)
    ensures
        r == (a@ == b@),
{
    let a_len: usize = a.unicode_len();
    let b_len: usize = b.unicode_len();
    if a_len != b_len {
        return false;
    }
    let mut i: usize = 0;
    while i < a_len
        invariant
            a_len == a@.len(),
            b_len == b@.len(),
            a_len == b_len,
            i <= a_len,
            forall|j: int| 0 <= j < i ==> a@[j] == b@[j],
        decreases a_len - i,
    {
        if a.get_char(i) != b.get_char(i) {
            return false;
        }
        i = i + 1;
    }
    proof {
        assert(a@ =~= b@);
    }
    true
}

/// The scanner: the source text and a cursor that only moves forward.
pub struct Lexer<'a> {
    input: &'a str,
    current_pos: usize,
}

impl<'a> Lexer<'a> {
    /// The source text, as a sequence of characters.
    pub closed spec fn src(&self) -> Seq<char> {
        self.input@
    }

    /// The cursor: the character offset scanning has reached.
    pub closed spec fn pos(&self) -> int {
        self.current_pos as int
    }

    /// The cursor stays within the source: `0 <= pos <= len`.
    pub open spec fn wf(&self) -> bool {
        self.pos() <= self.src().len()
    }

    pub fn new(input: &'a str) -> (lexer: Self)
        ensures
            lexer.src() == input@,
            lexer.pos() == 0,
            lexer.wf(),
    {
        Self { input, current_pos: 0 }
    }

    /// Produce the next token.  Before end of input the token covers
    /// `[pos, token_end_at)` of the source, the cursor advances exactly
    /// to the token's end, and the literal is the covered source text.
    /// At end of input the token is `Eof` with an empty span at the
    /// final offset and the sentinel literal, and the cursor stays put.
    pub fn next_token(&mut self) -> (t: Option<Token>)
        requires
            old(self).wf(),
        ensures
            final(self).wf(),
            final(self).src() == old(self).src(),
            t is Some,
            t.unwrap().kind == token_kind_at(old(self).src(), old(self).pos()),
            t.unwrap().span.start == old(self).pos(),
            t.unwrap().span.end == token_end_at(old(self).src(), old(self).pos()),
            final(self).pos() == token_end_at(old(self).src(), old(self).pos()),
            old(self).pos() < old(self).src().len() ==> {
                &&& old(self).pos() < final(self).pos()
                &&& t.unwrap().span.literal@ == old(self).src().subrange(
                    old(self).pos(),
                    token_end_at(old(self).src(), old(self).pos()),
                )
                &&& t.unwrap().span.wf()
            },
            old(self).pos() == old(self).src().len() ==> {
                &&& final(self).pos() == old(self).pos()
                &&& t.unwrap().span.literal@ == eof_literal()
            },
    {
        let ghost src = self.src();
        if self.current_pos >= self.input.unicode_len() {
            let literal = "\0".to_owned();
            proof {
                reveal_strlit("\0");
                assert(literal@ =~= eof_literal());
            }
            return Some(
                Token::new(
                    TokenKind::Eof,
                    TextSpan::new(self.current_pos, self.current_pos, literal),
                ),
            );
        }

        let c = self.current_char().unwrap();
        let start: usize = self.current_pos;

        let kind = if Self::is_number_start(&c) {
            let number = self.consume_number();
            TokenKind::Number(number)
        } else if Self::is_whitespace(&c) {
            self.consume();
            TokenKind::Whitespace
        } else if Self::is_identifier_start(&c) {
            let identifier = self.consume_identifier();
            if text_eq(identifier.as_str(), "let") {
                TokenKind::Let
            } else if text_eq(identifier.as_str(), "if") {
                TokenKind::If
            } else if text_eq(identifier.as_str(), "else") {
                TokenKind::Else
            } else if text_eq(identifier.as_str(), "true") {
                TokenKind::True
            } else if text_eq(identifier.as_str(), "false") {
                TokenKind::False
            } else if text_eq(identifier.as_str(), "while") {
                TokenKind::While
            } else if text_eq(identifier.as_str(), "func") {
                TokenKind::Func
            } else if text_eq(identifier.as_str(), "return") {
                TokenKind::Return
            } else {
                TokenKind::Identifier
            }
        } else {
            self.consume_punctuation()
        };

        let end: usize = self.current_pos;
        proof {
            lemma_progress(src, start as int);
        }
        let literal = self.input.substring_char(start, end).to_owned();
        let span = TextSpan::new(start, end, literal);
        Some(Token::new(kind, span))
    }

    /// Consume one character and resolve it as punctuation, an operator
    /// (with one character of lookahead for the two-character forms), or
    /// `Bad` when nothing matches.
    fn consume_punctuation(&mut self) -> (kind: TokenKind)
        requires
            old(self).wf(),
            old(self).pos() < old(self).src().len(),
        ensures
            final(self).wf(),
            final(self).src() == old(self).src(),
            kind == punctuation_kind(old(self).src(), old(self).pos()),
            final(self).pos() == punctuation_end(old(self).src(), old(self).pos()),
    {
        let c = self.consume().unwrap();
        match c {
            '+' => TokenKind::Plus,
            '-' => self.lex_double_char('>', TokenKind::Minus, TokenKind::Arrow),
            '*' => self.lex_double_char('*', TokenKind::Asterisk, TokenKind::DoubleAsterisk),
            '%' => TokenKind::Percent,
            '/' => TokenKind::Slash,
            '(' => TokenKind::LeftParen,
            ')' => TokenKind::RightParen,
            '=' => self.lex_double_char('=', TokenKind::Equals, TokenKind::EqualsEquals),
            '&' => TokenKind::Ampersand,
            '|' => TokenKind::Pipe,
            '^' => TokenKind::Caret,
            '~' => TokenKind::Tilde,
            '>' => self.lex_double_char('=', TokenKind::GreaterThan, TokenKind::GreaterThanEquals),
            '<' => self.lex_double_char('=', TokenKind::LessThan, TokenKind::LessThanEquals),
            '!' => self.lex_double_char('=', TokenKind::Bad, TokenKind::BangEquals),
            '{' => TokenKind::OpenBrace,
            '}' => TokenKind::CloseBrace,
            ',' => TokenKind::Comma,
            ':' => TokenKind::Colon,
            ';' => TokenKind::SemiColon,
            _ => TokenKind::Bad,
        }
    }

    /// One character of lookahead: when the next character equals
    /// `expected` it is consumed and the two-character kind returned,
    /// otherwise nothing is consumed and the one-character kind stands.
    fn lex_double_char(
        &mut self,
        expected: char,
        one_char: TokenKind,
        double_char: TokenKind,
    ) -> (kind: TokenKind)
        requires
            old(self).wf(),
        ensures
            final(self).wf(),
            final(self).src() == old(self).src(),
            if old(self).pos() < old(self).src().len() && old(self).src()[old(self).pos()]
                == expected {
                kind == double_char && final(self).pos() == old(self).pos() + 1
            } else {
                kind == one_char && final(self).pos() == old(self).pos()
            },
    {
        if let Some(next) = self.current_char() {
            if next == expected {
                self.consume();
                double_char
            } else {
                one_char
            }
        } else {
            one_char
        }
    }

    /// Whether the character opens a number: an ASCII decimal digit.
    fn is_number_start(c: &char) -> (r: bool)
        ensures
            r == is_digit_char(*c),
    {
        let u: u32 = *c as u32;
        48 <= u && u <= 57
    }

    /// Whether the character opens or continues an identifier.
    fn is_identifier_start(c: &char) -> (r: bool)
        ensures
            r == is_identifier_char(*c),
    {
        c.is_alphabetic() || *c == '_'
    }

    /// Whether the character is whitespace.
    fn is_whitespace(c: &char) -> (r: bool)
        ensures
            r == is_whitespace_char(*c),
    {
        c.is_whitespace()
    }

    /// The character at the cursor, if any, without consuming it.
    fn current_char(&self) -> (c: Option<char>)
        requires
            self.wf(),
        ensures
            c == if self.pos() < self.src().len() {
                Some(self.src()[self.pos()])
            } else {
                None::<char>
            },
    {
        if self.current_pos < self.input.unicode_len() {
            Some(self.input.get_char(self.current_pos))
        } else {
            None
        }
    }

    /// Consume one character: return the character at the cursor and
    /// advance past it, or return nothing at end of input.
    fn consume(&mut self) -> (c: Option<char>)
        requires
            old(self).wf(),
        ensures
            final(self).wf(),
            final(self).src() == old(self).src(),
            if old(self).pos() < old(self).src().len() {
                c == Some(old(self).src()[old(self).pos()]) && final(self).pos() == old(self).pos()
                    + 1
            } else {
                c == None::<char> && final(self).pos() == old(self).pos()
            },
    {
        if self.current_pos >= self.input.unicode_len() {
            None
        } else {
            let c = self.current_char();
            self.current_pos = self.current_pos + 1;
            c
        }
    }

    /// Consume the maximal run of identifier characters at the cursor
    /// and return its text, taken from the source.
    fn consume_identifier(&mut self) -> (identifier: String)
        requires
            old(self).wf(),
        ensures
            final(self).wf(),
            final(self).src() == old(self).src(),
            final(self).pos() == identifier_run_end(old(self).src(), old(self).pos()),
            identifier@ == old(self).src().subrange(old(self).pos(), final(self).pos()),
    {
        let ghost src = self.src();
        let start: usize = self.current_pos;
        loop
            invariant
                self.wf(),
                self.src() == src,
                start <= self.pos(),
                identifier_run_end(src, start as int) == identifier_run_end(src, self.pos()),
            ensures
                self.wf(),
                self.src() == src,
                start <= self.pos(),
                self.pos() == identifier_run_end(src, start as int),
            decreases src.len() - self.pos(),
        {
            match self.current_char() {
                Some(c) => {
                    if Self::is_identifier_start(&c) {
                        self.consume();
                    } else {
                        break;
                    }
                },
                None => {
                    break;
                },
            }
        }
        self.input.substring_char(start, self.current_pos).to_owned()
    }

    /// Consume the maximal run of ASCII digits at the cursor and fold
    /// them left to right into an integer as `value = value * 10 + digit`,
    /// with wrapping 64-bit arithmetic on overflow.
    fn consume_number(&mut self) -> (number: i64)
        requires
            old(self).wf(),
        ensures
            final(self).wf(),
            final(self).src() == old(self).src(),
            final(self).pos() == digit_run_end(old(self).src(), old(self).pos()),
            number == number_value(old(self).src(), old(self).pos(), final(self).pos()),
    {
        let ghost src = self.src();
        let ghost start: int = self.pos();
        let mut number: i64 = 0;
        loop
            invariant
                self.wf(),
                self.src() == src,
                start <= self.pos(),
                digit_run_end(src, start) == digit_run_end(src, self.pos()),
                number == number_value(src, start, self.pos()),
            ensures
                self.wf(),
                self.src() == src,
                self.pos() == digit_run_end(src, start),
                number == number_value(src, start, self.pos()),
            decreases src.len() - self.pos(),
        {
            match self.current_char() {
                Some(c) => {
                    if Self::is_number_start(&c) {
                        self.consume();
                        number = number.wrapping_mul(10).wrapping_add(((c as u32) - 48) as i64);
                    } else {
                        break;
                    }
                },
                None => {
                    break;
                },
            }
        }
        number
    }
}

} // verus!

//! The mathematical model of the scanner.
//!
//! Every function here is specification-level: it says, over a sequence
//! of characters and a cursor position, which token kind the scanner
//! produces at that position and where the cursor stands afterwards.
//! The executable scanner in [`crate::lexer`] is proved against this
//! model, and the general laws of the scanner are proved about it.

use vstd::prelude::*;

use crate::classify::class_identifier;
use crate::classify::class_number;
use crate::classify::class_other;
use crate::classify::class_whitespace;
use crate::classify::is_digit_char;
use crate::classify::is_identifier_char;
use crate::lexer::TokenKind;
use vstd::wrapping::i64_specs;

verus! {

/// End of the maximal run of ASCII digits starting at `pos`.
pub open spec fn digit_run_end(src: Seq<char>, pos: int) -> int
    decreases src.len() - pos,
{
    if pos < 0 || src.len() <= pos {
        pos
    } else if is_digit_char(src[pos]) {
        digit_run_end(src, pos + 1)
    } else {
        pos
    }
}

/// End of the maximal run of identifier characters starting at `pos`.
pub open spec fn identifier_run_end(src: Seq<char>, pos: int) -> int
    decreases src.len() - pos,
{
    if pos < 0 || src.len() <= pos {
        pos
    } else if is_identifier_char(src[pos]) {
        identifier_run_end(src, pos + 1)
    } else {
        pos
    }
}

/// Numeric value of a digit character; meaningful only when
/// `is_digit_char(c)` holds.
pub open spec fn digit_value(c: char) -> i64 {
    (c as int - 48) as i64
}

/// The value of the digits `src[start..end)`, folded left to right as
/// `value = value * 10 + digit` with wrapping 64-bit arithmetic.
pub open spec fn number_value(src: Seq<char>, start: int, end: int) -> i64
    decreases end - start,
{
    if end <= start {
        0
    } else {
        i64_specs::wrapping_add(
            i64_specs::wrapping_mul(number_value(src, start, end - 1), 10),
            digit_value(src[end - 1]),
        )
    }
}

/// Whether `word` is one of the reserved words of the language.
pub open spec fn is_reserved_word(word: Seq<char>) -> bool {
    ||| word == "let"@
    ||| word == "if"@
    ||| word == "else"@
    ||| word == "true"@
    ||| word == "false"@
    ||| word == "while"@
    ||| word == "func"@
    ||| word == "return"@
}

/// The kind an identifier-shaped word scans to: the matching keyword
/// kind when the word is reserved, `Identifier` otherwise.
pub open spec fn keyword_or_identifier(word: Seq<char>) -> TokenKind {
    if word == "let"@ {
        TokenKind::Let
    } else if word == "if"@ {
        TokenKind::If
    } else if word == "else"@ {
        TokenKind::Else
    } else if word == "true"@ {
        TokenKind::True
    } else if word == "false"@ {
        TokenKind::False
    } else if word == "while"@ {
        TokenKind::While
    } else if word == "func"@ {
        TokenKind::Func
    } else if word == "return"@ {
        TokenKind::Return
    } else {
        TokenKind::Identifier
    }
}

/// Whether the character after `pos` exists and equals `expected`:
/// the lookahead test of the two-character operators.
pub open spec fn pair_follows(src: Seq<char>, pos: int, expected: char) -> bool {
    pos + 1 < src.len() && src[pos + 1] == expected
}

/// The kind produced by the punctuation branch for the character at `pos`.
pub open spec fn punctuation_kind(src: Seq<char>, pos: int) -> TokenKind {
    let c = src[pos];
    if c == '+' {
        TokenKind::Plus
    } else if c == '-' {
        if pair_follows(src, pos, '>') {
            TokenKind::Arrow
        } else {
            TokenKind::Minus
        }
    } else if c == '*' {
        if pair_follows(src, pos, '*') {
            TokenKind::DoubleAsterisk
        } else {
            TokenKind::Asterisk
        }
    } else if c == '%' {
        TokenKind::Percent
    } else if c == '/' {
        TokenKind::Slash
    } else if c == '(' {
        TokenKind::LeftParen
    } else if c == ')' {
        TokenKind::RightParen
    } else if c == '=' {
        if pair_follows(src, pos, '=') {
            TokenKind::EqualsEquals
        } else {
            TokenKind::Equals
        }
    } else if c == '&' {
        TokenKind::Ampersand
    } else if c == '|' {
        TokenKind::Pipe
    } else if c == '^' {
        TokenKind::Caret
    } else if c == '~' {
        TokenKind::Tilde
    } else if c == '>' {
        if pair_follows(src, pos, '=') {
            TokenKind::GreaterThanEquals
        } else {
            TokenKind::GreaterThan
        }
    } else if c == '<' {
        if pair_follows(src, pos, '=') {
            TokenKind::LessThanEquals
        } else {
            TokenKind::LessThan
        }
    } else if c == '!' {
        if pair_follows(src, pos, '=') {
            TokenKind::BangEquals
        } else {
            TokenKind::Bad
        }
    } else if c == '{' {
        TokenKind::OpenBrace
    } else if c == '}' {
        TokenKind::CloseBrace
    } else if c == ',' {
        TokenKind::Comma
    } else if c == ':' {
        TokenKind::Colon
    } else if c == ';' {
        TokenKind::SemiColon
    } else {
        TokenKind::Bad
    }
}

/// Cursor position after the punctuation branch: two characters for a
/// matched two-character operator, one character otherwise.
pub open spec fn punctuation_end(src: Seq<char>, pos: int) -> int {
    let c = src[pos];
    if (c == '-' && pair_follows(src, pos, '>')) || (c == '*' && pair_follows(src, pos, '*')) || ((
    c == '=' || c == '>' || c == '<' || c == '!') && pair_follows(src, pos, '=')) {
        pos + 2
    } else {
        pos + 1
    }
}

/// The kind of the token the scanner produces at position `pos`.
pub open spec fn token_kind_at(src: Seq<char>, pos: int) -> TokenKind {
    if pos < 0 || src.len() <= pos {
        TokenKind::Eof
    } else {
        let c = src[pos];
        if class_number(c) {
            TokenKind::Number(number_value(src, pos, digit_run_end(src, pos)))
        } else if class_whitespace(c) {
            TokenKind::Whitespace
        } else if class_identifier(c) {
            keyword_or_identifier(src.subrange(pos, identifier_run_end(src, pos)))
        } else {
            punctuation_kind(src, pos)
        }
    }
}

/// The cursor position after the scanner produces the token at `pos`.
pub open spec fn token_end_at(src: Seq<char>, pos: int) -> int {
    if pos < 0 || src.len() <= pos {
        pos
    } else {
        let c = src[pos];
        if class_number(c) {
            digit_run_end(src, pos)
        } else if class_whitespace(c) {
            pos + 1
        } else if class_identifier(c) {
            identifier_run_end(src, pos)
        } else {
            punctuation_end(src, pos)
        }
    }
}

/// A maximal digit run stays within the source and never moves backwards.
pub proof fn lemma_digit_run_end_bounds(src: Seq<char>, pos: int)
    requires
        0 <= pos <= src.len(),
    ensures
        pos <= digit_run_end(src, pos) <= src.len(),
    decreases src.len() - pos,
{
    if pos < src.len() && is_digit_char(src[pos]) {
        lemma_digit_run_end_bounds(src, pos + 1);
    }
}

/// A maximal identifier run stays within the source and never moves backwards.
pub proof fn lemma_identifier_run_end_bounds(src: Seq<char>, pos: int)
    requires
        0 <= pos <= src.len(),
    ensures
        pos <= identifier_run_end(src, pos) <= src.len(),
    decreases src.len() - pos,
{
    if pos < src.len() && is_identifier_char(src[pos]) {
        lemma_identifier_run_end_bounds(src, pos + 1);
    }
}

/// Progress: at every in-range position the scanner consumes at least
/// one character, and never reads past the end of the source.
pub proof fn lemma_progress(src: Seq<char>, pos: int)
    requires
        0 <= pos < src.len(),
    ensures
        pos < token_end_at(src, pos) <= src.len(),
{
    let c = src[pos];
    if class_number(c) {
        lemma_digit_run_end_bounds(src, pos + 1);
        assert(digit_run_end(src, pos) == digit_run_end(src, pos + 1));
    } else if class_identifier(c) {
        lemma_identifier_run_end_bounds(src, pos + 1);
        assert(identifier_run_end(src, pos) == identifier_run_end(src, pos + 1));
    }
}

/// Idempotent termination: once the cursor stands at or past the end of
/// the source, the token produced is `Eof` and the cursor does not move,
/// so every later request yields the same answer.
pub proof fn lemma_eof_idempotent(src: Seq<char>, pos: int)
    requires
        pos >= src.len(),
    ensures
        token_kind_at(src, pos) == TokenKind::Eof,
        token_end_at(src, pos) == pos,
{
}

/// Keyword shadowing: a word equal to a reserved word always scans to
/// the matching keyword kind, never to `Identifier`; any other word
/// scans to `Identifier`.
pub proof fn lemma_keyword_shadowing(word: Seq<char>)
    ensures
        keyword_or_identifier(word) == TokenKind::Identifier <==> !is_reserved_word(word),
        word == "let"@ ==> keyword_or_identifier(word) == TokenKind::Let,
        word == "if"@ ==> keyword_or_identifier(word) == TokenKind::If,
        word == "else"@ ==> keyword_or_identifier(word) == TokenKind::Else,
        word == "true"@ ==> keyword_or_identifier(word) == TokenKind::True,
        word == "false"@ ==> keyword_or_identifier(word) == TokenKind::False,
        word == "while"@ ==> keyword_or_identifier(word) == TokenKind::While,
        word == "func"@ ==> keyword_or_identifier(word) == TokenKind::Func,
        word == "return"@ ==> keyword_or_identifier(word) == TokenKind::Return,
{
    reveal_strlit("let");
    reveal_strlit("if");
    reveal_strlit("else");
    reveal_strlit("true");
    reveal_strlit("false");
    reveal_strlit("while");
    reveal_strlit("func");
    reveal_strlit("return");
    // The reserved words are pairwise distinct: by length, or by the
    // first character where two share a length.
    assert("let"@.len() == 3 && "if"@.len() == 2 && "else"@.len() == 4 && "true"@.len() == 4
        && "false"@.len() == 5 && "while"@.len() == 5 && "func"@.len() == 4 && "return"@.len()
        == 6);
    assert("else"@[0] == 'e' && "true"@[0] == 't' && "func"@[0] == 'f' && "false"@[0] == 'f'
        && "while"@[0] == 'w');
}

/// Longest match for the two-character operators: `->`, `**`, `==`,
/// `>=`, `<=` and `!=` scan as one token of two characters; `-`, `*`,
/// `=`, `>` and `<` not followed by their paired character scan as the
/// one-character operator, and a lone `!` scans as `Bad` of length one.
pub proof fn lemma_longest_match(src: Seq<char>, pos: int)
    requires
        0 <= pos < src.len(),
    ensures
        src[pos] == '-' && pair_follows(src, pos, '>') ==> token_kind_at(src, pos)
            == TokenKind::Arrow && token_end_at(src, pos) == pos + 2,
        src[pos] == '-' && !pair_follows(src, pos, '>') ==> token_kind_at(src, pos)
            == TokenKind::Minus && token_end_at(src, pos) == pos + 1,
        src[pos] == '*' && pair_follows(src, pos, '*') ==> token_kind_at(src, pos)
            == TokenKind::DoubleAsterisk && token_end_at(src, pos) == pos + 2,
        src[pos] == '*' && !pair_follows(src, pos, '*') ==> token_kind_at(src, pos)
            == TokenKind::Asterisk && token_end_at(src, pos) == pos + 1,
        src[pos] == '=' && pair_follows(src, pos, '=') ==> token_kind_at(src, pos)
            == TokenKind::EqualsEquals && token_end_at(src, pos) == pos + 2,
        src[pos] == '=' && !pair_follows(src, pos, '=') ==> token_kind_at(src, pos)
            == TokenKind::Equals && token_end_at(src, pos) == pos + 1,
        src[pos] == '>' && pair_follows(src, pos, '=') ==> token_kind_at(src, pos)
            == TokenKind::GreaterThanEquals && token_end_at(src, pos) == pos + 2,
        src[pos] == '>' && !pair_follows(src, pos, '=') ==> token_kind_at(src, pos)
            == TokenKind::GreaterThan && token_end_at(src, pos) == pos + 1,
        src[pos] == '<' && pair_follows(src, pos, '=') ==> token_kind_at(src, pos)
            == TokenKind::LessThanEquals && token_end_at(src, pos) == pos + 2,
        src[pos] == '<' && !pair_follows(src, pos, '=') ==> token_kind_at(src, pos)
            == TokenKind::LessThan && token_end_at(src, pos) == pos + 1,
        src[pos] == '!' && pair_follows(src, pos, '=') ==> token_kind_at(src, pos)
            == TokenKind::BangEquals && token_end_at(src, pos) == pos + 2,
        src[pos] == '!' && !pair_follows(src, pos, '=') ==> token_kind_at(src, pos)
            == TokenKind::Bad && token_end_at(src, pos) == pos + 1,
{
}

} // verus!

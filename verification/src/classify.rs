//! Character classification.
//!
//! The scanner dispatches on the character at the cursor in a fixed
//! priority order: digit start, whitespace, identifier start, and a
//! punctuation fallback.  The four effective branch predicates below
//! build that priority in, so they are total and mutually exclusive
//! over all characters (see [`lemma_classification_total`]).
//!
//! Whitespace and alphabetic classification follow Unicode, as std's
//! `char::is_whitespace` and `char::is_alphabetic` compute them.  Within
//! ASCII both properties are fixed by the documentation (whitespace is
//! space and U+0009..U+000D; alphabetic is the letters), so the spec
//! functions state that part directly; outside ASCII the classification
//! is named but not spelled out.

use vstd::prelude::*;

verus! {

/// Whether `c` has the Unicode `White_Space` property, for `c` outside ASCII.
pub uninterp spec fn unicode_whitespace(c: char) -> bool;

/// Whether `c` has the Unicode `Alphabetic` property, for `c` outside ASCII.
pub uninterp spec fn unicode_alphabetic(c: char) -> bool;

/// Whether `c` counts as whitespace: the Unicode `White_Space` property.
/// Within ASCII that is space and the five controls U+0009..U+000D.
pub open spec fn is_whitespace_char(c: char) -> bool {
    if (c as int) < 128 {
        c as int == 32 || (9 <= c as int && c as int <= 13)
    } else {
        unicode_whitespace(c)
    }
}

/// Whether `c` counts as alphabetic: the Unicode `Alphabetic` property.
/// Within ASCII those are exactly the letters.
pub open spec fn is_alphabetic_char(c: char) -> bool {
    if (c as int) < 128 {
        (65 <= c as int && c as int <= 90) || (97 <= c as int && c as int <= 122)
    } else {
        unicode_alphabetic(c)
    }
}

/// Whether `c` is an ASCII decimal digit.
pub open spec fn is_digit_char(c: char) -> bool {
    48 <= c as int && c as int <= 57
}

/// Whether `c` may start or continue an identifier: alphabetic or underscore.
pub open spec fn is_identifier_char(c: char) -> bool {
    is_alphabetic_char(c) || c == '_'
}

/// Relies on `char::is_whitespace`: true exactly for characters with the
/// Unicode `White_Space` property, which within ASCII is space and
/// U+0009..U+000D; the result depends on the character alone.
pub assume_specification[ char::is_whitespace ](c: char) -> (r: bool)
    ensures
        r == is_whitespace_char(c),
        (c as int) >= 128 ==> r == unicode_whitespace(c),
;

/// Relies on `char::is_alphabetic`: true exactly for characters with the
/// Unicode `Alphabetic` property, which within ASCII is the letters
/// A-Z and a-z; the result depends on the character alone.
pub assume_specification[ char::is_alphabetic ](c: char) -> (r: bool)
    ensures
        r == is_alphabetic_char(c),
        (c as int) >= 128 ==> r == unicode_alphabetic(c),
;

/// The character opens a number token: the digit branch fires first.
pub open spec fn class_number(c: char) -> bool {
    is_digit_char(c)
}

/// The character opens a whitespace token: whitespace, and not a digit.
pub open spec fn class_whitespace(c: char) -> bool {
    !is_digit_char(c) && is_whitespace_char(c)
}

/// The character opens an identifier or keyword token.
pub open spec fn class_identifier(c: char) -> bool {
    !is_digit_char(c) && !is_whitespace_char(c) && is_identifier_char(c)
}

/// The character falls through to the punctuation branch.
pub open spec fn class_other(c: char) -> bool {
    !is_digit_char(c) && !is_whitespace_char(c) && !is_identifier_char(c)
}

/// Totality of classification: for every character exactly one of the
/// four dispatch branches applies — no character is unhandled, and no
/// two branches both fire.
pub proof fn lemma_classification_total(c: char)
    ensures
        class_number(c) || class_whitespace(c) || class_identifier(c) || class_other(c),
        !(class_number(c) && class_whitespace(c)),
        !(class_number(c) && class_identifier(c)),
        !(class_number(c) && class_other(c)),
        !(class_whitespace(c) && class_identifier(c)),
        !(class_whitespace(c) && class_other(c)),
        !(class_identifier(c) && class_other(c)),
{
}

} // verus!

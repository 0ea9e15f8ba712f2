//! Unicode character data that the library takes from outside code: case
//! mapping of strings and the regular-expression class of word characters.

use vstd::prelude::*;
use vstd::utf8::is_ascii_chars;

verus! {

/// The full Unicode lowercase mapping of a string, as `str::to_lowercase`
/// computes it.
pub uninterp spec fn lowercase_of(s: Seq<char>) -> Seq<char>;

/// The full Unicode uppercase mapping of a string, as `str::to_uppercase`
/// computes it.
pub uninterp spec fn uppercase_of(s: Seq<char>) -> Seq<char>;

/// Whether a character outside ASCII is a Unicode word character (`\w` of
/// the regular-expression syntax: Alphabetic, Join_Control, Decimal_Number,
/// Mark or Connector_Punctuation), as `regex_syntax::is_word_character`
/// decides it.
pub uninterp spec fn unicode_word_character(c: char) -> bool;

/// Whether a character is a word character (`\w`): among ASCII characters
/// exactly `[_0-9a-zA-Z]`, elsewhere as the Unicode tables say.
pub open spec fn word_character(c: char) -> bool {
    if (c as u32) < 0x80 {
        is_ascii_word(c)
    } else {
        unicode_word_character(c)
    }
}

/// An ASCII word character: `[_0-9a-zA-Z]`.
pub open spec fn is_ascii_word(c: char) -> bool {
    ||| c == '_'
    ||| '0' <= c <= '9'
    ||| 'a' <= c <= 'z'
    ||| 'A' <= c <= 'Z'
}

/// `s` with ASCII capital letters made small.
pub open spec fn ascii_lowercase(s: Seq<char>) -> Seq<char> {
    Seq::new(s.len(), |i: int| if 'A' <= s[i] <= 'Z' { (s[i] as int + 32) as char } else { s[i] })
}

/// `s` with ASCII small letters made capital.
pub open spec fn ascii_uppercase(s: Seq<char>) -> Seq<char> {
    Seq::new(s.len(), |i: int| if 'a' <= s[i] <= 'z' { (s[i] as int - 32) as char } else { s[i] })
}

/// The lowercase form of a string: on ASCII text the ASCII mapping, on any
/// other text the full Unicode mapping.
pub open spec fn lowercase_string(s: Seq<char>) -> Seq<char> {
    if is_ascii_chars(s) {
        ascii_lowercase(s)
    } else {
        lowercase_of(s)
    }
}

/// The uppercase form of a string: on ASCII text the ASCII mapping, on any
/// other text the full Unicode mapping.
pub open spec fn uppercase_string(s: Seq<char>) -> Seq<char> {
    if is_ascii_chars(s) {
        ascii_uppercase(s)
    } else {
        uppercase_of(s)
    }
}

/// On ASCII text the two case mappings stay within ASCII, each is
/// idempotent, and each undoes the other up to its own result: lowercasing
/// the uppercase form gives the lowercase form, and the other way round.
pub proof fn lemma_ascii_case_forms(s: Seq<char>)
    requires
        is_ascii_chars(s),
    ensures
        is_ascii_chars(ascii_lowercase(s)),
        is_ascii_chars(ascii_uppercase(s)),
        ascii_lowercase(ascii_lowercase(s)) == ascii_lowercase(s),
        ascii_lowercase(ascii_uppercase(s)) == ascii_lowercase(s),
        ascii_uppercase(ascii_uppercase(s)) == ascii_uppercase(s),
        ascii_uppercase(ascii_lowercase(s)) == ascii_uppercase(s),
{
    let lo = ascii_lowercase(s);
    let up = ascii_uppercase(s);
    assert forall|i: int| 0 <= i < s.len() implies {
        &&& '\0' <= #[trigger] lo[i] <= '\u{7f}'
        &&& '\0' <= up[i] <= '\u{7f}'
        &&& !('A' <= lo[i] <= 'Z')
        &&& !('a' <= up[i] <= 'z')
        &&& (if 'A' <= up[i] <= 'Z' { (up[i] as int + 32) as char } else { up[i] }) == lo[i]
        &&& (if 'a' <= lo[i] <= 'z' { (lo[i] as int - 32) as char } else { lo[i] }) == up[i]
    } by {
        let c = s[i];
        assert('\0' <= c <= '\u{7f}');
    }
    assert(ascii_lowercase(lo) =~= lo);
    assert(ascii_lowercase(up) =~= lo);
    assert(ascii_uppercase(up) =~= up);
    assert(ascii_uppercase(lo) =~= up);
}

/// Calls `str::to_lowercase`. The result is named as a function of the
/// argument's characters (the Unicode tables of the standard library); on
/// text that is all ASCII it is the ASCII lowercase form, as the standard
/// library documents (`to_ascii_lowercase` lowercases the ASCII letters that
/// `to_lowercase` lowercases, and leaves the rest). Nothing more is stated of
/// text outside ASCII.
#[verifier::external_body]
pub(crate) fn to_lowercase(s: &str) -> (r: String)
    ensures
        r@ == lowercase_of(s@),
        is_ascii_chars(s@) ==> r@ == ascii_lowercase(s@),
{
    s.to_lowercase()
}

/// Calls `str::to_uppercase`. The result is named as a function of the
/// argument's characters (the Unicode tables of the standard library); on
/// text that is all ASCII it is the ASCII uppercase form, as the standard
/// library documents (`to_ascii_uppercase` uppercases the ASCII letters that
/// `to_uppercase` uppercases, and leaves the rest). Nothing more is stated of
/// text outside ASCII.
#[verifier::external_body]
pub(crate) fn to_uppercase(s: &str) -> (r: String)
    ensures
        r@ == uppercase_of(s@),
        is_ascii_chars(s@) ==> r@ == ascii_uppercase(s@),
{
    s.to_uppercase()
}

/// Calls `regex_syntax::is_word_character`. Its source answers ASCII
/// characters by `is_word_byte` (`[_0-9a-zA-Z]`) and the table `PERL_WORD`,
/// whose ASCII ranges are exactly those; the contract states that, and names
/// the answer for every other character. The function panics only when the
/// crate's `unicode-perl` feature is off; it is on by default.
#[verifier::external_body]
pub(crate) fn is_word_character(c: char) -> (r: bool)
    ensures
        (c as u32) < 0x80 ==> r == is_ascii_word(c),
        (c as u32) >= 0x80 ==> r == unicode_word_character(c),
{
    regex_syntax::is_word_character(c)
}

} // verus!

use vstd::prelude::*;

verus! {

// The Unicode character classes the validators test. Their definitions run
// to tables of character ranges, so each is named rather than written out;
// the assume_specifications below tie each name to the std function it
// stands for, and nothing else is assumed of them.

/// What `char::is_alphanumeric` returns; a function of the character alone.
pub uninterp spec fn alphanumeric_char(c: char) -> bool;

/// What `char::is_numeric` returns; a function of the character alone.
pub uninterp spec fn numeric_char(c: char) -> bool;

/// What `char::is_whitespace` returns; a function of the character alone.
pub uninterp spec fn whitespace_char(c: char) -> bool;

/// What `char::is_uppercase` returns; a function of the character alone.
pub uninterp spec fn uppercase_char(c: char) -> bool;

/// What `char::is_lowercase` returns; a function of the character alone.
pub uninterp spec fn lowercase_char(c: char) -> bool;

/// Relies on char::is_alphanumeric: a pure classification of the character.
pub assume_specification[ char::is_alphanumeric ](c: char) -> (r: bool)
    ensures
        r == alphanumeric_char(c),
;

/// Relies on char::is_numeric: a pure classification of the character.
pub assume_specification[ char::is_numeric ](c: char) -> (r: bool)
    ensures
        r == numeric_char(c),
;

/// Relies on char::is_whitespace: a pure classification of the character.
pub assume_specification[ char::is_whitespace ](c: char) -> (r: bool)
    ensures
        r == whitespace_char(c),
;

/// Relies on char::is_uppercase: a pure classification of the character.
pub assume_specification[ char::is_uppercase ](c: char) -> (r: bool)
    ensures
        r == uppercase_char(c),
;

/// Relies on char::is_lowercase: a pure classification of the character.
pub assume_specification[ char::is_lowercase ](c: char) -> (r: bool)
    ensures
        r == lowercase_char(c),
;

/// Relies on String::push: appends exactly the one character.
pub assume_specification[ String::push ](s: &mut String, c: char)
    ensures
        final(s)@ == old(s)@.push(c),
;

/// An ASCII decimal digit.
pub open spec fn dec_digit_char(c: char) -> bool {
    '0' <= c && c <= '9'
}

/// What `str::to_lowercase` returns; Unicode lowercasing is a function of
/// the characters alone.
pub uninterp spec fn lower_of(s: Seq<char>) -> Seq<char>;

/// Relies on str::to_lowercase: the result depends on the characters alone,
/// and an empty string stays empty.
#[verifier::external_body]
pub fn lowercase(s: &str) -> (r: String)
    ensures
        r@ == lower_of(s@),
        s@.len() == 0 ==> r@.len() == 0,
{
    s.to_lowercase()
}

} // verus!

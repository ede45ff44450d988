//! The accepted shape of an email address.
//!
//! An address is accepted when it matches
//! `^[a-zA-Z0-9._%+-]+@(?:[a-zA-Z0-9-]+\.)+(com|com\.[a-zA-Z]{2,4})$`.
//! The language of that pattern is stated here as `email_shape`; the match
//! itself is made by the `regex` crate.

use vstd::prelude::*;

verus! {

/// An ASCII letter: `[a-zA-Z]`.
pub open spec fn is_ascii_letter(c: char) -> bool {
    ('a' <= c && c <= 'z') || ('A' <= c && c <= 'Z')
}

/// An ASCII letter or digit: `[a-zA-Z0-9]`.
pub open spec fn is_ascii_alnum(c: char) -> bool {
    is_ascii_letter(c) || ('0' <= c && c <= '9')
}

/// A character allowed before the `@`: `[a-zA-Z0-9._%+-]`.
pub open spec fn is_local_char(c: char) -> bool {
    is_ascii_alnum(c) || c == '.' || c == '_' || c == '%' || c == '+' || c == '-'
}

/// A character allowed in a domain label: `[a-zA-Z0-9-]`.
pub open spec fn is_label_char(c: char) -> bool {
    is_ascii_alnum(c) || c == '-'
}

/// The part before the `@`: one or more local characters.
pub open spec fn is_local_part(s: Seq<char>) -> bool {
    &&& s.len() > 0
    &&& forall|i: int| 0 <= i < s.len() ==> is_local_char(#[trigger] s[i])
}

/// One or more domain labels, each followed by a dot: `(?:[a-zA-Z0-9-]+\.)+`.
///
/// The text is made of label characters and dots, starts with a label
/// character, ends with a dot, and never holds two dots in a row, so that
/// every label between the dots is non-empty.
pub open spec fn is_dotted_labels(s: Seq<char>) -> bool {
    &&& s.len() > 0
    &&& s[0] != '.'
    &&& s[s.len() - 1] == '.'
    &&& forall|i: int| 0 <= i < s.len() ==> is_label_char(#[trigger] s[i]) || s[i] == '.'
    &&& forall|i: int| 0 <= i < s.len() - 1 && #[trigger] s[i] == '.' ==> s[i + 1] != '.'
}

/// The final part of the domain: `com`, or `com.` followed by two to four
/// letters.
pub open spec fn is_com_suffix(s: Seq<char>) -> bool {
    ||| s == seq!['c', 'o', 'm']
    ||| {
        &&& 6 <= s.len() <= 8
        &&& s.subrange(0, 4) == seq!['c', 'o', 'm', '.']
        &&& forall|i: int| 4 <= i < s.len() ==> is_ascii_letter(#[trigger] s[i])
    }
}

/// The text splits as local part, `@`, dotted labels and a `com` suffix.
pub open spec fn email_split_at(s: Seq<char>, at: int, suffix_start: int) -> bool {
    &&& 0 < at < suffix_start <= s.len()
    &&& s[at] == '@'
    &&& is_local_part(s.subrange(0, at))
    &&& is_dotted_labels(s.subrange(at + 1, suffix_start))
    &&& is_com_suffix(s.subrange(suffix_start, s.len() as int))
}

/// The whole text matches the email pattern.
pub open spec fn email_shape(s: Seq<char>) -> bool {
    exists|at: int, suffix_start: int| #[trigger] email_split_at(s, at, suffix_start)
}

/// An email of the accepted shape is never empty.
pub proof fn lemma_shaped_email_non_empty(s: Seq<char>)
    requires
        email_shape(s),
    ensures
        s.len() > 0,
{
    let (at, suffix_start) = choose|at: int, suffix_start: int|
        #[trigger] email_split_at(s, at, suffix_start);
}

/// The email pattern, as the `regex` crate reads it.
pub open spec fn email_pattern() -> Seq<char> {
    "^[a-zA-Z0-9._%+-]+@(?:[a-zA-Z0-9-]+\\.)+(com|com\\.[a-zA-Z]{2,4})$"@
}

/// Relies on `regex::Regex::new` and `regex::Regex::is_match`: the email
/// pattern compiles, and by the crate's syntax (anchors at the ends of the
/// haystack, explicit ASCII ranges, no flags) a text matches it exactly when
/// `email_shape` holds of it.
#[verifier::external_body]
fn regex_is_match(pattern: &str, text: &str) -> (r: bool)
    requires
        pattern@ == email_pattern(),
    ensures
        r == email_shape(text@),
{
    match regex::Regex::new(pattern) {
        Ok(re) => re.is_match(text),
        Err(_) => false,
    }
}

/// Whether `email` has the accepted shape.
pub fn is_valid_email(email: &str) -> (r: bool)
    ensures
        r == email_shape(email@),
{
    regex_is_match("^[a-zA-Z0-9._%+-]+@(?:[a-zA-Z0-9-]+\\.)+(com|com\\.[a-zA-Z]{2,4})$", email)
}

} // verus!

//! Subscriber-name validation.
//!
//! A name is accepted when it is not made of whitespace alone, spans at
//! most 256 user-perceived characters (grapheme clusters, not code
//! points), and holds none of a fixed set of forbidden characters.

use unicode_segmentation::UnicodeSegmentation;
use vstd::prelude::*;
use vstd::string::StrSliceExecFns;
use vstd::string::StringExecFns;

verus! {

/// The number of extended grapheme clusters of a string, as the Unicode
/// text-segmentation rules split it.
pub uninterp spec fn grapheme_count(s: Seq<char>) -> nat;

/// Whether a character has the Unicode `White_Space` property.
pub uninterp spec fn is_whitespace_char(c: char) -> bool;

/// Relies on `unicode_segmentation::UnicodeSegmentation::graphemes`:
/// the iterator walks the extended grapheme clusters of the string, and
/// counting them depends on the characters alone.
#[verifier::external_body]
fn grapheme_count_of(s: &str) -> (n: usize)
    ensures
        n == grapheme_count(s@),
{
    s.graphemes(true).count()
}

/// Relies on `char::is_whitespace`: true exactly when the character has
/// the Unicode `White_Space` property, a fact of the character alone.
#[verifier::external_body]
fn char_is_whitespace(c: char) -> (r: bool)
    ensures
        r == is_whitespace_char(c),
{
    c.is_whitespace()
}

/// Whether every character of the string is whitespace. For a non-ghost
/// string this holds exactly when `str::trim` leaves nothing, and it
/// holds vacuously of the empty string.
pub open spec fn all_whitespace(s: Seq<char>) -> bool {
    forall|i: int| 0 <= i < s.len() ==> is_whitespace_char(#[trigger] s[i])
}

/// The characters a subscriber name may not contain.
pub open spec fn is_forbidden_char(c: char) -> bool {
    ||| c == '/'
    ||| c == '('
    ||| c == ')'
    ||| c == '"'
    ||| c == '<'
    ||| c == '>'
    ||| c == '\\'
    ||| c == '{'
    ||| c == '}'
}

pub open spec fn contains_forbidden_char(s: Seq<char>) -> bool {
    exists|i: int| 0 <= i < s.len() && is_forbidden_char(#[trigger] s[i])
}

/// The rule a subscriber name must meet: some non-whitespace content, at
/// most 256 graphemes, and no forbidden character.
pub open spec fn valid_subscriber_name(s: Seq<char>) -> bool {
    &&& !all_whitespace(s)
    &&& grapheme_count(s) <= 256
    &&& !contains_forbidden_char(s)
}

fn str_all_whitespace(s: &str) -> (r: bool)
    ensures
        r == all_whitespace(s@),
{
    let len = s.unicode_len();
    let mut i: usize = 0;
    while i < len
        invariant
            0 <= i <= len,
            len == s@.len(),
            forall|j: int| 0 <= j < i ==> is_whitespace_char(#[trigger] s@[j]),
        decreases len - i,
    {
        let c = s.get_char(i);
        if !char_is_whitespace(c) {
            return false;
        }
        i = i + 1;
    }
    true
}

fn str_contains_forbidden(s: &str) -> (r: bool)
    ensures
        r == contains_forbidden_char(s@),
{
    let len = s.unicode_len();
    let mut i: usize = 0;
    while i < len
        invariant
            0 <= i <= len,
            len == s@.len(),
            forall|j: int| 0 <= j < i ==> !is_forbidden_char(#[trigger] s@[j]),
        decreases len - i,
    {
        let c = s.get_char(i);
        if c == '/' || c == '(' || c == ')' || c == '"' || c == '<' || c == '>' || c == '\\'
            || c == '{' || c == '}' {
            assert(is_forbidden_char(s@[i as int]));
            return true;
        }
        i = i + 1;
    }
    false
}

/// A subscriber name that passed validation.
#[derive(Debug)]
pub struct SubscriberName(String);

impl View for SubscriberName {
    type V = Seq<char>;

    closed spec fn view(&self) -> Seq<char> {
        self.0@
    }
}

impl SubscriberName {
    /// Accepts the string exactly when it is a valid subscriber name;
    /// otherwise reports it back inside a diagnostic message. All three
    /// checks run on every call, so each one's cost is paid regardless
    /// of the outcome.
    pub fn parse(value: String) -> (r: Result<SubscriberName, String>)
        ensures
            r is Ok <==> valid_subscriber_name(value@),
            r is Ok ==> r->Ok_0@ == value@,
            r is Err ==> r->Err_0@ == value@ + " is not a valid subscriber name"@,
    {
        let is_empty_or_whitespace = str_all_whitespace(value.as_str());
        let is_too_long = grapheme_count_of(value.as_str()) > 256;
        let contains_forbidden_characters = str_contains_forbidden(value.as_str());

        if is_empty_or_whitespace || is_too_long || contains_forbidden_characters {
            let mut message = value;
            message.append(" is not a valid subscriber name");
            return Err(message);
        }
        Ok(SubscriberName(value))
    }

    pub fn as_str(&self) -> (r: &str)
        ensures
            r@ == self@,
    {
        self.0.as_str()
    }
}

} // verus!

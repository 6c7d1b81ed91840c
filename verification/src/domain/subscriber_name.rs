//! Subscriber names: not blank, at most 256 grapheme clusters, and free of
//! the characters that have a meaning in markup, paths and code.

use crate::text::{chars_of, joined};
use unicode_segmentation::UnicodeSegmentation;
use vstd::prelude::*;

verus! {

/// The largest number of grapheme clusters a name may have.
pub const MAX_NAME_GRAPHEMES: usize = 256;

/// Whether a character beyond ASCII has the Unicode `White_Space` property,
/// as `char::is_whitespace` reports it.
pub uninterp spec fn is_whitespace_beyond_ascii(c: char) -> bool;

/// The whitespace of ASCII: the space and the five characters from the tab
/// to the carriage return.
pub open spec fn is_ascii_whitespace(c: char) -> bool {
    c == ' ' || ('\t' <= c && c <= '\r')
}

/// Whether a character has the Unicode `White_Space` property.
pub open spec fn char_is_whitespace(c: char) -> bool {
    if c <= '\u{7f}' {
        is_ascii_whitespace(c)
    } else {
        is_whitespace_beyond_ascii(c)
    }
}

/// `char::is_whitespace` of std: the result is the character's `White_Space`
/// property, which depends on the character alone. Within ASCII it holds of
/// U+0020 and of U+0009 to U+000D and of nothing else.
pub assume_specification[ char::is_whitespace ](c: char) -> (b: bool)
    ensures
        b == if c <= '\u{7f}' {
            is_ascii_whitespace(c)
        } else {
            is_whitespace_beyond_ascii(c)
        },
;

/// The number of extended grapheme clusters of a text.
pub uninterp spec fn grapheme_count(s: Seq<char>) -> nat;

/// Counts what `UnicodeSegmentation::graphemes(s, true)` yields: the extended
/// grapheme clusters of `s`, a function of the text alone. Every cluster
/// holds at least one character, so there are no more clusters than
/// characters.
#[verifier::external_body]
fn count_graphemes(s: &str) -> (n: usize)
    ensures
        n == grapheme_count(s@),
        n <= s@.len(),
{
    s.graphemes(true).count()
}

/// A text is blank when it has no character that is not whitespace. The
/// empty text is blank.
pub open spec fn is_blank(s: Seq<char>) -> bool {
    forall|i: int| 0 <= i < s.len() ==> char_is_whitespace(#[trigger] s[i])
}

/// The characters no name may hold.
pub open spec fn is_forbidden_char(c: char) -> bool {
    c == '/' || c == '(' || c == ')' || c == '"' || c == '<' || c == '>' || c == '\\' || c == '{'
        || c == '}'
}

pub open spec fn has_forbidden_char(s: Seq<char>) -> bool {
    exists|i: int| 0 <= i < s.len() && is_forbidden_char(#[trigger] s[i])
}

/// What makes a text with `graphemes` grapheme clusters a subscriber name.
pub open spec fn is_valid_name(s: Seq<char>, graphemes: nat) -> bool {
    &&& !is_blank(s)
    &&& graphemes <= MAX_NAME_GRAPHEMES
    &&& !has_forbidden_char(s)
}

/// The message that goes with a rejected name.
pub open spec fn name_rejection(s: Seq<char>) -> Seq<char> {
    s + " is not a valid subscriber name."@
}

fn forbidden_char(c: char) -> (b: bool)
    ensures
        b == is_forbidden_char(c),
{
    c == '/' || c == '(' || c == ')' || c == '"' || c == '<' || c == '>' || c == '\\' || c == '{'
        || c == '}'
}

/// Decides whether `s` qualifies as a subscriber name, given the number of
/// grapheme clusters it has.
pub fn name_is_acceptable(s: &str, graphemes: usize) -> (ok: bool)
    ensures
        ok == is_valid_name(s@, graphemes as nat),
{
    let chars = chars_of(s);
    let mut blank: bool = true;
    let mut forbidden: bool = false;
    let mut i: usize = 0;
    while i < chars.len()
        invariant
            i <= chars.len(),
            chars@ == s@,
            blank == is_blank(s@.take(i as int)),
            forbidden == has_forbidden_char(s@.take(i as int)),
        decreases chars.len() - i,
    {
        let c = chars[i];
        proof {
            lemma_scan_step(s@, i as int);
        }
        blank = blank && c.is_whitespace();
        forbidden = forbidden || forbidden_char(c);
        i += 1;
    }
    assert(s@.take(s@.len() as int) == s@);
    !blank && graphemes <= MAX_NAME_GRAPHEMES && !forbidden
}

/// One more character of `s`: how blankness and forbidden characters of the
/// longer prefix follow from the shorter one.
proof fn lemma_scan_step(s: Seq<char>, i: int)
    requires
        0 <= i < s.len(),
    ensures
        is_blank(s.take(i + 1)) == (is_blank(s.take(i)) && char_is_whitespace(s[i])),
        has_forbidden_char(s.take(i + 1)) == (has_forbidden_char(s.take(i)) || is_forbidden_char(
            s[i],
        )),
{
    let before = s.take(i);
    let after = s.take(i + 1);
    assert(after[i] == s[i]);
    assert forall|k: int| 0 <= k < before.len() implies before[k] == after[k] by {}
    if is_blank(after) {
        assert forall|k: int| 0 <= k < before.len() implies char_is_whitespace(
            #[trigger] before[k],
        ) by {
            assert(before[k] == after[k]);
        }
    }
    if is_blank(before) && char_is_whitespace(s[i]) {
        assert forall|k: int| 0 <= k < after.len() implies char_is_whitespace(
            #[trigger] after[k],
        ) by {
            if k < before.len() {
                assert(before[k] == after[k]);
            }
        }
    }
    if has_forbidden_char(before) {
        let k = choose|k: int| 0 <= k < before.len() && is_forbidden_char(#[trigger] before[k]);
        assert(is_forbidden_char(after[k]));
    }
    if has_forbidden_char(after) {
        let k = choose|k: int| 0 <= k < after.len() && is_forbidden_char(#[trigger] after[k]);
        if k < i {
            assert(is_forbidden_char(before[k]));
        }
    }
}

/// The rules of a name, each on its own: a blank text is no name, and so
/// the empty text is none; a text of more than 256 grapheme clusters is no
/// name; a text that holds a forbidden character is no name; and every other
/// text is a name.
pub proof fn lemma_name_rules(s: Seq<char>, graphemes: nat, i: int)
    ensures
        s.len() == 0 ==> !is_valid_name(s, graphemes),
        is_blank(s) ==> !is_valid_name(s, graphemes),
        graphemes > 256 ==> !is_valid_name(s, graphemes),
        0 <= i < s.len() && is_forbidden_char(s[i]) ==> !is_valid_name(s, graphemes),
        0 <= i < s.len() && !char_is_whitespace(s[i]) && graphemes <= 256 && !has_forbidden_char(
            s,
        ) ==> is_valid_name(s, graphemes),
{
}

/// A subscriber's name, checked when it was made.
#[derive(Debug)]
pub struct SubscriberName(String);

impl View for SubscriberName {
    type V = Seq<char>;

    closed spec fn view(&self) -> Seq<char> {
        self.0@
    }
}

impl SubscriberName {
    #[verifier::type_invariant]
    spec fn well_formed(self) -> bool {
        is_valid_name(self.0@, grapheme_count(self.0@))
    }

    /// Makes a name of `s` if `s` is not blank, has at most 256 grapheme
    /// clusters and holds no forbidden character; otherwise says that `s`
    /// is not a valid name. A text has no more grapheme clusters than
    /// characters, so a text of at most 256 characters is never too long.
    pub fn parse(s: String) -> (r: Result<SubscriberName, String>)
        ensures
            r is Ok <==> is_valid_name(s@, grapheme_count(s@)),
            r matches Ok(name) ==> name@ == s@,
            r matches Err(e) ==> e@ == name_rejection(s@),
            grapheme_count(s@) <= s@.len(),
    {
        let graphemes = count_graphemes(s.as_str());
        if name_is_acceptable(s.as_str(), graphemes) {
            Ok(SubscriberName(s))
        } else {
            Err(joined(s.as_str(), " is not a valid subscriber name."))
        }
    }

    /// The name's text, which is always a valid name.
    pub fn as_ref(&self) -> (r: &str)
        ensures
            r@ == self@,
            is_valid_name(r@, grapheme_count(r@)),
    {
        proof {
            use_type_invariant(self);
        }
        self.0.as_str()
    }
}

} // verus!

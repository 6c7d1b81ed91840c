//! Subscriber email addresses: a local part, one `@`, and a domain of at
//! least two labels separated by dots.

use crate::text::{chars_of, is_letter_or_digit, joined, letter_or_digit};
use vstd::prelude::*;

verus! {

/// The longest local part an address may have.
pub const MAX_LOCAL_PART: usize = 64;

/// The longest domain an address may have.
pub const MAX_DOMAIN: usize = 255;

/// The longest label a domain may have.
pub const MAX_LABEL: usize = 63;

/// A character that may stand in the local part: a letter, a digit, or one
/// of ``.!#$%&'*+/=?^_`{|}~-``.
pub open spec fn is_local_char(c: char) -> bool {
    is_letter_or_digit(c) || c == '.' || c == '!' || c == '#' || c == '$' || c == '%' || c == '&'
        || c == '\'' || c == '*' || c == '+' || c == '/' || c == '=' || c == '?' || c == '^' || c
        == '_' || c == '`' || c == '{' || c == '|' || c == '}' || c == '~' || c == '-'
}

/// A character that may stand in a domain: a letter, a digit, `-` or `.`.
pub open spec fn is_domain_char(c: char) -> bool {
    is_letter_or_digit(c) || c == '-' || c == '.'
}

pub open spec fn is_local_part(s: Seq<char>) -> bool {
    &&& 1 <= s.len() <= MAX_LOCAL_PART
    &&& forall|i: int| 0 <= i < s.len() ==> is_local_char(#[trigger] s[i])
}

/// No dot in `s` from `from` up to, not including, `to`.
pub open spec fn dot_free(s: Seq<char>, from: int, to: int) -> bool {
    forall|k: int| from <= k < to ==> #[trigger] s[k] != '.'
}

/// Position `i` of `s` is the first or last character of a label: it stands
/// at an end of `s` or next to a dot.
pub open spec fn at_label_edge(s: Seq<char>, i: int) -> bool {
    i == 0 || i == s.len() - 1 || s[i - 1] == '.' || s[i + 1] == '.'
}

/// A domain is a run of labels separated by single dots, at least two of
/// them. A label has 1 to 63 letters, digits and hyphens, and neither begins
/// nor ends with a hyphen.
pub open spec fn is_domain(s: Seq<char>) -> bool {
    &&& 1 <= s.len() <= MAX_DOMAIN
    &&& forall|i: int| 0 <= i < s.len() ==> is_domain_char(#[trigger] s[i])
    &&& exists|i: int| 0 <= i < s.len() && #[trigger] s[i] == '.'
    &&& forall|i: int|
        0 <= i < s.len() && #[trigger] at_label_edge(s, i) ==> is_letter_or_digit(s[i])
    &&& forall|i: int, j: int|
        0 <= i <= j <= s.len() && #[trigger] dot_free(s, i, j) ==> j - i <= MAX_LABEL
}

/// `s` has an `@` at position `at`, a local part before it and a domain
/// after it.
pub open spec fn splits_at(s: Seq<char>, at: int) -> bool {
    &&& 0 <= at < s.len()
    &&& s[at] == '@'
    &&& is_local_part(s.subrange(0, at))
    &&& is_domain(s.subrange(at + 1, s.len() as int))
}

/// What makes a text an email address.
pub open spec fn is_valid_email(s: Seq<char>) -> bool {
    exists|at: int| #[trigger] splits_at(s, at)
}

/// The message that goes with a rejected address.
pub open spec fn email_rejection(s: Seq<char>) -> Seq<char> {
    s + " is not a valid subscriber email."@
}

fn local_char(c: char) -> (b: bool)
    ensures
        b == is_local_char(c),
{
    letter_or_digit(c) || c == '.' || c == '!' || c == '#' || c == '$' || c == '%' || c == '&'
        || c == '\'' || c == '*' || c == '+' || c == '/' || c == '=' || c == '?' || c == '^' || c
        == '_' || c == '`' || c == '{' || c == '|' || c == '}' || c == '~' || c == '-'
}

/// Whether the characters of `s` from `from` to `to` form a local part.
fn local_part_ok(s: &Vec<char>, from: usize, to: usize) -> (b: bool)
    requires
        from <= to <= s.len(),
    ensures
        b == is_local_part(s@.subrange(from as int, to as int)),
{
    let ghost part = s@.subrange(from as int, to as int);
    if to - from < 1 || to - from > MAX_LOCAL_PART {
        return false;
    }
    let mut i: usize = from;
    while i < to
        invariant
            from <= i <= to <= s.len(),
            part == s@.subrange(from as int, to as int),
            forall|k: int| 0 <= k < i - from ==> is_local_char(#[trigger] part[k]),
        decreases to - i,
    {
        if !local_char(s[i]) {
            assert(!is_local_char(part[i - from]));
            return false;
        }
        i += 1;
    }
    true
}

/// Whether the characters of `s` from `from` to its end form a domain.
fn domain_ok(s: &Vec<char>, from: usize) -> (b: bool)
    requires
        from <= s.len(),
    ensures
        b == is_domain(s@.subrange(from as int, s.len() as int)),
{
    let ghost d = s@.subrange(from as int, s.len() as int);
    let n = s.len() - from;
    if n < 1 || n > MAX_DOMAIN {
        return false;
    }
    let mut seen_dot: bool = false;
    let mut run: usize = 0;
    let mut i: usize = 0;
    while i < n
        invariant
            i <= n,
            n == d.len(),
            n == s.len() - from,
            d == s@.subrange(from as int, s.len() as int),
            forall|k: int| 0 <= k < i ==> is_domain_char(#[trigger] d[k]),
            seen_dot == exists|k: int| 0 <= k < i && #[trigger] d[k] == '.',
            forall|k: int|
                0 <= k < i && #[trigger] at_label_edge(d, k) ==> is_letter_or_digit(d[k]),
            run <= i,
            run <= MAX_LABEL,
            dot_free(d, i - run, i as int),
            run < i ==> d[i - run - 1] == '.',
            forall|a: int, b: int|
                0 <= a <= b <= i && #[trigger] dot_free(d, a, b) ==> b - a <= MAX_LABEL,
        decreases n - i,
    {
        let c = s[from + i];
        assert(c == d[i as int]);
        let edge = i == 0 || i == n - 1 || s[from + i - 1] == '.' || s[from + i + 1] == '.';
        assert(edge == at_label_edge(d, i as int)) by {
            if 0 < i {
                assert(d[i - 1] == s@[from + i - 1]);
            }
            if i < n - 1 {
                assert(d[i + 1] == s@[from + i + 1]);
            }
        }
        let c_ok = if c == '.' || c == '-' {
            !edge
        } else {
            letter_or_digit(c)
        };
        if !c_ok {
            proof {
                if !is_domain_char(c) {
                } else {
                    assert(at_label_edge(d, i as int));
                    assert(!is_letter_or_digit(d[i as int]));
                }
            }
            return false;
        }
        if c == '.' {
            seen_dot = true;
            run = 0;
            proof {
                assert forall|a: int, b: int|
                    0 <= a <= b <= i + 1 && #[trigger] dot_free(d, a, b) implies b - a
                    <= MAX_LABEL by {
                    if b == i + 1 && a <= i {
                        assert(d[i as int] == '.');
                    }
                }
            }
        } else {
            if run == MAX_LABEL {
                proof {
                    assert(dot_free(d, i - run, i + 1));
                }
                return false;
            }
            proof {
                let start = i - run;
                assert forall|a: int, b: int|
                    0 <= a <= b <= i + 1 && #[trigger] dot_free(d, a, b) implies b - a
                    <= MAX_LABEL by {
                    if b == i + 1 {
                        if a < start {
                            assert(d[start - 1] == '.');
                        }
                    } else {
                    }
                }
                assert(dot_free(d, start, i + 1));
            }
            run = run + 1;
        }
        i += 1;
    }
    seen_dot
}

/// The position of the first `@` of `s`, if it has one.
fn first_at(s: &Vec<char>) -> (r: Option<usize>)
    ensures
        r matches Some(at) ==> at < s.len() && s[at as int] == '@' && forall|k: int|
            0 <= k < at ==> #[trigger] s[k] != '@',
        r is None ==> forall|k: int| 0 <= k < s.len() ==> #[trigger] s[k] != '@',
{
    let mut i: usize = 0;
    while i < s.len()
        invariant
            i <= s.len(),
            forall|k: int| 0 <= k < i ==> #[trigger] s[k] != '@',
        decreases s.len() - i,
    {
        if s[i] == '@' {
            return Some(i);
        }
        i += 1;
    }
    None
}

/// Decides whether `s` is an email address.
pub fn email_is_acceptable(s: &str) -> (ok: bool)
    ensures
        ok == is_valid_email(s@),
{
    let chars = chars_of(s);
    match first_at(&chars) {
        None => {
            assert forall|at: int| !splits_at(s@, at) by {}
            false
        },
        Some(at) => {
            let ok = local_part_ok(&chars, 0, at) && domain_ok(&chars, at + 1);
            proof {
                if ok {
                    assert(splits_at(s@, at as int));
                } else {
                    assert forall|other: int| !splits_at(s@, other) by {
                        if splits_at(s@, other) {
                            if other < at {
                                assert(s@[other] == '@');
                            } else if other > at {
                                let local = s@.subrange(0, other);
                                assert(local[at as int] == '@');
                                assert(is_local_char(local[at as int]));
                            }
                        }
                    }
                }
            }
            ok
        },
    }
}

/// The shape of every email address: it has exactly one `@`, at least one
/// character before it, and a dot somewhere after it. So the empty text and
/// a text without `@` are no addresses.
pub proof fn lemma_email_shape(s: Seq<char>)
    requires
        is_valid_email(s),
    ensures
        exists|at: int|
            {
                &&& 0 < at < s.len() - 1
                &&& #[trigger] s[at] == '@'
                &&& forall|k: int| 0 <= k < s.len() && k != at ==> #[trigger] s[k] != '@'
                &&& exists|dot: int| at < dot < s.len() && #[trigger] s[dot] == '.'
            },
{
    let at = choose|at: int| #[trigger] splits_at(s, at);
    let local = s.subrange(0, at);
    let domain = s.subrange(at + 1, s.len() as int);
    assert forall|k: int| 0 <= k < s.len() && k != at implies #[trigger] s[k] != '@' by {
        if k < at {
            assert(is_local_char(local[k]));
        } else {
            assert(is_domain_char(domain[k - at - 1]));
        }
    }
    let d = choose|d: int| 0 <= d < domain.len() && #[trigger] domain[d] == '.';
    assert(s[at + 1 + d] == '.');
}

/// A subscriber's email address, checked when it was made.
#[derive(Debug)]
pub struct SubscriberEmail(String);

impl View for SubscriberEmail {
    type V = Seq<char>;

    closed spec fn view(&self) -> Seq<char> {
        self.0@
    }
}

impl SubscriberEmail {
    #[verifier::type_invariant]
    spec fn well_formed(self) -> bool {
        is_valid_email(self.0@)
    }

    /// Makes an address of `s` if `s` is an email address; otherwise says
    /// that `s` is not a valid address.
    pub fn parse(s: String) -> (r: Result<SubscriberEmail, String>)
        ensures
            r is Ok <==> is_valid_email(s@),
            r matches Ok(email) ==> email@ == s@,
            r matches Err(e) ==> e@ == email_rejection(s@),
    {
        if email_is_acceptable(s.as_str()) {
            Ok(SubscriberEmail(s))
        } else {
            Err(joined(s.as_str(), " is not a valid subscriber email."))
        }
    }

    /// The address's text, which is always a valid address.
    pub fn as_ref(&self) -> (r: &str)
        ensures
            r@ == self@,
            is_valid_email(r@),
    {
        proof {
            use_type_invariant(self);
        }
        self.0.as_str()
    }
}

} // verus!

//! Character-level format rules for email addresses and phone numbers,
//! together with a verified ASCII-case-insensitive string comparison.
//!
//! An email address is accepted when it is built as `local@domain.top`:
//! a non-empty local part of letters, digits and `. _ % + -`, one `@`,
//! a non-empty domain part of letters, digits and `. -`, a final dot, and
//! a top-level label of at least two letters. A phone number is accepted
//! when it is at least three digits or whitespace characters, optionally
//! led by `+`. Both rules are deliberately ASCII-only: letters, digits
//! and whitespace outside ASCII are rejected.

use vstd::prelude::*;

verus! {

/// Characters allowed in the local part of an email address (before `@`).
pub open spec fn is_local_char(c: char) -> bool {
    ||| 'a' <= c && c <= 'z'
    ||| 'A' <= c && c <= 'Z'
    ||| '0' <= c && c <= '9'
    ||| c == '.'
    ||| c == '_'
    ||| c == '%'
    ||| c == '+'
    ||| c == '-'
}

/// Characters allowed in the domain part of an email address.
pub open spec fn is_domain_char(c: char) -> bool {
    ||| 'a' <= c && c <= 'z'
    ||| 'A' <= c && c <= 'Z'
    ||| '0' <= c && c <= '9'
    ||| c == '.'
    ||| c == '-'
}

/// ASCII letters, the only characters allowed in the top-level label.
pub open spec fn is_alpha_char(c: char) -> bool {
    ||| 'a' <= c && c <= 'z'
    ||| 'A' <= c && c <= 'Z'
}

/// ASCII digits and ASCII whitespace, the characters allowed in a phone
/// number after the optional leading `+`. Digit and space characters
/// outside ASCII are deliberately not accepted.
pub open spec fn is_phone_char(c: char) -> bool {
    ||| '0' <= c && c <= '9'
    ||| c == ' '
    ||| c == '\t'
    ||| c == '\n'
    ||| c == '\r'
    ||| c == '\u{B}'
    ||| c == '\u{C}'
}

/// `s`, cut at an `@` in position `at` and a dot in position `dot`, has
/// the accepted email shape: a non-empty local part of local characters,
/// a non-empty domain part of domain characters, and a top-level label of
/// at least two letters.
pub open spec fn email_split_ok(s: Seq<char>, at: int, dot: int) -> bool {
    &&& 1 <= at
    &&& at + 2 <= dot
    &&& dot + 3 <= s.len()
    &&& s[at] == '@'
    &&& s[dot] == '.'
    &&& forall|j: int| 0 <= j < at ==> is_local_char(#[trigger] s[j])
    &&& forall|j: int| at < j < dot ==> is_domain_char(#[trigger] s[j])
    &&& forall|j: int| dot < j < s.len() ==> is_alpha_char(#[trigger] s[j])
}

/// An email address is accepted exactly when some split of it has the
/// accepted shape.
pub open spec fn is_valid_email(s: Seq<char>) -> bool {
    exists|at: int, dot: int| email_split_ok(s, at, dot)
}

/// A phone number is accepted exactly when it consists of at least three
/// ASCII digits or whitespace characters, optionally led by a single `+`.
pub open spec fn is_valid_phone(s: Seq<char>) -> bool {
    if s.len() > 0 && s[0] == '+' {
        s.len() >= 4 && forall|j: int| 1 <= j < s.len() ==> is_phone_char(#[trigger] s[j])
    } else {
        s.len() >= 3 && forall|j: int| 0 <= j < s.len() ==> is_phone_char(#[trigger] s[j])
    }
}

/// The character classes the scanners below can test a range against.
#[derive(Clone, Copy, Debug, PartialEq, Eq, Structural)]
pub enum CharClass {
    Local,
    Domain,
    Alpha,
    PhoneDigit,
}

/// What it means for a character to lie in a class.
pub open spec fn in_class(cc: CharClass, c: char) -> bool {
    match cc {
        CharClass::Local => is_local_char(c),
        CharClass::Domain => is_domain_char(c),
        CharClass::Alpha => is_alpha_char(c),
        CharClass::PhoneDigit => is_phone_char(c),
    }
}

/// Decides membership of one character in one class.
fn char_in_class(cc: CharClass, c: char) -> (r: bool)
    ensures
        r == in_class(cc, c),
{
    match cc {
        CharClass::Local => {
            ('a' <= c && c <= 'z') || ('A' <= c && c <= 'Z') || ('0' <= c && c <= '9') || c == '.'
                || c == '_' || c == '%' || c == '+' || c == '-'
        },
        CharClass::Domain => {
            ('a' <= c && c <= 'z') || ('A' <= c && c <= 'Z') || ('0' <= c && c <= '9') || c == '.'
                || c == '-'
        },
        CharClass::Alpha => ('a' <= c && c <= 'z') || ('A' <= c && c <= 'Z'),
        CharClass::PhoneDigit => {
            ('0' <= c && c <= '9') || c == ' ' || c == '\t' || c == '\n' || c == '\r'
                || c == '\u{B}' || c == '\u{C}'
        },
    }
}

/// Decides whether every character of `s` in `[from, to)` lies in `cc`.
fn all_in_class(s: &str, from: usize, to: usize, cc: CharClass) -> (r: bool)
    requires
        from <= to <= s@.len(),
    ensures
        r == forall|j: int| from <= j < to ==> in_class(cc, #[trigger] s@[j]),
{
    let mut i: usize = from;
    while i < to
        invariant
            from <= i <= to <= s@.len(),
            forall|j: int| from <= j < i ==> in_class(cc, #[trigger] s@[j]),
        decreases to - i,
    {
        if !char_in_class(cc, s.get_char(i)) {
            return false;
        }
        i = i + 1;
    }
    true
}

/// Finds the first occurrence of `target` in `s` within `[from, to)`.
fn find_first(s: &str, target: char, from: usize, to: usize) -> (r: Option<usize>)
    requires
        from <= to <= s@.len(),
    ensures
        match r {
            Some(k) => {
                &&& from <= k < to
                &&& s@[k as int] == target
                &&& forall|j: int| from <= j < k ==> s@[j] != target
            },
            None => forall|j: int| from <= j < to ==> s@[j] != target,
        },
{
    let mut i: usize = from;
    while i < to
        invariant
            from <= i <= to <= s@.len(),
            forall|j: int| from <= j < i ==> s@[j] != target,
        decreases to - i,
    {
        if s.get_char(i) == target {
            return Some(i);
        }
        i = i + 1;
    }
    None
}

/// Finds the last occurrence of `target` in `s` within `[from, to)`.
fn find_last(s: &str, target: char, from: usize, to: usize) -> (r: Option<usize>)
    requires
        from <= to <= s@.len(),
    ensures
        match r {
            Some(k) => {
                &&& from <= k < to
                &&& s@[k as int] == target
                &&& forall|j: int| k < j < to ==> s@[j] != target
            },
            None => forall|j: int| from <= j < to ==> s@[j] != target,
        },
{
    let mut i: usize = to;
    while i > from
        invariant
            from <= i <= to <= s@.len(),
            forall|j: int| i <= j < to ==> s@[j] != target,
        decreases i,
    {
        i = i - 1;
        if s.get_char(i) == target {
            return Some(i);
        }
    }
    None
}

/// In a string with an accepted split, the `@` of the split is the first
/// `@`, and the dot of the split is the last dot after it; so a split
/// through those two positions is itself accepted.
proof fn lemma_email_split_determined(s: Seq<char>, at: int, dot: int)
    requires
        is_valid_email(s),
        0 <= at < s.len(),
        s[at] == '@',
        forall|j: int| 0 <= j < at ==> s[j] != '@',
        at < dot < s.len(),
        s[dot] == '.',
        forall|j: int| dot < j < s.len() ==> s[j] != '.',
    ensures
        email_split_ok(s, at, dot),
{
    let (a, d): (int, int) = choose|a: int, d: int| email_split_ok(s, a, d);
    assert(email_split_ok(s, a, d));
    if a < at {
        assert(s[a] != '@');
        assert(false);
    }
    if at < a {
        assert(is_local_char(s[at]));
        assert(false);
    }
    if d < dot {
        assert(is_alpha_char(s[dot]));
        assert(false);
    }
    if dot < d {
        assert(s[d] != '.');
        assert(false);
    }
}

/// If a string has an accepted split, its first `@` exists; this names the
/// dot of that split for the checker's failure branches.
proof fn lemma_email_first_at(s: Seq<char>, at: int) -> (dot: int)
    requires
        is_valid_email(s),
        0 <= at < s.len(),
        s[at] == '@',
        forall|j: int| 0 <= j < at ==> s[j] != '@',
    ensures
        email_split_ok(s, at, dot),
{
    let (a, d): (int, int) = choose|a: int, d: int| email_split_ok(s, a, d);
    assert(email_split_ok(s, a, d));
    if a < at {
        assert(s[a] != '@');
        assert(false);
    }
    if at < a {
        assert(is_local_char(s[at]));
        assert(false);
    }
    d
}

/// Decides whether `s` has the accepted email shape.
pub fn check_email(s: &str) -> (r: bool)
    ensures
        r == is_valid_email(s@),
{
    let n = s.unicode_len();
    match find_first(s, '@', 0, n) {
        None => {
            proof {
                if is_valid_email(s@) {
                    let (a, d): (int, int) = choose|a: int, d: int| email_split_ok(s@, a, d);
                    assert(email_split_ok(s@, a, d));
                    assert(s@[a] == '@');
                    assert(false);
                }
            }
            false
        },
        Some(at) => {
            if at < 1 {
                proof {
                    if is_valid_email(s@) {
                        let d = lemma_email_first_at(s@, at as int);
                        assert(false);
                    }
                }
                return false;
            }
            if !all_in_class(s, 0, at, CharClass::Local) {
                proof {
                    if is_valid_email(s@) {
                        let d = lemma_email_first_at(s@, at as int);
                        assert(false);
                    }
                }
                return false;
            }
            match find_last(s, '.', at + 1, n) {
                None => {
                    proof {
                        if is_valid_email(s@) {
                            let d = lemma_email_first_at(s@, at as int);
                            assert(at + 1 <= d < n);
                            assert(s@[d] == '.');
                            assert(false);
                        }
                    }
                    false
                },
                Some(dot) => {
                    let shape_ok = dot - at >= 2 && n - dot >= 3
                        && all_in_class(s, at + 1, dot, CharClass::Domain)
                        && all_in_class(s, dot + 1, n, CharClass::Alpha);
                    proof {
                        if shape_ok {
                            assert(email_split_ok(s@, at as int, dot as int));
                        } else {
                            if is_valid_email(s@) {
                                lemma_email_split_determined(s@, at as int, dot as int);
                                assert(false);
                            }
                        }
                    }
                    shape_ok
                },
            }
        },
    }
}

/// Decides whether `s` has the accepted phone shape.
pub fn check_phone(s: &str) -> (r: bool)
    ensures
        r == is_valid_phone(s@),
{
    let n = s.unicode_len();
    if n == 0 {
        return false;
    }
    if s.get_char(0) == '+' {
        n >= 4 && all_in_class(s, 1, n, CharClass::PhoneDigit)
    } else {
        n >= 3 && all_in_class(s, 0, n, CharClass::PhoneDigit)
    }
}

/// Two characters are the same up to ASCII case: they are equal, or they
/// are the upper- and lower-case forms of one ASCII letter, whose code
/// points differ by 32.
pub open spec fn same_char_ignore_ascii_case(a: char, b: char) -> bool {
    ||| a == b
    ||| ('A' <= a && a <= 'Z' && 'a' <= b && b <= 'z' && b as int - a as int == 32)
    ||| ('a' <= a && a <= 'z' && 'A' <= b && b <= 'Z' && a as int - b as int == 32)
}

/// Two strings are equal up to ASCII case: same length, and the same
/// character up to ASCII case at every position.
pub open spec fn eq_ignore_ascii_case(a: Seq<char>, b: Seq<char>) -> bool {
    a.len() == b.len() && forall|i: int|
        0 <= i < a.len() ==> #[trigger] same_char_ignore_ascii_case(a[i], b[i])
}

/// Decides whether two characters are the same up to ASCII case.
fn char_eq_ignore_ascii_case(a: char, b: char) -> (r: bool)
    ensures
        r == same_char_ignore_ascii_case(a, b),
{
    if a == b {
        true
    } else if 'A' <= a && a <= 'Z' && 'a' <= b && b <= 'z' {
        (b as u32) - (a as u32) == 32
    } else if 'a' <= a && a <= 'z' && 'A' <= b && b <= 'Z' {
        (a as u32) - (b as u32) == 32
    } else {
        false
    }
}

/// Decides whether two strings are equal up to ASCII case.
pub fn str_eq_ignore_ascii_case(a: &str, b: &str) -> (r: bool)
    ensures
        r == eq_ignore_ascii_case(a@, b@),
{
    let na = a.unicode_len();
    let nb = b.unicode_len();
    if na != nb {
        return false;
    }
    let mut i: usize = 0;
    while i < na
        invariant
            i <= na,
            na == a@.len(),
            nb == b@.len(),
            na == nb,
            forall|j: int| 0 <= j < i ==> #[trigger] same_char_ignore_ascii_case(a@[j], b@[j]),
        decreases na - i,
    {
        if !char_eq_ignore_ascii_case(a.get_char(i), b.get_char(i)) {
            return false;
        }
        i = i + 1;
    }
    true
}

} // verus!

//! Registration validation: the institutional email pattern, the phone
//! pattern, and the password strength rules, each stated exactly as a
//! predicate over character sequences and decided by a verified matcher.

use vstd::prelude::*;
use vstd::string::StrSliceExecFns;

verus! {

/// A character the local part of an institutional address may start and
/// end with: a lowercase letter, a digit, an underscore or a plus sign.
pub open spec fn is_local_char(c: char) -> bool {
    ('a' <= c && c <= 'z') || ('0' <= c && c <= '9') || c == '_' || c == '+'
}

/// A character allowed anywhere inside the local part: the start/end
/// class extended by the dot.
pub open spec fn is_local_dot_char(c: char) -> bool {
    is_local_char(c) || c == '.'
}

/// The nine-character institutional domain suffix `@aubg.edu`.
pub open spec fn has_email_suffix(s: Seq<char>) -> bool {
    s.len() >= 9 && s[s.len() - 9] == '@' && s[s.len() - 8] == 'a' && s[s.len() - 7] == 'u'
        && s[s.len() - 6] == 'b' && s[s.len() - 5] == 'g' && s[s.len() - 4] == '.' && s[s.len()
        - 3] == 'e' && s[s.len() - 2] == 'd' && s[s.len() - 1] == 'u'
}

/// The institutional email pattern: a non-empty local part whose
/// characters are lowercase letters, digits, underscores, plus signs or
/// inner dots — never a dot at either end — followed by the
/// institutional domain.
pub open spec fn valid_email(s: Seq<char>) -> bool {
    s.len() >= 10 && has_email_suffix(s) && is_local_char(s[0]) && is_local_char(s[s.len() - 10])
        && (forall|i: int| 0 <= i < s.len() - 9 ==> is_local_dot_char(s[i]))
}

/// A decimal digit.
pub open spec fn is_digit(c: char) -> bool {
    '0' <= c && c <= '9'
}

/// A separator the phone pattern allows between digit groups.
pub open spec fn is_sep(c: char) -> bool {
    c == '-' || c == '.' || c == ' '
}

/// `count` digits starting at `start`.
pub open spec fn digits_at(s: Seq<char>, start: int, count: int) -> bool {
    forall|i: int| 0 <= i < count ==> is_digit(#[trigger] s[start + i])
}

/// The phone pattern: an optional leading plus, two digits, an optional
/// separator (dash, dot or space), four digits, an optional separator,
/// and four final digits, with nothing after them.
pub open spec fn valid_phone(s: Seq<char>) -> bool {
    let t = if s.len() > 0 && s[0] == '+' {
        s.drop_first()
    } else {
        s
    };
    t.len() >= 3 && is_digit(t[0]) && is_digit(t[1]) && {
        let u = if is_sep(t[2]) {
            t.subrange(3, t.len() as int)
        } else {
            t.subrange(2, t.len() as int)
        };
        u.len() >= 5 && digits_at(u, 0, 4) && {
            let v = if is_sep(u[4]) {
                u.subrange(5, u.len() as int)
            } else {
                u.subrange(4, u.len() as int)
            };
            v.len() == 4 && digits_at(v, 0, 4)
        }
    }
}

/// A special character the password rules accept.
pub open spec fn is_special(c: char) -> bool {
    c == '@' || c == '$' || c == '!' || c == '%' || c == '*' || c == '?' || c == '&'
}

/// The password strength rules: at least eight characters, with at least
/// one lowercase letter, one uppercase letter, one digit and one special
/// character.
pub open spec fn valid_password(s: Seq<char>) -> bool {
    s.len() >= 8 && (exists|i: int| 0 <= i < s.len() && 'a' <= #[trigger] s[i] && s[i] <= 'z') && (
    exists|i: int| 0 <= i < s.len() && 'A' <= #[trigger] s[i] && s[i] <= 'Z') && (exists|i: int|
        0 <= i < s.len() && is_digit(#[trigger] s[i])) && (exists|i: int|
        0 <= i < s.len() && is_special(#[trigger] s[i]))
}

/// Decides the institutional email pattern.
pub fn check_email(s: &str) -> (r: bool)
    ensures
        r == valid_email(s@),
{
    let n = s.unicode_len();
    if n < 10 {
        return false;
    }
    if !(s.get_char(n - 9) == '@' && s.get_char(n - 8) == 'a' && s.get_char(n - 7) == 'u'
        && s.get_char(n - 6) == 'b' && s.get_char(n - 5) == 'g' && s.get_char(n - 4) == '.'
        && s.get_char(n - 3) == 'e' && s.get_char(n - 2) == 'd' && s.get_char(n - 1) == 'u') {
        return false;
    }
    let first = s.get_char(0);
    if !(('a' <= first && first <= 'z') || ('0' <= first && first <= '9') || first == '_' || first
        == '+') {
        return false;
    }
    let last_local = s.get_char(n - 10);
    if !(('a' <= last_local && last_local <= 'z') || ('0' <= last_local && last_local <= '9')
        || last_local == '_' || last_local == '+') {
        return false;
    }
    let mut i: usize = 0;
    while i < n - 9
        invariant
            n == s@.len(),
            n >= 10,
            i <= n - 9,
            forall|j: int| 0 <= j < i ==> is_local_dot_char(s@[j]),
        decreases n - 9 - i,
    {
        let c = s.get_char(i);
        if !(('a' <= c && c <= 'z') || ('0' <= c && c <= '9') || c == '_' || c == '+' || c == '.') {
            return false;
        }
        i += 1;
    }
    true
}

/// Decides the digit class.
fn is_digit_exec(c: char) -> (r: bool)
    ensures
        r == is_digit(c),
{
    '0' <= c && c <= '9'
}

/// Decides the separator class.
fn is_sep_exec(c: char) -> (r: bool)
    ensures
        r == is_sep(c),
{
    c == '-' || c == '.' || c == ' '
}

/// Four digits starting at `start`, spelled out index by index.
proof fn lemma_digits_at_4(s: Seq<char>, start: int)
    requires
        0 <= start,
        start + 4 <= s.len(),
    ensures
        digits_at(s, start, 4) <==> (is_digit(s[start]) && is_digit(s[start + 1]) && is_digit(
            s[start + 2],
        ) && is_digit(s[start + 3])),
{
    if digits_at(s, start, 4) {
        assert(is_digit(s[start + 0]));
        assert(is_digit(s[start + 1]));
        assert(is_digit(s[start + 2]));
        assert(is_digit(s[start + 3]));
    }
    if is_digit(s[start]) && is_digit(s[start + 1]) && is_digit(s[start + 2]) && is_digit(
        s[start + 3],
    ) {
        assert forall|i: int| 0 <= i < 4 implies is_digit(#[trigger] s[start + i]) by {
            if i == 0 {
                assert(is_digit(s[start + 0]));
            } else if i == 1 {
                assert(is_digit(s[start + 1]));
            } else if i == 2 {
                assert(is_digit(s[start + 2]));
            } else {
                assert(is_digit(s[start + 3]));
            }
        }
    }
}

/// Decides the phone pattern.
pub fn check_phone(s: &str) -> (r: bool)
    ensures
        r == valid_phone(s@),
{
    let n = s.unicode_len();
    let ghost t = if s@.len() > 0 && s@[0] == '+' {
        s@.drop_first()
    } else {
        s@
    };
    let mut p: usize = 0;
    if n > 0 && s.get_char(0) == '+' {
        p = 1;
    }
    assert(forall|i: int| 0 <= i < t.len() ==> t[i] == s@[p + i]);
    if n - p < 3 {
        return false;
    }
    if !(is_digit_exec(s.get_char(p)) && is_digit_exec(s.get_char(p + 1))) {
        return false;
    }
    let after_sep1: usize = if is_sep_exec(s.get_char(p + 2)) {
        p + 3
    } else {
        p + 2
    };
    let ghost u = if is_sep(t[2]) {
        t.subrange(3, t.len() as int)
    } else {
        t.subrange(2, t.len() as int)
    };
    assert(forall|i: int| 0 <= i < u.len() ==> u[i] == s@[after_sep1 + i]);
    if n - after_sep1 < 5 {
        return false;
    }
    let g0 = is_digit_exec(s.get_char(after_sep1)) && is_digit_exec(s.get_char(after_sep1 + 1))
        && is_digit_exec(s.get_char(after_sep1 + 2)) && is_digit_exec(s.get_char(after_sep1 + 3));
    proof {
        assert(u[0] == s@[after_sep1 + 0]);
        assert(u[1] == s@[after_sep1 + 1]);
        assert(u[2] == s@[after_sep1 + 2]);
        assert(u[3] == s@[after_sep1 + 3]);
        lemma_digits_at_4(u, 0);
        assert(g0 == digits_at(u, 0, 4));
    }
    if !g0 {
        return false;
    }
    let after_sep2: usize = if is_sep_exec(s.get_char(after_sep1 + 4)) {
        after_sep1 + 5
    } else {
        after_sep1 + 4
    };
    let ghost v = if is_sep(u[4]) {
        u.subrange(5, u.len() as int)
    } else {
        u.subrange(4, u.len() as int)
    };
    assert(forall|i: int| 0 <= i < v.len() ==> v[i] == s@[after_sep2 + i]);
    if n - after_sep2 != 4 {
        return false;
    }
    let r = is_digit_exec(s.get_char(after_sep2)) && is_digit_exec(s.get_char(after_sep2 + 1))
        && is_digit_exec(s.get_char(after_sep2 + 2)) && is_digit_exec(s.get_char(after_sep2 + 3));
    proof {
        assert(v[0] == s@[after_sep2 + 0]);
        assert(v[1] == s@[after_sep2 + 1]);
        assert(v[2] == s@[after_sep2 + 2]);
        assert(v[3] == s@[after_sep2 + 3]);
        lemma_digits_at_4(v, 0);
        assert(r == digits_at(v, 0, 4));
    }
    r
}

/// Decides the password strength rules.
pub fn check_password(s: &str) -> (r: bool)
    ensures
        r == valid_password(s@),
{
    let n = s.unicode_len();
    if n < 8 {
        return false;
    }
    let mut has_lower = false;
    let mut has_upper = false;
    let mut has_digit = false;
    let mut has_special = false;
    let mut i: usize = 0;
    while i < n
        invariant
            n == s@.len(),
            i <= n,
            has_lower == exists|j: int| 0 <= j < i && 'a' <= #[trigger] s@[j] && s@[j] <= 'z',
            has_upper == exists|j: int| 0 <= j < i && 'A' <= #[trigger] s@[j] && s@[j] <= 'Z',
            has_digit == exists|j: int| 0 <= j < i && is_digit(#[trigger] s@[j]),
            has_special == exists|j: int| 0 <= j < i && is_special(#[trigger] s@[j]),
        decreases n - i,
    {
        let c = s.get_char(i);
        if 'a' <= c && c <= 'z' {
            has_lower = true;
        }
        if 'A' <= c && c <= 'Z' {
            has_upper = true;
        }
        if '0' <= c && c <= '9' {
            has_digit = true;
        }
        if c == '@' || c == '$' || c == '!' || c == '%' || c == '*' || c == '?' || c == '&' {
            has_special = true;
        }
        i += 1;
    }
    has_lower && has_upper && has_digit && has_special
}

} // verus!

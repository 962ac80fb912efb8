//! Verified string utilities: equality, substring search, ASCII case
//! folding, trimming, and decimal rendering of integers.
//!
//! All free-text matching in the search engine and all validation in the
//! session service is specified over `Seq<char>` views through the spec
//! functions of this module.

use vstd::prelude::*;
use vstd::string::StrSliceExecFns;
use vstd::string::StringExecFns;

verus! {

/// Maps an ASCII uppercase letter to its lowercase form; leaves every
/// other character unchanged.
pub open spec fn lower_char(c: char) -> char {
    if 65 <= (c as u32) && (c as u32) <= 90 {
        (((c as u32) + 32) as u8) as char
    } else {
        c
    }
}

/// ASCII-lowercases a character sequence pointwise. The folding is
/// deliberately ASCII-only: characters outside the ASCII range pass
/// through unchanged, where a full Unicode folding could rewrite them.
pub open spec fn lower_seq(s: Seq<char>) -> Seq<char> {
    s.map_values(|c: char| lower_char(c))
}

/// ASCII whitespace, the class stripped from the ends of a search query.
pub open spec fn is_space(c: char) -> bool {
    c == ' ' || c == '\t' || c == '\n' || c == '\r'
}

/// Drops leading whitespace.
pub open spec fn trim_front(s: Seq<char>) -> Seq<char>
    decreases s.len(),
{
    if s.len() > 0 && is_space(s[0]) {
        trim_front(s.drop_first())
    } else {
        s
    }
}

/// Drops trailing whitespace.
pub open spec fn trim_back(s: Seq<char>) -> Seq<char>
    decreases s.len(),
{
    if s.len() > 0 && is_space(s.last()) {
        trim_back(s.drop_last())
    } else {
        s
    }
}

/// Drops whitespace from both ends. Deliberately ASCII-only: whitespace
/// outside the ASCII class is kept, where a full Unicode trim would
/// strip it.
pub open spec fn trimmed(s: Seq<char>) -> Seq<char> {
    trim_back(trim_front(s))
}

/// The needle occurs contiguously at position `k` of the haystack.
pub open spec fn match_at(needle: Seq<char>, hay: Seq<char>, k: int) -> bool {
    0 <= k && k + needle.len() <= hay.len() && hay.subrange(k, k + needle.len()) == needle
}

/// The needle occurs contiguously somewhere in the haystack; an empty
/// needle occurs in every haystack.
pub open spec fn is_substring(needle: Seq<char>, hay: Seq<char>) -> bool {
    exists|k: int| match_at(needle, hay, k)
}

/// The decimal digit character for a value below ten.
pub open spec fn dec_digit(d: nat) -> char {
    ((48 + d) as u8) as char
}

/// Decimal digits of a non-negative integer, most significant first.
pub open spec fn dec_seq(n: nat) -> Seq<char>
    decreases n,
{
    if n < 10 {
        seq![dec_digit(n)]
    } else {
        dec_seq(n / 10).push(dec_digit(n % 10))
    }
}

/// Decimal rendering of a signed integer, with a leading minus sign for
/// negative values, exactly as the standard formatter prints it.
pub open spec fn i32_dec(n: int) -> Seq<char> {
    if n < 0 {
        seq!['-'] + dec_seq((-n) as nat)
    } else {
        dec_seq(n as nat)
    }
}

/// Relies on `String::push`: appends one character to the string.
#[verifier::external_body]
fn push_char(s: &mut String, c: char)
    ensures
        final(s)@ == old(s)@.push(c),
{
    s.push(c)
}

/// Compares two string slices for equality of their character sequences.
pub fn str_eq(a: &str, b: &str) -> (r: bool)
    ensures
        r == (a@ == b@),
{
    let a_owned: String = a.to_owned();
    let b_owned: String = b.to_owned();
    a_owned == b_owned
}

/// ASCII-lowercases one character.
pub fn lower_char_exec(c: char) -> (r: char)
    ensures
        r == lower_char(c),
{
    let u = c as u32;
    if 65 <= u && u <= 90 {
        ((u + 32) as u8) as char
    } else {
        c
    }
}

/// ASCII-lowercases a string; characters outside the ASCII range pass
/// through unchanged.
pub fn to_lower(s: &str) -> (r: String)
    ensures
        r@ == lower_seq(s@),
{
    let n = s.unicode_len();
    let mut r = String::new();
    let mut i: usize = 0;
    while i < n
        invariant
            n == s@.len(),
            i <= n,
            r@.len() == i,
            forall|j: int| 0 <= j < i ==> r@[j] == lower_char(s@[j]),
        decreases n - i,
    {
        let c = lower_char_exec(s.get_char(i));
        push_char(&mut r, c);
        i += 1;
    }
    assert(r@ =~= lower_seq(s@));
    r
}

proof fn lemma_trim_front_subrange(s: Seq<char>, i: int)
    requires
        0 <= i <= s.len(),
        forall|j: int| 0 <= j < i ==> is_space(s[j]),
        i == s.len() || !is_space(s[i]),
    ensures
        trim_front(s) == s.subrange(i, s.len() as int),
    decreases i,
{
    if i == 0 {
        assert(s.subrange(0, s.len() as int) =~= s);
    } else {
        assert(is_space(s[0]));
        lemma_trim_front_subrange(s.drop_first(), i - 1);
        assert(s.drop_first().subrange(i - 1, s.drop_first().len() as int) =~= s.subrange(
            i,
            s.len() as int,
        ));
    }
}

proof fn lemma_trim_back_subrange(s: Seq<char>, e: int)
    requires
        0 <= e <= s.len(),
        forall|j: int| e <= j < s.len() ==> is_space(s[j]),
        e == 0 || !is_space(s[e - 1]),
    ensures
        trim_back(s) == s.subrange(0, e),
    decreases s.len() - e,
{
    if e == s.len() {
        assert(s.subrange(0, e) =~= s);
    } else {
        assert(is_space(s.last()));
        lemma_trim_back_subrange(s.drop_last(), e);
        assert(s.drop_last().subrange(0, e) =~= s.subrange(0, e));
    }
}

/// Tests one character for ASCII whitespace.
fn is_space_exec(c: char) -> (r: bool)
    ensures
        r == is_space(c),
{
    c == ' ' || c == '\t' || c == '\n' || c == '\r'
}

/// Strips ASCII whitespace from both ends of a string; whitespace
/// outside the ASCII class is kept.
pub fn trim(s: &str) -> (r: String)
    ensures
        r@ == trimmed(s@),
{
    let n = s.unicode_len();
    let mut start: usize = 0;
    while start < n && is_space_exec(s.get_char(start))
        invariant
            n == s@.len(),
            start <= n,
            forall|j: int| 0 <= j < start ==> is_space(s@[j]),
        decreases n - start,
    {
        start += 1;
    }
    proof {
        lemma_trim_front_subrange(s@, start as int);
    }
    let mut end: usize = n;
    while end > start && is_space_exec(s.get_char(end - 1))
        invariant
            n == s@.len(),
            start <= end <= n,
            forall|j: int| end <= j < n ==> is_space(s@[j]),
            start == n || !is_space(s@[start as int]),
        decreases end,
    {
        end -= 1;
    }
    proof {
        let front = s@.subrange(start as int, n as int);
        lemma_trim_back_subrange(front, end - start);
        assert(front.subrange(0, end - start) =~= s@.subrange(start as int, end as int));
    }
    let sub = s.substring_char(start, end);
    sub.to_owned()
}

/// Tests whether the needle matches the haystack at one position.
fn matches_at_exec(hay: &str, hay_len: usize, needle: &str, needle_len: usize, k: usize) -> (r:
    bool)
    requires
        hay_len == hay@.len(),
        needle_len == needle@.len(),
        k + needle_len <= hay_len,
    ensures
        r == match_at(needle@, hay@, k as int),
{
    let mut i: usize = 0;
    while i < needle_len
        invariant
            hay_len == hay@.len(),
            needle_len == needle@.len(),
            k + needle_len <= hay_len,
            i <= needle_len,
            forall|j: int| 0 <= j < i ==> hay@[k + j] == needle@[j],
        decreases needle_len - i,
    {
        if hay.get_char(k + i) != needle.get_char(i) {
            assert(hay@.subrange(k as int, k + needle@.len())[i as int] != needle@[i as int]);
            return false;
        }
        i += 1;
    }
    assert(hay@.subrange(k as int, k + needle@.len()) =~= needle@);
    true
}

/// Decides whether the needle occurs contiguously in the haystack; an
/// empty needle is found in every haystack.
pub fn contains_sub(hay: &str, needle: &str) -> (r: bool)
    ensures
        r == is_substring(needle@, hay@),
{
    let hay_len = hay.unicode_len();
    let needle_len = needle.unicode_len();
    if needle_len > hay_len {
        assert(!is_substring(needle@, hay@));
        return false;
    }
    if needle_len == 0 {
        assert(hay@.subrange(0, 0) =~= needle@);
        assert(match_at(needle@, hay@, 0));
        return true;
    }
    let mut k: usize = 0;
    while k <= hay_len - needle_len
        invariant
            hay_len == hay@.len(),
            needle_len == needle@.len(),
            needle_len <= hay_len,
            1 <= needle_len,
            k <= hay_len - needle_len + 1,
            forall|kk: int| 0 <= kk < k ==> !match_at(needle@, hay@, kk),
        decreases hay_len - needle_len - k + 1,
    {
        if matches_at_exec(hay, hay_len, needle, needle_len, k) {
            return true;
        }
        k += 1;
    }
    assert forall|kk: int| !match_at(needle@, hay@, kk) by {
        if 0 <= kk < k {
            assert(!match_at(needle@, hay@, kk));
        }
    }
    false
}

/// Digits of a non-negative value in reverse order, least significant
/// first.
fn push_digits_rev(n: u32, out: &mut Vec<char>)
    ensures
        final(out)@ == old(out)@ + dec_seq(n as nat).reverse(),
    decreases n,
{
    let d = n % 10;
    let c = ((48 + d) as u8) as char;
    out.push(c);
    if n >= 10 {
        push_digits_rev(n / 10, out);
        proof {
            assert(dec_seq(n as nat) == dec_seq((n as nat) / 10).push(dec_digit((n as nat) % 10)));
            assert(dec_seq(n as nat).reverse() =~= seq![dec_digit((n as nat) % 10)] + dec_seq(
                (n as nat) / 10,
            ).reverse());
            assert(old(out)@.push(c) + dec_seq((n as nat) / 10).reverse() =~= old(out)@ + dec_seq(
                n as nat,
            ).reverse());
        }
    } else {
        proof {
            assert(dec_seq(n as nat) =~= seq![c]);
            assert(dec_seq(n as nat).reverse() =~= seq![c]);
            assert(old(out)@.push(c) =~= old(out)@ + seq![c]);
        }
    }
}

/// Renders a non-negative value in decimal.
fn u32_to_string(n: u32) -> (r: String)
    ensures
        r@ == dec_seq(n as nat),
{
    let mut rev: Vec<char> = Vec::new();
    push_digits_rev(n, &mut rev);
    assert(rev@ =~= dec_seq(n as nat).reverse());
    let mut r = String::new();
    let total = rev.len();
    let mut i: usize = 0;
    while i < total
        invariant
            total == rev@.len(),
            rev@ == dec_seq(n as nat).reverse(),
            i <= total,
            r@.len() == i,
            forall|j: int| 0 <= j < i ==> r@[j] == rev@[total - 1 - j],
        decreases total - i,
    {
        push_char(&mut r, rev[total - 1 - i]);
        i += 1;
    }
    assert forall|j: int| 0 <= j < total implies r@[j] == dec_seq(n as nat)[j] by {
        assert(rev@[total - 1 - j] == dec_seq(n as nat).reverse()[total - 1 - j]);
    }
    assert(r@ =~= dec_seq(n as nat));
    r
}

/// Renders a signed integer in decimal, with a minus sign when negative,
/// exactly as the standard formatter prints it.
pub fn i32_to_string(n: i32) -> (r: String)
    ensures
        r@ == i32_dec(n as int),
{
    if n >= 0 {
        u32_to_string(n as u32)
    } else {
        let wide: i64 = n as i64;
        let mag: u32 = (-wide) as u32;
        assert(mag as nat == (-(n as int)) as nat);
        let mut r = String::new();
        push_char(&mut r, '-');
        let digits = u32_to_string(mag);
        let out = r.concat(digits.as_str());
        assert(out@ =~= i32_dec(n as int));
        out
    }
}

} // verus!

use vstd::prelude::*;
use vstd::string::*;
use vstd::utf8::*;

use crate::bindings::url_decoded;

verus! {

/// Length in bytes of the UTF-8 encoding of `s`: what `str::len` returns.
pub open spec fn byte_len(s: Seq<char>) -> nat {
    (encode_utf8(s).len() as usize) as nat
}

/// `c` does not occur in `s` before index `i`, and `i` is either the end
/// of `s` or a position holding `c`.
pub open spec fn is_first_index(s: Seq<char>, c: char, i: int) -> bool {
    &&& 0 <= i <= s.len()
    &&& forall|j: int| 0 <= j < i ==> s[j] != c
    &&& i < s.len() ==> s[i] == c
}

/// The index of the first `c` in `s`, or the length of `s` when there is none.
pub open spec fn first_index(s: Seq<char>, c: char) -> int {
    choose|i: int| is_first_index(s, c, i)
}

/// What comes before the first `c` in `s` (all of `s` when `c` is absent).
pub open spec fn before_char(s: Seq<char>, c: char) -> Seq<char> {
    s.take(first_index(s, c))
}

/// The last index of `c` in `s`, plus one; zero when `c` does not occur.
pub open spec fn is_after_last_index(s: Seq<char>, c: char, i: int) -> bool {
    &&& 0 <= i <= s.len()
    &&& forall|j: int| i <= j < s.len() ==> s[j] != c
    &&& i > 0 ==> s[i - 1] == c
}

/// What follows the last `c` in `s` (all of `s` when `c` is absent): the
/// last item that `str::split(c)` yields.
pub open spec fn after_last_char(s: Seq<char>, c: char) -> Seq<char> {
    s.skip(choose|i: int| is_after_last_index(s, c, i))
}

pub proof fn lemma_first_index_unique(s: Seq<char>, c: char, i: int)
    requires
        is_first_index(s, c, i),
    ensures
        first_index(s, c) == i,
        before_char(s, c) == s.take(i),
{
    let k = first_index(s, c);
    assert(is_first_index(s, c, k));
    if k < i {
        assert(s[k] == c);
    } else if i < k {
        assert(s[i] == c);
    }
}

pub proof fn lemma_after_last_unique(s: Seq<char>, c: char, i: int)
    requires
        is_after_last_index(s, c, i),
    ensures
        after_last_char(s, c) == s.skip(i),
{
    let k = choose|k: int| is_after_last_index(s, c, k);
    assert(is_after_last_index(s, c, k));
    if k < i {
        assert(s[i - 1] == c);
    } else if i < k {
        assert(s[k - 1] == c);
    }
}

/// `p` occurs in `s` starting at index `i`.
pub open spec fn occurs_at(s: Seq<char>, p: Seq<char>, i: int) -> bool {
    0 <= i && i + p.len() <= s.len() && s.subrange(i, i + p.len()) == p
}

/// `i` is the first index at which `p` occurs in `s`.
pub open spec fn is_first_match(s: Seq<char>, p: Seq<char>, i: int) -> bool {
    occurs_at(s, p, i) && forall|j: int| 0 <= j < i ==> !occurs_at(s, p, j)
}

/// The value that a cookie header gives to `key`: what follows the first
/// `key=` in the header, up to the next `;`. `None` when `key=` does not occur.
pub open spec fn cookie_value(jar: Seq<char>, key: Seq<char>) -> Option<Seq<char>> {
    let p = key.push('=');
    if exists|i: int| is_first_match(jar, p, i) {
        let i = choose|i: int| is_first_match(jar, p, i);
        Some(before_char(jar.skip(i + p.len()), ';'))
    } else {
        None
    }
}

pub proof fn lemma_first_match_unique(s: Seq<char>, p: Seq<char>, i: int)
    requires
        is_first_match(s, p, i),
    ensures
        (choose|k: int| is_first_match(s, p, k)) == i,
{
    let k = choose|k: int| is_first_match(s, p, k);
    assert(is_first_match(s, p, k));
    if k < i {
        assert(!occurs_at(s, p, k));
    } else if i < k {
        assert(!occurs_at(s, p, i));
    }
}

/// Index of the first `c` in `s` at or after `from`, or the length of `s`.
fn find_char(s: &str, c: char, from: usize) -> (r: usize)
    requires
        from <= s@.len(),
    ensures
        from <= r <= s@.len(),
        forall|j: int| from <= j < r ==> s@[j] != c,
        r < s@.len() ==> s@[r as int] == c,
{
    let n = s.unicode_len();
    let mut i = from;
    while i < n
        invariant
            n == s@.len(),
            from <= i <= n,
            forall|j: int| from <= j < i ==> s@[j] != c,
        decreases n - i,
    {
        if s.get_char(i) == c {
            return i;
        }
        i = i + 1;
    }
    i
}

/// Whether the characters of `s` from `at` on start with those of `p`.
fn matches_at(s: &str, p: &str, at: usize) -> (r: bool)
    requires
        at <= s@.len(),
    ensures
        r == occurs_at(s@, p@, at as int),
{
    let n = s.unicode_len();
    let m = p.unicode_len();
    if m > n - at {
        return false;
    }
    let mut k: usize = 0;
    while k < m
        invariant
            n == s@.len(),
            m == p@.len(),
            at + m <= n,
            k <= m,
            forall|j: int| 0 <= j < k ==> s@[at + j] == p@[j],
        decreases m - k,
    {
        if s.get_char(at + k) != p.get_char(k) {
            assert(s@.subrange(at as int, at + m)[k as int] != p@[k as int]);
            return false;
        }
        k = k + 1;
    }
    assert(s@.subrange(at as int, at + m) =~= p@);
    true
}

/// Reads the value of the cookie `key` from a `Cookie` header: the text after
/// the first `key=` up to the next `;` or the end of the header.
pub fn extract_cookie(cookie_jar: String, key: String) -> (r: Option<String>)
    ensures
        r matches Some(v) ==> cookie_value(cookie_jar@, key@) == Some(v@),
        r is None ==> cookie_value(cookie_jar@, key@) is None,
{
    let mut pattern = key;
    pattern.append("=");
    proof {
        reveal_strlit("=");
        assert(pattern@ =~= key@.push('='));
    }
    let jar = cookie_jar.as_str();
    let p = pattern.as_str();
    let n = jar.unicode_len();
    let mut i: usize = 0;
    while i < n
        invariant
            n == jar@.len(),
            jar@ == cookie_jar@,
            p@ == key@.push('='),
            i <= n,
            forall|j: int| 0 <= j < i ==> !occurs_at(jar@, p@, j),
        decreases n - i,
    {
        if matches_at(jar, p, i) {
            let start = i + p.unicode_len();
            let end = find_char(jar, ';', start);
            let value = jar.substring_char(start, end).to_owned();
            proof {
                assert(is_first_match(jar@, p@, i as int));
                lemma_first_match_unique(jar@, p@, i as int);
                let rest = jar@.skip(start as int);
                assert(is_first_index(rest, ';', end - start));
                lemma_first_index_unique(rest, ';', end - start);
                assert(value@ =~= rest.take(end - start));
            }
            return Some(value);
        }
        i = i + 1;
    }
    proof {
        assert forall|k: int| !is_first_match(jar@, p@, k) by {
            if 0 <= k < n {
            } else if k >= n {
                if p@.len() > 0 {
                    assert(!occurs_at(jar@, p@, k));
                }
            }
        }
    }
    None
}

/// Cookie round trip: a header that sets `key` to `value` first, with `value`
/// free of `;`, gives `value` back, whatever other cookies follow it.
pub proof fn law_cookie_round_trip(key: Seq<char>, value: Seq<char>, rest: Seq<char>)
    requires
        forall|j: int| 0 <= j < value.len() ==> value[j] != ';',
    ensures
        cookie_value(key.push('=') + value, key) == Some(value),
        cookie_value(key.push('=') + value + seq![';'] + rest, key) == Some(value),
{
    let p = key.push('=');
    let jar1 = p + value;
    assert(jar1.subrange(0, p.len() as int) =~= p);
    assert(is_first_match(jar1, p, 0));
    lemma_first_match_unique(jar1, p, 0);
    assert(jar1.skip(p.len() as int) =~= value);
    assert(is_first_index(value, ';', value.len() as int));
    lemma_first_index_unique(value, ';', value.len() as int);
    assert(value.take(value.len() as int) =~= value);

    let jar2 = p + value + seq![';'] + rest;
    assert(jar2.subrange(0, p.len() as int) =~= p);
    assert(is_first_match(jar2, p, 0));
    lemma_first_match_unique(jar2, p, 0);
    let tail = jar2.skip(p.len() as int);
    assert(tail =~= value + seq![';'] + rest);
    assert(is_first_index(tail, ';', value.len() as int));
    lemma_first_index_unique(tail, ';', value.len() as int);
    assert(tail.take(value.len() as int) =~= value);
}

/// One of the characters that `char::is_ascii_whitespace` accepts.
pub open spec fn is_ascii_whitespace(c: char) -> bool {
    c == ' ' || c == '\t' || c == '\n' || c == '\x0C' || c == '\r'
}

/// `s` holds nothing but ASCII whitespace, so that `split_ascii_whitespace`
/// yields no word.
pub open spec fn is_blank(s: Seq<char>) -> bool {
    forall|i: int| 0 <= i < s.len() ==> is_ascii_whitespace(s[i])
}

pub fn blank(s: &str) -> (r: bool)
    ensures
        r == is_blank(s@),
{
    let n = s.unicode_len();
    let mut i: usize = 0;
    while i < n
        invariant
            n == s@.len(),
            i <= n,
            forall|j: int| 0 <= j < i ==> is_ascii_whitespace(s@[j]),
        decreases n - i,
    {
        let c = s.get_char(i);
        if !(c == ' ' || c == '\t' || c == '\n' || c == '\x0C' || c == '\r') {
            return false;
        }
        i = i + 1;
    }
    true
}

/// A character that a username may not hold.
pub open spec fn is_forbidden_in_username(c: char) -> bool {
    c == '/' || c == '\\' || c == ' ' || c == '@'
}

pub open spec fn has_forbidden_username_char(s: Seq<char>) -> bool {
    exists|i: int| 0 <= i < s.len() && is_forbidden_in_username(s[i])
}

pub fn contains_forbidden_username_char(s: &str) -> (r: bool)
    ensures
        r == has_forbidden_username_char(s@),
{
    let n = s.unicode_len();
    let mut i: usize = 0;
    while i < n
        invariant
            n == s@.len(),
            i <= n,
            forall|j: int| 0 <= j < i ==> !is_forbidden_in_username(s@[j]),
        decreases n - i,
    {
        let c = s.get_char(i);
        if c == '/' || c == '\\' || c == ' ' || c == '@' {
            assert(is_forbidden_in_username(s@[i as int]));
            return true;
        }
        i = i + 1;
    }
    false
}

/// Whether the characters of `s` in `[from, to)` are exactly those of `lit`.
pub fn range_equals(s: &str, from: usize, to: usize, lit: &str) -> (r: bool)
    requires
        from <= to <= s@.len(),
    ensures
        r == (s@.subrange(from as int, to as int) == lit@),
{
    let m = lit.unicode_len();
    if to - from != m {
        assert(s@.subrange(from as int, to as int).len() != lit@.len());
        return false;
    }
    let mut k: usize = 0;
    while k < m
        invariant
            m == lit@.len(),
            to - from == m,
            to <= s@.len(),
            k <= m,
            forall|j: int| 0 <= j < k ==> s@[from + j] == lit@[j],
        decreases m - k,
    {
        if s.get_char(from + k) != lit.get_char(k) {
            assert(s@.subrange(from as int, to as int)[k as int] != lit@[k as int]);
            return false;
        }
        k = k + 1;
    }
    assert(s@.subrange(from as int, to as int) =~= lit@);
    true
}

/// Whether what comes before the first `sep` in `s` is exactly `lit`.
pub fn first_segment_is(s: &str, sep: char, lit: &str) -> (r: bool)
    ensures
        r == (before_char(s@, sep) == lit@),
{
    let end = find_char(s, sep, 0);
    proof {
        lemma_first_index_unique(s@, sep, end as int);
        assert(s@.take(end as int) =~= s@.subrange(0, end as int));
    }
    range_equals(s, 0, end, lit)
}

/// Whether what follows the last `sep` in `s` is exactly `lit`.
pub fn last_segment_is(s: &str, sep: char, lit: &str) -> (r: bool)
    ensures
        r == (after_last_char(s@, sep) == lit@),
{
    let n = s.unicode_len();
    let mut i = n;
    let mut found = false;
    while i > 0 && !found
        invariant
            n == s@.len(),
            i <= n,
            forall|j: int| i <= j < n ==> s@[j] != sep,
            found ==> i > 0 && s@[i - 1] == sep,
        decreases i + (if found { 0int } else { 1int }),
    {
        if s.get_char(i - 1) == sep {
            found = true;
        } else {
            i = i - 1;
        }
    }
    proof {
        assert(is_after_last_index(s@, sep, i as int));
        lemma_after_last_unique(s@, sep, i as int);
        assert(s@.skip(i as int) =~= s@.subrange(i as int, n as int));
    }
    range_equals(s, i, n, lit)
}

pub open spec fn is_digit(c: char) -> bool {
    '0' <= c <= '9'
}

/// The number that a string of decimal digits denotes.
pub open spec fn digits_value(s: Seq<char>) -> int
    decreases s.len(),
{
    if s.len() == 0 {
        0
    } else {
        digits_value(s.drop_last()) * 10 + (s.last() as int - '0' as int)
    }
}

/// The digits of a number written with an optional leading `+` or `-`.
pub open spec fn unsigned_part(s: Seq<char>) -> Seq<char> {
    if s.len() > 0 && (s[0] == '-' || s[0] == '+') {
        s.skip(1)
    } else {
        s
    }
}

/// What `str::parse::<i64>` gives for `s`: an optional sign, then at least
/// one ASCII digit and nothing else, denoting a value in the range of `i64`.
pub open spec fn parse_i64(s: Seq<char>) -> Option<int> {
    let digits = unsigned_part(s);
    if digits.len() == 0 || exists|i: int| 0 <= i < digits.len() && !is_digit(digits[i]) {
        None
    } else {
        let v = if s[0] == '-' {
            -digits_value(digits)
        } else {
            digits_value(digits)
        };
        if i64::MIN <= v <= i64::MAX {
            Some(v)
        } else {
            None
        }
    }
}

/// Reads a signed decimal number as `str::parse::<i64>` does.
pub fn parse_i64_text(s: &str) -> (r: Option<i64>)
    ensures
        r matches Some(v) ==> parse_i64(s@) == Some(v as int),
        r is None ==> parse_i64(s@) is None,
{
    let n = s.unicode_len();
    if n == 0 {
        return None;
    }
    let first = s.get_char(0);
    let neg = first == '-';
    let start: usize = if first == '-' || first == '+' { 1 } else { 0 };
    let ghost digits = unsigned_part(s@);
    proof {
        if start == 1 {
            assert(digits =~= s@.subrange(1, n as int));
        } else {
            assert(digits =~= s@.subrange(0, n as int));
        }
    }
    if start == n {
        return None;
    }
    let limit: u128 = 9223372036854775808;
    let mut acc: u128 = 0;
    let mut too_big = false;
    let mut i = start;
    while i < n
        invariant
            n == s@.len(),
            start <= i <= n,
            digits =~= s@.subrange(start as int, n as int),
            digits == unsigned_part(s@),
            neg == (s@[0] == '-'),
            limit == 9223372036854775808,
            forall|j: int| 0 <= j < i - start ==> is_digit(digits[j]),
            !too_big ==> acc == digits_value(digits.take(i - start)),
            !too_big ==> acc <= limit,
            too_big ==> digits_value(digits.take(i - start)) > limit,
        decreases n - i,
    {
        let c = s.get_char(i);
        if !('0' <= c && c <= '9') {
            proof {
                let k = (i - start) as int;
                assert(digits[k] == c);
                assert(0 <= k < digits.len() && !is_digit(digits[k]));
            }
            return None;
        }
        let d = (c as u32 - '0' as u32) as u128;
        proof {
            let k = i - start;
            let t = digits.take(k + 1);
            assert(t.drop_last() =~= digits.take(k));
            assert(t.last() == c);
            assert(digits_value(t) == digits_value(digits.take(k)) * 10 + d);
        }
        if !too_big {
            let next = acc * 10 + d;
            if next > limit {
                too_big = true;
            } else {
                acc = next;
            }
        }
        i = i + 1;
    }
    proof {
        assert(digits.take(n - start) =~= digits);
    }
    if too_big {
        return None;
    }
    if neg {
        if acc == limit {
            Some(i64::MIN)
        } else {
            Some(-(acc as i64))
        }
    } else {
        if acc == limit {
            None
        } else {
            Some(acc as i64)
        }
    }
}

/// The encoding of a character other than `%` holds no byte `0x25`.
proof fn lemma_scalar_without_percent(s: u32)
    requires
        is_scalar(s),
        s != 0x25,
    ensures
        forall|i: int| 0 <= i < encode_scalar(s).len() ==> encode_scalar(s)[i] != 0x25u8,
{
    if has_width_1_encoding(s) {
        assert((s & 0x7F) as u8 != 0x25u8) by (bit_vector)
            requires
                s <= 0x7F,
                s != 0x25,
        ;
    } else {
        assert(forall|x: u8| #![auto] (0x80u8 | x) != 0x25u8) by (bit_vector);
        assert(forall|x: u8| #![auto] (0xC0u8 | x) != 0x25u8) by (bit_vector);
        assert(forall|x: u8| #![auto] (0xE0u8 | x) != 0x25u8) by (bit_vector);
        assert(forall|x: u8| #![auto] (0xF0u8 | x) != 0x25u8) by (bit_vector);
    }
}

/// A text without `%` has no byte `0x25` in its UTF-8 encoding.
pub proof fn lemma_encoding_without_percent(s: Seq<char>)
    requires
        forall|i: int| 0 <= i < s.len() ==> s[i] != '%',
    ensures
        forall|i: int| 0 <= i < encode_utf8(s).len() ==> encode_utf8(s)[i] != 0x25u8,
    decreases s.len(),
{
    if s.len() > 0 {
        let rest = s.drop_first();
        assert forall|i: int| 0 <= i < rest.len() implies rest[i] != '%' by {
            assert(rest[i] == s[i + 1]);
        }
        lemma_encoding_without_percent(rest);
        char_is_scalar(s[0]);
        assert(s[0] as u32 != 0x25) by {
            if s[0] as u32 == 0x25 {
                char_u32_cast(s[0], 0x25);
                char_u32_cast('%', 0x25);
            }
        }
        lemma_scalar_without_percent(s[0] as u32);
        let a = encode_scalar(s[0] as u32);
        let b = encode_utf8(rest);
        assert(encode_utf8(s) == a + b);
        assert forall|i: int| 0 <= i < (a + b).len() implies (a + b)[i] != 0x25u8 by {
            if i >= a.len() {
                assert((a + b)[i] == b[i - a.len()]);
            }
        }
    }
}

/// Percent-decoding leaves a byte string without `%` as it is.
pub proof fn lemma_url_decoded_without_percent(data: Seq<u8>)
    requires
        forall|i: int| 0 <= i < data.len() ==> data[i] != 0x25u8,
    ensures
        url_decoded(data) == data,
    decreases data.len(),
{
    if data.len() > 0 {
        let rest = data.subrange(1, data.len() as int);
        assert forall|i: int| 0 <= i < rest.len() implies rest[i] != 0x25u8 by {
            assert(rest[i] == data[i + 1]);
        }
        lemma_url_decoded_without_percent(rest);
        assert(data =~= seq![data[0]] + rest);
    }
}

} // verus!

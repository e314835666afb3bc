//! Character-level text operations used by the protocol and the rule store.
use vstd::prelude::*;
use vstd::string::*;

verus! {

/// Whether `c` is an ASCII decimal digit.
pub open spec fn is_digit(c: char) -> bool {
    '0' <= c && c <= '9'
}

/// The value of a decimal digit.
pub open spec fn digit_value(c: char) -> nat {
    (c as nat - '0' as nat) as nat
}

/// Every character of `s` is a decimal digit.
pub open spec fn all_digits(s: Seq<char>) -> bool {
    forall|i: int| 0 <= i < s.len() ==> is_digit(#[trigger] s[i])
}

/// The number that a string of decimal digits denotes (leading zeros allowed).
pub open spec fn digits_value(s: Seq<char>) -> nat
    decreases s.len(),
{
    if s.len() == 0 {
        0
    } else {
        digits_value(s.drop_last()) * 10 + digit_value(s.last())
    }
}

/// The decimal spelling of a natural number, without leading zeros.
pub open spec fn nat_decimal(n: nat) -> Seq<char>
    decreases n,
{
    if n < 10 {
        seq![digit_char(n)]
    } else {
        nat_decimal(n / 10) + seq![digit_char(n % 10)]
    }
}

/// The character of a decimal digit.
pub open spec fn digit_char(d: nat) -> char {
    if d == 0 { '0' }
    else if d == 1 { '1' }
    else if d == 2 { '2' }
    else if d == 3 { '3' }
    else if d == 4 { '4' }
    else if d == 5 { '5' }
    else if d == 6 { '6' }
    else if d == 7 { '7' }
    else if d == 8 { '8' }
    else { '9' }
}

/// The decimal spelling of a natural number starts with a digit.
pub proof fn lemma_nat_decimal_starts_with_digit(n: nat)
    ensures
        nat_decimal(n).len() >= 1,
        is_digit(nat_decimal(n)[0]),
    decreases n,
{
    if n >= 10 {
        lemma_nat_decimal_starts_with_digit(n / 10);
        assert((nat_decimal(n / 10) + seq![digit_char(n % 10)])[0] == nat_decimal(n / 10)[0]);
    }
}

/// The decimal spelling of an integer, with a leading `-` when it is negative.
pub open spec fn int_decimal(n: int) -> Seq<char> {
    if n < 0 {
        seq!['-'] + nat_decimal((-n) as nat)
    } else {
        nat_decimal(n as nat)
    }
}

/// `needle` occurs in `haystack` at position `i`.
pub open spec fn occurs_at(haystack: Seq<char>, needle: Seq<char>, i: int) -> bool {
    0 <= i && i + needle.len() <= haystack.len() && haystack.subrange(i, i + needle.len()) == needle
}

/// `needle` occurs somewhere in `haystack`.
pub open spec fn contains_seq(haystack: Seq<char>, needle: Seq<char>) -> bool {
    exists|i: int| occurs_at(haystack, needle, i)
}

/// `s` ends with `suffix`.
pub open spec fn ends_with_seq(s: Seq<char>, suffix: Seq<char>) -> bool {
    suffix.len() <= s.len() && s.subrange(s.len() - suffix.len(), s.len() as int) == suffix
}

/// The number of leading characters of `s` that equal `c`.
pub open spec fn leading_count(s: Seq<char>, c: char) -> nat
    decreases s.len(),
{
    if s.len() > 0 && s[0] == c {
        1 + leading_count(s.drop_first(), c)
    } else {
        0
    }
}

/// `s` with every leading `c` removed.
pub open spec fn trim_start_char(s: Seq<char>, c: char) -> Seq<char> {
    s.skip(leading_count(s, c) as int)
}

/// What `str::parse::<u16>` accepts: an optional `+`, then one or more digits whose value fits.
pub open spec fn spec_parse_u16(s: Seq<char>) -> Option<u16> {
    let body = if s.len() > 0 && s[0] == '+' { s.drop_first() } else { s };
    if body.len() > 0 && all_digits(body) && digits_value(body) <= 65535 {
        Some(digits_value(body) as u16)
    } else {
        None
    }
}

/// Whether two strings hold the same characters.
pub fn str_eq(a: &str, b: &str) -> (r: bool)
    ensures
        r == (a@ == b@),
{
    let n = a.unicode_len();
    let m = b.unicode_len();
    if n != m {
        return false;
    }
    let mut i: usize = 0;
    while i < n
        invariant
            n == a@.len(),
            m == b@.len(),
            n == m,
            i <= n,
            forall|j: int| 0 <= j < i ==> a@[j] == b@[j],
        decreases n - i,
    {
        if a.get_char(i) != b.get_char(i) {
            return false;
        }
        i = i + 1;
    }
    assert(a@ =~= b@);
    true
}

/// Whether `needle` occurs at position `i` of `haystack`.
fn matches_at(haystack: &str, needle: &str, i: usize) -> (r: bool)
    requires
        i + needle@.len() <= haystack@.len(),
    ensures
        r == occurs_at(haystack@, needle@, i as int),
{
    let m = needle.unicode_len();
    let n = haystack.unicode_len();
    let mut j: usize = 0;
    while j < m
        invariant
            m == needle@.len(),
            n == haystack@.len(),
            i + m <= haystack@.len(),
            j <= m,
            forall|k: int| 0 <= k < j ==> haystack@[i + k] == needle@[k],
        decreases m - j,
    {
        if haystack.get_char(i + j) != needle.get_char(j) {
            assert(haystack@.subrange(i as int, i + m)[j as int] != needle@[j as int]);
            return false;
        }
        j = j + 1;
    }
    assert(haystack@.subrange(i as int, i + m) =~= needle@);
    true
}

/// Whether `needle` occurs somewhere in `haystack` (`str::contains`).
pub fn str_contains(haystack: &str, needle: &str) -> (r: bool)
    ensures
        r == contains_seq(haystack@, needle@),
{
    let n = haystack.unicode_len();
    let m = needle.unicode_len();
    if m > n {
        assert forall|i: int| !occurs_at(haystack@, needle@, i) by {}
        return false;
    }
    let last = n - m;
    let mut i: usize = 0;
    loop
        invariant
            n == haystack@.len(),
            m == needle@.len(),
            m <= n,
            last == n - m,
            i <= last,
            forall|k: int| 0 <= k < i ==> !occurs_at(haystack@, needle@, k),
        decreases last - i,
    {
        if matches_at(haystack, needle, i) {
            return true;
        }
        if i == last {
            assert forall|k: int| !occurs_at(haystack@, needle@, k) by {
                if 0 <= k && k + m <= n {
                    assert(k <= i);
                }
            }
            return false;
        }
        i = i + 1;
    }
}

/// Whether `s` ends with `suffix` (`str::ends_with`).
pub fn str_ends_with(s: &str, suffix: &str) -> (r: bool)
    ensures
        r == ends_with_seq(s@, suffix@),
{
    let n = s.unicode_len();
    let m = suffix.unicode_len();
    if m > n {
        return false;
    }
    matches_at(s, suffix, n - m)
}

/// The single-character string of a decimal digit.
fn digit_str(d: u64) -> (r: &'static str)
    requires
        d < 10,
    ensures
        r@ == seq![digit_char(d as nat)],
{
    proof {
        reveal_strlit("0");
        reveal_strlit("1");
        reveal_strlit("2");
        reveal_strlit("3");
        reveal_strlit("4");
        reveal_strlit("5");
        reveal_strlit("6");
        reveal_strlit("7");
        reveal_strlit("8");
        reveal_strlit("9");
    }
    if d == 0 {
        "0"
    } else if d == 1 {
        "1"
    } else if d == 2 {
        "2"
    } else if d == 3 {
        "3"
    } else if d == 4 {
        "4"
    } else if d == 5 {
        "5"
    } else if d == 6 {
        "6"
    } else if d == 7 {
        "7"
    } else if d == 8 {
        "8"
    } else {
        "9"
    }
}

/// Appends the decimal spelling of `n` to `out`.
pub fn append_decimal(out: &mut String, n: u64)
    ensures
        final(out)@ == old(out)@ + nat_decimal(n as nat),
    decreases n,
{
    if n >= 10 {
        append_decimal(out, n / 10);
    }
    out.append(digit_str(n % 10));
    proof {
        if n >= 10 {
            assert(old(out)@ + nat_decimal((n / 10) as nat) + seq![digit_char((n % 10) as nat)]
                =~= old(out)@ + nat_decimal(n as nat));
        } else {
            assert(nat_decimal(n as nat) == seq![digit_char(n as nat)]);
        }
    }
}

/// The decimal spelling of an `i64` (what `format!("{}", n)` writes).
pub fn i64_to_decimal(n: i64) -> (r: String)
    ensures
        r@ == int_decimal(n as int),
{
    let mut out = String::new();
    if n < 0 {
        proof {
            reveal_strlit("-");
        }
        out.append("-");
        let magnitude: u64 = if n == i64::MIN {
            9223372036854775808u64
        } else {
            (-n) as u64
        };
        append_decimal(&mut out, magnitude);
    } else {
        append_decimal(&mut out, n as u64);
    }
    out
}

/// The number of leading characters equal to `c` in `s`, as an executable count.
fn count_leading(s: &str, c: char) -> (r: usize)
    ensures
        r as nat == leading_count(s@, c),
        r <= s@.len(),
{
    let n = s.unicode_len();
    let mut i: usize = 0;
    while i < n && s.get_char(i) == c
        invariant
            n == s@.len(),
            i <= n,
            forall|k: int| 0 <= k < i ==> s@[k] == c,
        decreases n - i,
    {
        i = i + 1;
    }
    proof {
        lemma_leading_count(s@, c, i as int);
    }
    i
}

proof fn lemma_leading_count(s: Seq<char>, c: char, i: int)
    requires
        0 <= i <= s.len(),
        forall|k: int| 0 <= k < i ==> s[k] == c,
        i == s.len() || s[i] != c,
    ensures
        leading_count(s, c) == i,
    decreases i,
{
    if i > 0 {
        let t = s.drop_first();
        assert forall|k: int| 0 <= k < i - 1 implies t[k] == c by {
            assert(t[k] == s[k + 1]);
        }
        if i - 1 < t.len() {
            assert(t[i - 1] == s[i]);
        }
        lemma_leading_count(t, c, i - 1);
    }
}

/// `s` with every leading `c` removed (`str::trim_start_matches` with a character).
pub fn trim_start_matches_char(s: &str, c: char) -> (r: String)
    ensures
        r@ == trim_start_char(s@, c),
{
    let k = count_leading(s, c);
    let n = s.unicode_len();
    let rest = s.substring_char(k, n);
    assert(rest@ =~= s@.skip(k as int));
    String::from_str(rest)
}

/// Digits of a prefix denote no more than the digits of the whole string.
pub proof fn lemma_digits_value_prefix(s: Seq<char>, i: int)
    requires
        0 <= i <= s.len(),
        all_digits(s),
    ensures
        digits_value(s.take(i)) <= digits_value(s),
    decreases s.len() - i,
{
    if i < s.len() {
        lemma_digits_value_prefix(s, i + 1);
        assert(s.take(i + 1).drop_last() =~= s.take(i));
        assert(digits_value(s.take(i + 1)) == digits_value(s.take(i)) * 10 + digit_value(s[i]));
    } else {
        assert(s.take(i) =~= s);
    }
}

/// Parses the digits of `s` from position `start` on, giving up once the value passes `bound`.
/// Returns `Some(value)` exactly when all those characters are digits, at least one, and the
/// value is at most `bound`.
pub fn parse_digits_bounded(s: &str, start: usize, bound: u64) -> (r: Option<u64>)
    requires
        start <= s@.len(),
    ensures
        ({
            let body = s@.skip(start as int);
            match r {
                Some(v) => body.len() > 0 && all_digits(body) && v == digits_value(body) && v <= bound,
                None => !(body.len() > 0 && all_digits(body) && digits_value(body) <= bound),
            }
        }),
{
    let n = s.unicode_len();
    let ghost body = s@.skip(start as int);
    if start == n {
        return None;
    }
    let mut acc: u64 = 0;
    let mut i: usize = start;
    while i < n
        invariant
            n == s@.len(),
            start < n,
            start <= i <= n,
            body == s@.skip(start as int),
            all_digits(body.take(i - start)),
            acc == digits_value(body.take(i - start)),
            acc <= bound,
        decreases n - i,
    {
        let c = s.get_char(i);
        assert(body[i - start] == c);
        if !('0' <= c && c <= '9') {
            assert(!all_digits(body));
            return None;
        }
        let d = (c as u32 - '0' as u32) as u64;
        assert(body.take(i - start + 1).drop_last() =~= body.take(i - start));
        if acc > bound / 10 || (acc == bound / 10 && d > bound % 10) {
            proof {
                assert(all_digits(body.take(i - start + 1)));
                assert(digits_value(body.take(i - start + 1)) == acc * 10 + d);
                assert(acc * 10 + d > bound) by (nonlinear_arith)
                    requires acc > bound / 10 || (acc == bound / 10 && d > bound % 10);
                if all_digits(body) {
                    lemma_digits_value_prefix(body, i - start + 1);
                }
            }
            return None;
        }
        assert(acc * 10 + d <= bound) by (nonlinear_arith)
            requires acc <= bound / 10, acc < bound / 10 || d <= bound % 10, d <= 9;
        acc = acc * 10 + d;
        i = i + 1;
    }
    assert(body.take(i - start) =~= body);
    Some(acc)
}

/// Parses a `u16` the way `str::parse::<u16>` does.
pub fn parse_u16(s: &str) -> (r: Option<u16>)
    ensures
        r == spec_parse_u16(s@),
{
    let n = s.unicode_len();
    let start: usize = if n > 0 && s.get_char(0) == '+' { 1 } else { 0 };
    assert(start == 1 ==> s@.skip(1) =~= s@.drop_first());
    assert(start == 0 ==> s@.skip(0) =~= s@);
    match parse_digits_bounded(s, start, 65535) {
        Some(v) => Some(v as u16),
        None => None,
    }
}

} // verus!

verus! {

/// `char::is_whitespace`: the Unicode `White_Space` property.
pub open spec fn is_white(c: char) -> bool {
    ||| ('\t' <= c && c <= '\r')
    ||| c == ' '
    ||| c == '\u{85}'
    ||| c == '\u{a0}'
    ||| c == '\u{1680}'
    ||| ('\u{2000}' <= c && c <= '\u{200a}')
    ||| c == '\u{2028}'
    ||| c == '\u{2029}'
    ||| c == '\u{202f}'
    ||| c == '\u{205f}'
    ||| c == '\u{3000}'
}

/// The number of leading whitespace characters of `s`.
pub open spec fn leading_white(s: Seq<char>) -> nat
    decreases s.len(),
{
    if s.len() > 0 && is_white(s[0]) {
        1 + leading_white(s.drop_first())
    } else {
        0
    }
}

/// The number of trailing whitespace characters of `s`.
pub open spec fn trailing_white(s: Seq<char>) -> nat
    decreases s.len(),
{
    if s.len() > 0 && is_white(s.last()) {
        1 + trailing_white(s.drop_last())
    } else {
        0
    }
}

/// `s` without leading and trailing whitespace (`str::trim`).
pub open spec fn trim_seq(s: Seq<char>) -> Seq<char> {
    let rest = s.skip(leading_white(s) as int);
    rest.take(rest.len() - trailing_white(rest))
}

/// Whether `c` is whitespace (`char::is_whitespace`).
pub fn is_whitespace(c: char) -> (r: bool)
    ensures
        r == is_white(c),
{
    ('\t' <= c && c <= '\r') || c == ' ' || c == '\u{85}' || c == '\u{a0}' || c == '\u{1680}'
        || ('\u{2000}' <= c && c <= '\u{200a}') || c == '\u{2028}' || c == '\u{2029}' || c == '\u{202f}'
        || c == '\u{205f}' || c == '\u{3000}'
}

proof fn lemma_leading_white(s: Seq<char>, i: int)
    requires
        0 <= i <= s.len(),
        forall|k: int| 0 <= k < i ==> is_white(s[k]),
        i == s.len() || !is_white(s[i]),
    ensures
        leading_white(s) == i,
    decreases i,
{
    if i > 0 {
        let t = s.drop_first();
        assert forall|k: int| 0 <= k < i - 1 implies is_white(t[k]) by {
            assert(t[k] == s[k + 1]);
        }
        if i - 1 < t.len() {
            assert(t[i - 1] == s[i]);
        }
        lemma_leading_white(t, i - 1);
    }
}

proof fn lemma_trailing_white(s: Seq<char>, j: int)
    requires
        0 <= j <= s.len(),
        forall|k: int| s.len() - j <= k < s.len() ==> is_white(s[k]),
        j == s.len() || !is_white(s[s.len() - j - 1]),
    ensures
        trailing_white(s) == j,
    decreases j,
{
    if j > 0 {
        let t = s.drop_last();
        assert forall|k: int| t.len() - (j - 1) <= k < t.len() implies is_white(t[k]) by {
            assert(t[k] == s[k]);
        }
        if j - 1 < t.len() {
            assert(t[t.len() - (j - 1) - 1] == s[s.len() - j - 1]);
        }
        lemma_trailing_white(t, j - 1);
    }
}

/// `s` without leading and trailing whitespace (`str::trim`).
pub fn trim(s: &str) -> (r: String)
    ensures
        r@ == trim_seq(s@),
{
    let n = s.unicode_len();
    let mut i: usize = 0;
    while i < n && is_whitespace(s.get_char(i))
        invariant
            n == s@.len(),
            i <= n,
            forall|k: int| 0 <= k < i ==> is_white(s@[k]),
        decreases n - i,
    {
        i = i + 1;
    }
    proof {
        lemma_leading_white(s@, i as int);
    }
    let ghost rest = s@.skip(i as int);
    let mut end: usize = n;
    while end > i && is_whitespace(s.get_char(end - 1))
        invariant
            n == s@.len(),
            i <= end <= n,
            rest == s@.skip(i as int),
            forall|k: int| end <= k < n ==> is_white(s@[k]),
        decreases end,
    {
        end = end - 1;
    }
    proof {
        let j = (n - end) as int;
        assert forall|k: int| rest.len() - j <= k < rest.len() implies is_white(rest[k]) by {
            assert(rest[k] == s@[k + i]);
        }
        if j < rest.len() {
            assert(rest[rest.len() - j - 1] == s@[end - 1]);
        }
        lemma_trailing_white(rest, j);
    }
    let part = s.substring_char(i, end);
    assert(part@ =~= rest.take(rest.len() - trailing_white(rest)));
    String::from_str(part)
}

/// The position of the last `c` in `s`.
pub open spec fn last_index_of(s: Seq<char>, c: char) -> Option<int>
    decreases s.len(),
{
    if s.len() == 0 {
        None
    } else if s.last() == c {
        Some(s.len() - 1)
    } else {
        last_index_of(s.drop_last(), c)
    }
}

proof fn lemma_last_index_of(s: Seq<char>, c: char, i: int)
    requires
        -1 <= i < s.len(),
        forall|k: int| i < k < s.len() ==> s[k] != c,
        i == -1 || s[i] == c,
    ensures
        last_index_of(s, c) == (if i == -1 { None::<int> } else { Some(i) }),
    decreases s.len(),
{
    if s.len() > 0 && s.last() != c {
        let t = s.drop_last();
        assert forall|k: int| i < k < t.len() implies t[k] != c by {
            assert(t[k] == s[k]);
        }
        if i >= 0 {
            assert(t[i] == s[i]);
        }
        lemma_last_index_of(t, c, i);
    }
}

/// Splits `s` at its last `c` (`str::rsplit_once` with a character).
pub fn rsplit_once_char(s: &str, c: char) -> (r: Option<(String, String)>)
    ensures
        match last_index_of(s@, c) {
            Some(i) => r matches Some(parts) && parts.0@ == s@.take(i) && parts.1@ == s@.skip(i + 1),
            None => r is None,
        },
{
    let n = s.unicode_len();
    let mut k: usize = n;
    while k > 0 && s.get_char(k - 1) != c
        invariant
            n == s@.len(),
            k <= n,
            forall|m: int| k <= m < n ==> s@[m] != c,
        decreases k,
    {
        k = k - 1;
    }
    proof {
        lemma_last_index_of(s@, c, k - 1);
    }
    if k == 0 {
        None
    } else {
        let head = s.substring_char(0, k - 1);
        let tail = s.substring_char(k, n);
        assert(head@ =~= s@.take(k - 1));
        assert(tail@ =~= s@.skip(k as int));
        Some((String::from_str(head), String::from_str(tail)))
    }
}

} // verus!

verus! {

/// `s` with every occurrence of `from`, scanned left to right without overlap, replaced by `to`
/// (`str::replace` with a non-empty pattern).
pub open spec fn replace_seq(s: Seq<char>, from: Seq<char>, to: Seq<char>) -> Seq<char>
    decreases s.len(),
{
    if from.len() == 0 || s.len() < from.len() {
        s
    } else if s.take(from.len() as int) == from {
        to + replace_seq(s.skip(from.len() as int), from, to)
    } else {
        seq![s[0]] + replace_seq(s.drop_first(), from, to)
    }
}

/// Replaces every occurrence of `from` in `s` by `to` (`str::replace`).
pub fn replace_all(s: &str, from: &str, to: &str) -> (r: String)
    requires
        from@.len() > 0,
    ensures
        r@ == replace_seq(s@, from@, to@),
{
    let n = s.unicode_len();
    let m = from.unicode_len();
    let mut out = String::new();
    let mut i: usize = 0;
    assert(s@.skip(0) =~= s@);
    assert(out@ + replace_seq(s@, from@, to@) =~= replace_seq(s@, from@, to@));
    while i < n
        invariant
            n == s@.len(),
            m == from@.len(),
            m > 0,
            i <= n,
            out@ + replace_seq(s@.skip(i as int), from@, to@) == replace_seq(s@, from@, to@),
        decreases n - i,
    {
        let ghost rest = s@.skip(i as int);
        if m <= n - i && matches_at(s, from, i) {
            assert(rest.take(m as int) =~= s@.subrange(i as int, i + m));
            assert(rest.skip(m as int) =~= s@.skip(i + m));
            out.append(to);
            i = i + m;
            proof {
                assert(replace_seq(rest, from@, to@) == to@ + replace_seq(s@.skip(i as int), from@, to@));
            }
        } else {
            proof {
                if rest.len() >= m {
                    assert(rest.take(m as int) =~= s@.subrange(i as int, i + m));
                }
                assert(rest.drop_first() =~= s@.skip(i + 1));
            }
            let one = s.substring_char(i, i + 1);
            assert(one@ =~= seq![rest[0]]);
            out.append(one);
            i = i + 1;
        }
    }
    assert(s@.skip(n as int) =~= Seq::<char>::empty());
    assert(out@ + Seq::<char>::empty() =~= out@);
    out
}

} // verus!

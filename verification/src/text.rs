use vstd::prelude::*;
use vstd::string::StrSliceExecFns;
use vstd::string::StringExecFns;

verus! {

/// Character-for-character equality of two string slices.
pub fn str_eq(a: &str, b: &str) -> (r: bool)
    ensures
        r == (a@ == b@),
{
    let alen = a.unicode_len();
    let blen = b.unicode_len();
    if alen != blen {
        return false;
    }
    let mut i: usize = 0;
    while i < alen
        invariant
            alen == a@.len(),
            blen == b@.len(),
            alen == blen,
            i <= alen,
            forall|j: int| 0 <= j < i ==> a@[j] == b@[j],
        decreases alen - i,
    {
        if a.get_char(i) != b.get_char(i) {
            return false;
        }
        i += 1;
    }
    proof {
        assert(a@ =~= b@);
    }
    true
}

/// Concatenation of two strings.
pub fn s2(a: &str, b: &str) -> (r: String)
    ensures
        r@ == a@ + b@,
{
    String::from_str(a).concat(b)
}

/// Concatenation of three strings.
pub fn s3(a: &str, b: &str, c: &str) -> (r: String)
    ensures
        r@ == a@ + b@ + c@,
{
    String::from_str(a).concat(b).concat(c)
}

/// Concatenation of four strings.
pub fn s4(a: &str, b: &str, c: &str, d: &str) -> (r: String)
    ensures
        r@ == a@ + b@ + c@ + d@,
{
    String::from_str(a).concat(b).concat(c).concat(d)
}

/// Concatenation of five strings.
pub fn s5(a: &str, b: &str, c: &str, d: &str, e: &str) -> (r: String)
    ensures
        r@ == a@ + b@ + c@ + d@ + e@,
{
    String::from_str(a).concat(b).concat(c).concat(d).concat(e)
}

/// Concatenation of six strings.
pub fn s6(a: &str, b: &str, c: &str, d: &str, e: &str, f: &str) -> (r: String)
    ensures
        r@ == a@ + b@ + c@ + d@ + e@ + f@,
{
    String::from_str(a).concat(b).concat(c).concat(d).concat(e).concat(f)
}

/// Concatenation of seven strings.
pub fn s7(a: &str, b: &str, c: &str, d: &str, e: &str, f: &str, g: &str) -> (r: String)
    ensures
        r@ == a@ + b@ + c@ + d@ + e@ + f@ + g@,
{
    String::from_str(a).concat(b).concat(c).concat(d).concat(e).concat(f).concat(g)
}

/// True when `pat` occurs in `s` at position `i`.
pub open spec fn spec_matches_at(s: Seq<char>, pat: Seq<char>, i: int) -> bool {
    0 <= i && i + pat.len() <= s.len() && s.subrange(i, i + pat.len() as int) == pat
}

/// True when `pat` occurs somewhere in `s`.
pub open spec fn spec_contains(s: Seq<char>, pat: Seq<char>) -> bool {
    exists|i: int| spec_matches_at(s, pat, i)
}

/// Whether `pat` occurs in `s` at character position `i`.
pub fn matches_at(s: &str, pat: &str, i: usize) -> (r: bool)
    requires
        i <= s@.len(),
    ensures
        r == spec_matches_at(s@, pat@, i as int),
{
    let slen = s.unicode_len();
    let plen = pat.unicode_len();
    if plen > slen - i {
        return false;
    }
    let mut j: usize = 0;
    while j < plen
        invariant
            slen == s@.len(),
            plen == pat@.len(),
            i + plen <= slen,
            j <= plen,
            forall|k: int| 0 <= k < j ==> s@[i + k] == pat@[k],
        decreases plen - j,
    {
        if s.get_char(i + j) != pat.get_char(j) {
            proof {
                assert(s@.subrange(i as int, i + pat@.len() as int)[j as int] == s@[i + j]);
            }
            return false;
        }
        j += 1;
    }
    proof {
        assert(s@.subrange(i as int, i + pat@.len() as int) =~= pat@);
    }
    true
}

/// Whether `s` begins with `pat`.
pub open spec fn spec_starts_with(s: Seq<char>, pat: Seq<char>) -> bool {
    pat.len() <= s.len() && s.subrange(0, pat.len() as int) == pat
}

/// Whether `s` ends with `pat`.
pub open spec fn spec_ends_with(s: Seq<char>, pat: Seq<char>) -> bool {
    pat.len() <= s.len() && s.subrange(s.len() - pat.len(), s.len() as int) == pat
}

/// Whether `pat` occurs anywhere in `s`.
pub fn contains_str(s: &str, pat: &str) -> (r: bool)
    ensures
        r == spec_contains(s@, pat@),
{
    let slen = s.unicode_len();
    let plen = pat.unicode_len();
    if plen > slen {
        proof {
            assert(forall|i: int| !spec_matches_at(s@, pat@, i));
        }
        return false;
    }
    if plen == 0 {
        proof {
            assert(s@.subrange(0, 0) =~= pat@);
            assert(spec_matches_at(s@, pat@, 0));
        }
        return true;
    }
    let mut i: usize = 0;
    while i <= slen - plen
        invariant
            slen == s@.len(),
            plen == pat@.len(),
            0 < plen <= slen,
            i <= slen - plen + 1,
            forall|k: int| 0 <= k < i ==> !spec_matches_at(s@, pat@, k),
        decreases slen - i,
    {
        if matches_at(s, pat, i) {
            return true;
        }
        i += 1;
    }
    proof {
        assert(forall|k: int| spec_matches_at(s@, pat@, k) ==> 0 <= k <= slen - plen);
    }
    false
}

/// Whether `s` begins with `pat`.
pub fn starts_with_str(s: &str, pat: &str) -> (r: bool)
    ensures
        r == spec_starts_with(s@, pat@),
{
    matches_at(s, pat, 0)
}

/// Whether `s` ends with `pat`.
pub fn ends_with_str(s: &str, pat: &str) -> (r: bool)
    ensures
        r == spec_ends_with(s@, pat@),
{
    let slen = s.unicode_len();
    let plen = pat.unicode_len();
    if plen > slen {
        return false;
    }
    matches_at(s, pat, slen - plen)
}

/// Relies on String::push from std: appends the given char to the end of this String.
/// vstd gives this method no specification of its own.
pub assume_specification[ String::push ](s: &mut String, ch: char)
    ensures
        final(s)@ == old(s)@ + seq![ch],
;

/// Leftmost, non-overlapping replacement of `pat` by `sub`; an empty
/// pattern leaves the string unchanged.
pub open spec fn spec_replace(s: Seq<char>, pat: Seq<char>, sub: Seq<char>) -> Seq<char>
    decreases s.len(),
{
    if pat.len() == 0 {
        s
    } else if s.len() < pat.len() {
        s
    } else if s.subrange(0, pat.len() as int) == pat {
        sub + spec_replace(s.skip(pat.len() as int), pat, sub)
    } else {
        seq![s[0]] + spec_replace(s.skip(1), pat, sub)
    }
}

/// Replace every non-overlapping occurrence of `pat` in `s` by `sub`,
/// scanning from the left.
pub fn replace(s: &str, pat: &str, sub: &str) -> (r: String)
    ensures
        r@ == spec_replace(s@, pat@, sub@),
{
    let slen = s.unicode_len();
    let plen = pat.unicode_len();
    if plen == 0 {
        return String::from_str(s);
    }
    let mut out = String::new();
    let mut i: usize = 0;
    proof {
        assert(s@.skip(0) =~= s@);
        assert(Seq::<char>::empty() + spec_replace(s@, pat@, sub@) =~= spec_replace(
            s@,
            pat@,
            sub@,
        ));
    }
    while i < slen
        invariant
            slen == s@.len(),
            plen == pat@.len(),
            plen > 0,
            i <= slen,
            spec_replace(s@, pat@, sub@) == out@ + spec_replace(s@.skip(i as int), pat@, sub@),
        decreases slen - i,
    {
        let ghost rem = s@.skip(i as int);
        if matches_at(s, pat, i) {
            out.append(sub);
            proof {
                assert(rem.subrange(0, plen as int) =~= s@.subrange(i as int, i + plen));
                assert(rem.skip(plen as int) =~= s@.skip(i + plen));
                assert(spec_replace(rem, pat@, sub@) == sub@ + spec_replace(
                    s@.skip(i + plen),
                    pat@,
                    sub@,
                ));
            }
            i += plen;
        } else {
            out.append(s.substring_char(i, i + 1));
            proof {
                assert(rem[0] == s@[i as int]);
                assert(s@.subrange(i as int, i + 1) =~= seq![rem[0]]);
                assert(rem.skip(1) =~= s@.skip(i + 1));
                if rem.len() >= plen {
                    assert(rem.subrange(0, plen as int) =~= s@.subrange(i as int, i + plen));
                    assert(spec_replace(rem, pat@, sub@) == seq![rem[0]] + spec_replace(
                        rem.skip(1),
                        pat@,
                        sub@,
                    ));
                } else {
                    assert(spec_replace(rem, pat@, sub@) == rem);
                    assert(rem.skip(1).len() < plen);
                    assert(spec_replace(rem.skip(1), pat@, sub@) == rem.skip(1));
                    assert(rem =~= seq![rem[0]] + rem.skip(1));
                }
            }
            i += 1;
        }
    }
    proof {
        assert(s@.skip(slen as int) =~= Seq::<char>::empty());
        assert(out@ + Seq::<char>::empty() =~= out@);
    }
    out
}

/// The decimal digit character for `d`.
pub open spec fn spec_digit_char(d: int) -> char {
    (48 + d) as char
}

/// The decimal digits of a non-negative number, most significant first.
pub open spec fn spec_u64_digits(n: int) -> Seq<char>
    decreases n,
{
    if n < 10 {
        seq![spec_digit_char(n)]
    } else {
        spec_u64_digits(n / 10) + seq![spec_digit_char(n % 10)]
    }
}

/// The one-character string for a decimal digit.
fn digit_str(d: u64) -> (r: &'static str)
    requires
        d < 10,
    ensures
        r@ == seq![spec_digit_char(d as int)],
{
    match d {
        0 => {
            proof {
                reveal_strlit("0");
                assert("0"@ =~= seq![spec_digit_char(0)]);
            }
            "0"
        },
        1 => {
            proof {
                reveal_strlit("1");
                assert("1"@ =~= seq![spec_digit_char(1)]);
            }
            "1"
        },
        2 => {
            proof {
                reveal_strlit("2");
                assert("2"@ =~= seq![spec_digit_char(2)]);
            }
            "2"
        },
        3 => {
            proof {
                reveal_strlit("3");
                assert("3"@ =~= seq![spec_digit_char(3)]);
            }
            "3"
        },
        4 => {
            proof {
                reveal_strlit("4");
                assert("4"@ =~= seq![spec_digit_char(4)]);
            }
            "4"
        },
        5 => {
            proof {
                reveal_strlit("5");
                assert("5"@ =~= seq![spec_digit_char(5)]);
            }
            "5"
        },
        6 => {
            proof {
                reveal_strlit("6");
                assert("6"@ =~= seq![spec_digit_char(6)]);
            }
            "6"
        },
        7 => {
            proof {
                reveal_strlit("7");
                assert("7"@ =~= seq![spec_digit_char(7)]);
            }
            "7"
        },
        8 => {
            proof {
                reveal_strlit("8");
                assert("8"@ =~= seq![spec_digit_char(8)]);
            }
            "8"
        },
        _ => {
            proof {
                reveal_strlit("9");
                assert("9"@ =~= seq![spec_digit_char(9)]);
            }
            "9"
        },
    }
}

/// Decimal rendering of a number.
pub fn u64_to_string(n: u64) -> (r: String)
    ensures
        r@ == spec_u64_digits(n as int),
    decreases n,
{
    if n < 10 {
        String::from_str(digit_str(n))
    } else {
        let mut r = u64_to_string(n / 10);
        r.append(digit_str(n % 10));
        r
    }
}

/// A non-empty sequence of decimal digit characters.
pub open spec fn spec_is_digits(s: Seq<char>) -> bool {
    s.len() > 0 && forall|i: int| 0 <= i < s.len() ==> '0' <= #[trigger] s[i] <= '9'
}

/// The number denoted by a sequence of decimal digit characters.
pub open spec fn spec_digits_val(s: Seq<char>) -> int
    decreases s.len(),
{
    if s.len() == 0 {
        0
    } else {
        spec_digits_val(s.drop_last()) * 10 + (s.last() as int - 48)
    }
}

/// What `str::parse::<u64>` followed by `unwrap_or(0)` yields: the denoted
/// number when the text is all digits and fits, and zero otherwise.
pub open spec fn spec_parse_u64_or_zero(s: Seq<char>) -> int {
    if spec_is_digits(s) && spec_digits_val(s) <= u64::MAX {
        spec_digits_val(s)
    } else {
        0
    }
}

proof fn lemma_digits_val_nonneg(s: Seq<char>)
    requires
        forall|i: int| 0 <= i < s.len() ==> '0' <= #[trigger] s[i] <= '9',
    ensures
        spec_digits_val(s) >= 0,
    decreases s.len(),
{
    if s.len() > 0 {
        lemma_digits_val_nonneg(s.drop_last());
    }
}

proof fn lemma_digits_val_prefix(s: Seq<char>, k: int)
    requires
        forall|i: int| 0 <= i < s.len() ==> '0' <= #[trigger] s[i] <= '9',
        0 <= k <= s.len(),
    ensures
        spec_digits_val(s.take(k)) <= spec_digits_val(s),
    decreases s.len() - k,
{
    if k == s.len() {
        assert(s.take(k) =~= s);
    } else {
        lemma_digits_val_prefix(s, k + 1);
        lemma_digits_val_nonneg(s.take(k));
        assert(s.take(k + 1).drop_last() =~= s.take(k));
        assert(s.take(k + 1).last() == s[k]);
        assert(spec_digits_val(s.take(k + 1)) == spec_digits_val(s.take(k)) * 10 + (s[k] as int
            - 48));
    }
}

/// What `str::parse::<u64>().unwrap_or(0)` returns on this text.
pub fn parse_u64_or_zero(s: &str) -> (r: u64)
    ensures
        r as int == spec_parse_u64_or_zero(s@),
{
    let len = s.unicode_len();
    if len == 0 {
        return 0;
    }
    let mut acc: u64 = 0;
    let mut i: usize = 0;
    while i < len
        invariant
            len == s@.len(),
            0 < len,
            i <= len,
            forall|j: int| 0 <= j < i ==> '0' <= #[trigger] s@[j] <= '9',
            acc as int == spec_digits_val(s@.take(i as int)),
        decreases len - i,
    {
        let c = s.get_char(i);
        if c < '0' || c > '9' {
            return 0;
        }
        let d: u64 = (c as u32 - 48) as u64;
        let next = match acc.checked_mul(10) {
            Some(x) => x.checked_add(d),
            None => None,
        };
        proof {
            assert(s@.take(i + 1).drop_last() =~= s@.take(i as int));
            assert(s@.take(i + 1).last() == s@[i as int]);
            assert(spec_digits_val(s@.take(i + 1)) == acc as int * 10 + d);
        }
        match next {
            Some(v) => {
                acc = v;
            },
            None => {
                proof {
                    if spec_is_digits(s@) {
                        lemma_digits_val_prefix(s@, i + 1);
                        assert(spec_digits_val(s@) > u64::MAX);
                    }
                }
                return 0;
            },
        }
        i += 1;
    }
    proof {
        assert(s@.take(len as int) =~= s@);
    }
    acc
}

/// Whether `c` is one of the ASCII whitespace characters.
pub open spec fn spec_is_space(c: char) -> bool {
    c == ' ' || c == '\t' || c == '\n' || c == '\r' || c == '\u{b}' || c == '\u{c}'
}

fn is_space_c(c: char) -> (r: bool)
    ensures
        r == spec_is_space(c),
{
    c == ' ' || c == '\t' || c == '\n' || c == '\r' || c == '\u{b}' || c == '\u{c}'
}

/// `s` with leading whitespace removed.
pub open spec fn spec_trim_start(s: Seq<char>) -> Seq<char>
    decreases s.len(),
{
    if s.len() > 0 && spec_is_space(s[0]) {
        spec_trim_start(s.skip(1))
    } else {
        s
    }
}

/// `s` with trailing whitespace removed.
pub open spec fn spec_trim_end(s: Seq<char>) -> Seq<char>
    decreases s.len(),
{
    if s.len() > 0 && spec_is_space(s.last()) {
        spec_trim_end(s.drop_last())
    } else {
        s
    }
}

/// `s` with surrounding whitespace removed.
pub open spec fn spec_trim(s: Seq<char>) -> Seq<char> {
    spec_trim_end(spec_trim_start(s))
}

proof fn lemma_trim_start_at(s: Seq<char>, k: int)
    requires
        0 <= k <= s.len(),
        forall|j: int| 0 <= j < k ==> spec_is_space(#[trigger] s[j]),
        k == s.len() || !spec_is_space(s[k]),
    ensures
        spec_trim_start(s) == s.skip(k),
    decreases k,
{
    if k == 0 {
        assert(s.skip(0) =~= s);
    } else {
        assert(spec_is_space(s[0]));
        lemma_trim_start_at(s.skip(1), k - 1);
        assert(s.skip(1).skip(k - 1) =~= s.skip(k));
    }
}

proof fn lemma_trim_end_at(s: Seq<char>, k: int)
    requires
        0 <= k <= s.len(),
        forall|j: int| k <= j < s.len() ==> spec_is_space(#[trigger] s[j]),
        k == 0 || !spec_is_space(s[k - 1]),
    ensures
        spec_trim_end(s) == s.take(k),
    decreases s.len() - k,
{
    if k == s.len() {
        assert(s.take(k) =~= s);
    } else {
        assert(spec_is_space(s.last()));
        lemma_trim_end_at(s.drop_last(), k);
        assert(s.drop_last().take(k) =~= s.take(k));
    }
}

/// What `str::trim` returns, over the ASCII whitespace characters.
pub fn trim<'a>(s: &'a str) -> (r: &'a str)
    ensures
        r@ == spec_trim(s@),
{
    let len = s.unicode_len();
    let mut start: usize = 0;
    while start < len && is_space_c(s.get_char(start))
        invariant
            len == s@.len(),
            start <= len,
            forall|j: int| 0 <= j < start ==> spec_is_space(#[trigger] s@[j]),
        decreases len - start,
    {
        start += 1;
    }
    proof {
        lemma_trim_start_at(s@, start as int);
    }
    let ghost t = s@.skip(start as int);
    let mut end: usize = len;
    while end > start && is_space_c(s.get_char(end - 1))
        invariant
            len == s@.len(),
            start <= end <= len,
            forall|j: int| end <= j < len ==> spec_is_space(#[trigger] s@[j]),
        decreases end,
    {
        end -= 1;
    }
    proof {
        lemma_trim_end_at(t, end - start);
        assert(t.take(end - start) =~= s@.subrange(start as int, end as int));
    }
    s.substring_char(start, end)
}

/// The position of the first occurrence of `c` in `s`, or -1.
pub open spec fn spec_find(s: Seq<char>, c: char) -> int
    decreases s.len(),
{
    if s.len() == 0 {
        -1
    } else if s[0] == c {
        0
    } else if spec_find(s.skip(1), c) < 0 {
        -1
    } else {
        1 + spec_find(s.skip(1), c)
    }
}

pub proof fn lemma_find_bounds(s: Seq<char>, c: char)
    ensures
        -1 <= spec_find(s, c) < s.len(),
        spec_find(s, c) >= 0 ==> s[spec_find(s, c)] == c,
    decreases s.len(),
{
    if s.len() > 0 && s[0] != c {
        lemma_find_bounds(s.skip(1), c);
    }
}

proof fn lemma_find_at(s: Seq<char>, c: char, i: int)
    requires
        0 <= i <= s.len(),
        forall|j: int| 0 <= j < i ==> #[trigger] s[j] != c,
        i == s.len() || s[i] == c,
    ensures
        spec_find(s, c) == if i == s.len() {
            -1int
        } else {
            i
        },
    decreases s.len(),
{
    if s.len() > 0 && i > 0 {
        lemma_find_at(s.skip(1), c, i - 1);
    }
}

/// The position of the first occurrence of `c` in `s`, if any.
pub fn find_char(s: &str, c: char) -> (r: Option<usize>)
    ensures
        spec_find(s@, c) >= 0 ==> r == Some(spec_find(s@, c) as usize),
        spec_find(s@, c) < 0 ==> r.is_none(),
{
    let len = s.unicode_len();
    let mut i: usize = 0;
    while i < len
        invariant
            len == s@.len(),
            i <= len,
            forall|j: int| 0 <= j < i ==> #[trigger] s@[j] != c,
        decreases len - i,
    {
        if s.get_char(i) == c {
            proof {
                lemma_find_at(s@, c, i as int);
            }
            return Some(i);
        }
        i += 1;
    }
    proof {
        lemma_find_at(s@, c, len as int);
    }
    None
}

/// The position of the last occurrence of `c` in `s`, or -1.
pub open spec fn spec_rfind(s: Seq<char>, c: char) -> int
    decreases s.len(),
{
    if s.len() == 0 {
        -1
    } else if s.last() == c {
        s.len() - 1
    } else {
        spec_rfind(s.drop_last(), c)
    }
}

proof fn lemma_rfind_at(s: Seq<char>, c: char, i: int)
    requires
        -1 <= i < s.len(),
        forall|j: int| i < j < s.len() ==> #[trigger] s[j] != c,
        i == -1 || s[i] == c,
    ensures
        spec_rfind(s, c) == i,
    decreases s.len(),
{
    if s.len() > 0 && i < s.len() - 1 {
        lemma_rfind_at(s.drop_last(), c, i);
    }
}

/// The position of the last occurrence of `c` in `s`, if any.
pub fn rfind_char(s: &str, c: char) -> (r: Option<usize>)
    ensures
        r matches Some(i) ==> i as int == spec_rfind(s@, c) && i < s@.len(),
        r is None ==> spec_rfind(s@, c) < 0,
{
    let len = s.unicode_len();
    let mut i: usize = len;
    while i > 0
        invariant
            len == s@.len(),
            i <= len,
            forall|j: int| i <= j < len ==> #[trigger] s@[j] != c,
        decreases i,
    {
        if s.get_char(i - 1) == c {
            proof {
                lemma_rfind_at(s@, c, i - 1);
            }
            return Some(i - 1);
        }
        i -= 1;
    }
    proof {
        lemma_rfind_at(s@, c, -1);
    }
    None
}

/// A line's text with one trailing carriage return removed.
pub open spec fn spec_strip_cr(l: Seq<char>) -> Seq<char> {
    if l.len() > 0 && l.last() == '\r' {
        l.drop_last()
    } else {
        l
    }
}

/// What `str::lines` yields: pieces split at newlines, each with a
/// trailing carriage return removed, and no final empty piece.
pub open spec fn spec_lines(s: Seq<char>) -> Seq<Seq<char>>
    decreases s.len(),
    via spec_lines_dec
{
    if s.len() == 0 {
        seq![]
    } else if spec_find(s, '\n') < 0 {
        seq![s]
    } else {
        seq![spec_strip_cr(s.take(spec_find(s, '\n')))] + spec_lines(
            s.skip(spec_find(s, '\n') + 1),
        )
    }
}

#[via_fn]
proof fn spec_lines_dec(s: Seq<char>) {
    lemma_find_bounds(s, '\n');
}

/// The lines of `s`, as `str::lines` yields them.
pub fn split_lines(s: &str) -> (r: Vec<String>)
    ensures
        r.deep_view() == spec_lines(s@),
    decreases s@.len(),
{
    let len = s.unicode_len();
    if len == 0 {
        let r: Vec<String> = Vec::new();
        proof {
            assert(r.deep_view() =~= spec_lines(s@));
        }
        return r;
    }
    match find_char(s, '\n') {
        None => {
            let mut r: Vec<String> = Vec::new();
            r.push(String::from_str(s));
            proof {
                assert(r.deep_view() =~= seq![s@]);
            }
            r
        },
        Some(i) => {
            proof {
                lemma_find_bounds(s@, '\n');
            }
            let line_end: usize = if i > 0 && s.get_char(i - 1) == '\r' {
                i - 1
            } else {
                i
            };
            let line = s.substring_char(0, line_end);
            let rest = s.substring_char(i + 1, len);
            let mut r = split_lines(rest);
            r.insert(0, String::from_str(line));
            proof {
                if i > 0 && s@[i - 1] == '\r' {
                    assert(s@.take(i as int).drop_last() =~= s@.subrange(0, i - 1));
                }
                assert(line@ =~= spec_strip_cr(s@.take(i as int)));
                assert(rest@ =~= s@.skip(i + 1));
                assert(r.deep_view() =~= seq![spec_strip_cr(s@.take(i as int))] + spec_lines(
                    rest@,
                ));
            }
            r
        },
    }
}

/// The length of the run of non-whitespace characters at the head of `s`.
pub open spec fn spec_token_len(s: Seq<char>) -> int
    decreases s.len(),
{
    if s.len() == 0 || spec_is_space(s[0]) {
        0
    } else {
        1 + spec_token_len(s.skip(1))
    }
}

pub proof fn lemma_token_len_bounds(s: Seq<char>)
    ensures
        0 <= spec_token_len(s) <= s.len(),
    decreases s.len(),
{
    if s.len() > 0 && !spec_is_space(s[0]) {
        lemma_token_len_bounds(s.skip(1));
    }
}

proof fn lemma_token_len_at(s: Seq<char>, i: int)
    requires
        0 <= i <= s.len(),
        forall|j: int| 0 <= j < i ==> !spec_is_space(#[trigger] s[j]),
        i == s.len() || spec_is_space(s[i]),
    ensures
        spec_token_len(s) == i,
    decreases s.len(),
{
    if s.len() > 0 && i > 0 {
        lemma_token_len_at(s.skip(1), i - 1);
    }
}

/// What `str::split_whitespace` yields, over the ASCII whitespace characters.
pub open spec fn spec_tokens(s: Seq<char>) -> Seq<Seq<char>>
    decreases s.len(),
    via spec_tokens_dec
{
    if s.len() == 0 {
        seq![]
    } else if spec_is_space(s[0]) {
        spec_tokens(s.skip(1))
    } else {
        seq![s.take(spec_token_len(s))] + spec_tokens(s.skip(spec_token_len(s)))
    }
}

#[via_fn]
proof fn spec_tokens_dec(s: Seq<char>) {
    if s.len() > 0 && !spec_is_space(s[0]) {
        lemma_token_len_bounds(s.skip(1));
    }
}

fn token_run(s: &str) -> (r: usize)
    ensures
        r as int == spec_token_len(s@),
{
    let len = s.unicode_len();
    let mut i: usize = 0;
    while i < len && !is_space_c(s.get_char(i))
        invariant
            len == s@.len(),
            i <= len,
            forall|j: int| 0 <= j < i ==> !spec_is_space(#[trigger] s@[j]),
        decreases len - i,
    {
        i += 1;
    }
    proof {
        lemma_token_len_at(s@, i as int);
    }
    i
}

/// The whitespace-separated tokens of `s`.
pub fn split_whitespace_vec(s: &str) -> (r: Vec<String>)
    ensures
        r.deep_view() == spec_tokens(s@),
    decreases s@.len(),
{
    let len = s.unicode_len();
    if len == 0 {
        let r: Vec<String> = Vec::new();
        proof {
            assert(r.deep_view() =~= spec_tokens(s@));
        }
        return r;
    }
    if is_space_c(s.get_char(0)) {
        let rest = s.substring_char(1, len);
        let r = split_whitespace_vec(rest);
        proof {
            assert(rest@ =~= s@.skip(1));
        }
        return r;
    }
    let tl = token_run(s);
    proof {
        lemma_token_len_bounds(s@);
        lemma_token_len_bounds(s@.skip(1));
        assert(spec_token_len(s@) >= 1);
    }
    let tok = s.substring_char(0, tl);
    let rest = s.substring_char(tl, len);
    let mut r = split_whitespace_vec(rest);
    r.insert(0, String::from_str(tok));
    proof {
        assert(rest@ =~= s@.skip(spec_token_len(s@)));
        assert(r.deep_view() =~= seq![s@.take(spec_token_len(s@))] + spec_tokens(
            s@.skip(spec_token_len(s@)),
        ));
    }
    r
}

/// The pieces of `s` split at every occurrence of `c`, empty pieces kept.
pub open spec fn spec_split_char(s: Seq<char>, c: char) -> Seq<Seq<char>>
    decreases s.len(),
    via spec_split_char_dec
{
    if spec_find(s, c) < 0 {
        seq![s]
    } else {
        seq![s.take(spec_find(s, c))] + spec_split_char(s.skip(spec_find(s, c) + 1), c)
    }
}

#[via_fn]
proof fn spec_split_char_dec(s: Seq<char>, c: char) {
    lemma_find_bounds(s, c);
}

/// What `str::split(c)` yields.
pub fn split_char(s: &str, c: char) -> (r: Vec<String>)
    ensures
        r.deep_view() == spec_split_char(s@, c),
    decreases s@.len(),
{
    let len = s.unicode_len();
    match find_char(s, c) {
        None => {
            let mut r: Vec<String> = Vec::new();
            r.push(String::from_str(s));
            proof {
                assert(r.deep_view() =~= seq![s@]);
            }
            r
        },
        Some(i) => {
            proof {
                lemma_find_bounds(s@, c);
            }
            let piece = s.substring_char(0, i);
            let rest = s.substring_char(i + 1, len);
            let mut r = split_char(rest, c);
            r.insert(0, String::from_str(piece));
            proof {
                assert(rest@ =~= s@.skip(i + 1));
                assert(r.deep_view() =~= seq![s@.take(i as int)] + spec_split_char(rest@, c));
            }
            r
        },
    }
}

/// The lower-case form of an ASCII letter; other characters unchanged.
pub open spec fn spec_lower_char(c: char) -> char {
    if 'A' <= c && c <= 'Z' {
        ((c as int) + 32) as char
    } else {
        c
    }
}

/// `s` with every ASCII upper-case letter lowered.
pub open spec fn spec_lower(s: Seq<char>) -> Seq<char> {
    Seq::new(s.len(), |i: int| spec_lower_char(s[i]))
}

fn lower_char_c(c: char) -> (r: char)
    ensures
        r == spec_lower_char(c),
{
    match c {
        'A' => 'a',
        'B' => 'b',
        'C' => 'c',
        'D' => 'd',
        'E' => 'e',
        'F' => 'f',
        'G' => 'g',
        'H' => 'h',
        'I' => 'i',
        'J' => 'j',
        'K' => 'k',
        'L' => 'l',
        'M' => 'm',
        'N' => 'n',
        'O' => 'o',
        'P' => 'p',
        'Q' => 'q',
        'R' => 'r',
        'S' => 's',
        'T' => 't',
        'U' => 'u',
        'V' => 'v',
        'W' => 'w',
        'X' => 'x',
        'Y' => 'y',
        'Z' => 'z',
        _ => c,
    }
}

/// What `str::to_lowercase` returns on ASCII text.
pub fn to_lower_ascii(s: &str) -> (r: String)
    ensures
        r@ == spec_lower(s@),
{
    let len = s.unicode_len();
    let mut out = String::new();
    let mut i: usize = 0;
    while i < len
        invariant
            len == s@.len(),
            i <= len,
            out@ == spec_lower(s@).subrange(0, i as int),
        decreases len - i,
    {
        out.push(lower_char_c(s.get_char(i)));
        proof {
            assert(spec_lower(s@).subrange(0, i + 1) =~= spec_lower(s@).subrange(0, i as int)
                + seq![spec_lower_char(s@[i as int])]);
        }
        i += 1;
    }
    proof {
        assert(spec_lower(s@).subrange(0, len as int) =~= spec_lower(s@));
    }
    out
}

/// The octal digits of a non-negative number, most significant first.
pub open spec fn spec_octal_digits(n: int) -> Seq<char>
    decreases n,
{
    if n < 8 {
        seq![spec_digit_char(n)]
    } else {
        spec_octal_digits(n / 8) + seq![spec_digit_char(n % 8)]
    }
}

/// Octal rendering of a number, as `format!("{:o}", n)` writes it.
pub fn u32_to_octal_string(n: u32) -> (r: String)
    ensures
        r@ == spec_octal_digits(n as int),
    decreases n,
{
    if n < 8 {
        String::from_str(digit_str(n as u64))
    } else {
        let mut r = u32_to_octal_string(n / 8);
        r.append(digit_str((n % 8) as u64));
        r
    }
}

} // verus!

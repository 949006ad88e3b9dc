//! Character-sequence helpers with their specifications: substring search,
//! replacement, trimming and decimal parsing over `Seq<char>`.

use vstd::prelude::*;

verus! {

/// Whether `pat` occurs in `s` starting at index `i`.
pub open spec fn matches_at(s: Seq<char>, pat: Seq<char>, i: int) -> bool {
    0 <= i && i + pat.len() <= s.len() && s.subrange(i, i + pat.len()) == pat
}

/// The first index `k >= i` at which `pat` occurs in `s`.
pub open spec fn find_from(s: Seq<char>, pat: Seq<char>, i: int) -> Option<int>
    decreases s.len() + 1 - i,
{
    if i < 0 || i + pat.len() > s.len() {
        None
    } else if matches_at(s, pat, i) {
        Some(i)
    } else {
        find_from(s, pat, i + 1)
    }
}

/// The first occurrence of `pat` in `s` (as `str::find` reports it).
pub open spec fn find(s: Seq<char>, pat: Seq<char>) -> Option<int> {
    find_from(s, pat, 0)
}

/// Whether `pat` occurs in `s`.
pub open spec fn contains(s: Seq<char>, pat: Seq<char>) -> bool {
    find(s, pat) is Some
}

pub proof fn lemma_find_from_bounds(s: Seq<char>, pat: Seq<char>, i: int)
    requires
        0 <= i,
    ensures
        find_from(s, pat, i) matches Some(k) ==> i <= k && matches_at(s, pat, k)
            && forall|j: int| i <= j < k ==> !matches_at(s, pat, j),
        find_from(s, pat, i) is None ==> forall|j: int| i <= j ==> !matches_at(s, pat, j),
    decreases s.len() + 1 - i,
{
    if i + pat.len() > s.len() {
    } else if matches_at(s, pat, i) {
    } else {
        assert(s.subrange(i, i + 0) =~= Seq::<char>::empty());
        lemma_find_from_bounds(s, pat, i + 1);
    }
}

/// Every index in `[i, j)` fails to match, so the search from `i` equals the search from `j`.
pub proof fn lemma_find_from_skip(s: Seq<char>, pat: Seq<char>, i: int, j: int)
    requires
        0 <= i <= j,
        forall|k: int| i <= k < j ==> !matches_at(s, pat, k),
    ensures
        find_from(s, pat, i) == find_from(s, pat, j),
    decreases j - i,
{
    if i < j {
        if i + pat.len() > s.len() {
            lemma_find_from_bounds(s, pat, j);
            assert(find_from(s, pat, j) is None) by {
                if find_from(s, pat, j) is Some {
                    let k = find_from(s, pat, j)->0;
                    assert(matches_at(s, pat, k));
                }
            }
        } else {
            assert(!matches_at(s, pat, i));
            lemma_find_from_skip(s, pat, i + 1, j);
        }
    }
}

pub(crate) fn vec_matches_at(s: &Vec<char>, pat: &Vec<char>, i: usize) -> (r: bool)
    ensures
        r == matches_at(s@, pat@, i as int),
{
    if pat.len() > s.len() || i > s.len() - pat.len() {
        return false;
    }
    let mut k: usize = 0;
    while k < pat.len()
        invariant
            k <= pat.len(),
            i + pat.len() <= s.len(),
            forall|m: int| 0 <= m < k ==> s@[i + m] == pat@[m],
        decreases pat.len() - k,
    {
        if s[i + k] != pat[k] {
            assert(s@.subrange(i as int, i + pat.len())[k as int] != pat@[k as int]);
            return false;
        }
        k += 1;
    }
    assert(s@.subrange(i as int, i + pat.len()) =~= pat@);
    true
}

/// First occurrence of `pat` in `s` at or after `from`.
pub(crate) fn vec_find_from(s: &Vec<char>, pat: &Vec<char>, from: usize) -> (r: Option<usize>)
    ensures
        r matches Some(k) ==> find_from(s@, pat@, from as int) == Some(k as int),
        r is None ==> find_from(s@, pat@, from as int) is None,
{
    if pat.len() > s.len() || from > s.len() - pat.len() {
        return None;
    }
    let last = s.len() - pat.len();
    let mut i = from;
    loop
        invariant
            from <= i <= last,
            last + pat.len() == s.len(),
            forall|k: int| from <= k < i ==> !matches_at(s@, pat@, k),
        decreases last - i,
    {
        if vec_matches_at(s, pat, i) {
            proof {
                lemma_find_from_skip(s@, pat@, from as int, i as int);
            }
            return Some(i);
        }
        if i == last {
            proof {
                lemma_find_from_skip(s@, pat@, from as int, i + 1);
                assert(find_from(s@, pat@, i + 1) is None);
            }
            return None;
        }
        i += 1;
    }
}

/// `s[i..]` with every non-overlapping occurrence of `pat` (searched left to
/// right) replaced by `rep`, as `str::replace` does for a non-empty pattern.
pub open spec fn replace_from(s: Seq<char>, pat: Seq<char>, rep: Seq<char>, i: int) -> Seq<char>
    decreases s.len() + 1 - i,
{
    if pat.len() == 0 || i < 0 || i > s.len() {
        Seq::empty()
    } else {
        match find_from(s, pat, i) {
            None => s.subrange(i, s.len() as int),
            Some(k) => {
                proof {
                    lemma_find_from_bounds(s, pat, i);
                }
                s.subrange(i, k) + rep + replace_from(s, pat, rep, k + pat.len())
            },
        }
    }
}

/// `s` with every occurrence of the non-empty `pat` replaced by `rep`.
pub open spec fn replace_all(s: Seq<char>, pat: Seq<char>, rep: Seq<char>) -> Seq<char> {
    replace_from(s, pat, rep, 0)
}

/// Appends `s[from..to]` to `out`.
pub(crate) fn extend_range(out: &mut Vec<char>, s: &Vec<char>, from: usize, to: usize)
    requires
        from <= to <= s@.len(),
    ensures
        final(out)@ == old(out)@ + s@.subrange(from as int, to as int),
{
    let ghost start = out@;
    let mut i = from;
    while i < to
        invariant
            from <= i <= to <= s@.len(),
            out@ == start + s@.subrange(from as int, i as int),
        decreases to - i,
    {
        out.push(s[i]);
        i += 1;
        assert(s@.subrange(from as int, i as int) =~= s@.subrange(from as int, i - 1) + seq![s@[i - 1]]);
    }
}

pub(crate) fn vec_replace_all(s: &Vec<char>, pat: &Vec<char>, rep: &Vec<char>) -> (r: Vec<char>)
    requires
        pat@.len() > 0,
    ensures
        r@ == replace_all(s@, pat@, rep@),
{
    let mut out: Vec<char> = Vec::new();
    let mut i: usize = 0;
    loop
        invariant
            pat@.len() > 0,
            i <= s@.len(),
            out@ + replace_from(s@, pat@, rep@, i as int) == replace_all(s@, pat@, rep@),
        decreases s@.len() - i,
    {
        match vec_find_from(s, pat, i) {
            None => {
                extend_range(&mut out, s, i, s.len());
                return out;
            },
            Some(k) => {
                proof {
                    lemma_find_from_bounds(s@, pat@, i as int);
                    assert(matches_at(s@, pat@, k as int));
                }
                assert(k + pat@.len() <= s@.len());
                let ghost before = out@;
                extend_range(&mut out, s, i, k);
                let mut j: usize = 0;
                while j < rep.len()
                    invariant
                        j <= rep@.len(),
                        i <= k,
                        k + pat@.len() <= s@.len(),
                        out@ == before + s@.subrange(i as int, k as int) + rep@.subrange(0, j as int),
                    decreases rep@.len() - j,
                {
                    out.push(rep[j]);
                    j += 1;
                    assert(rep@.subrange(0, j as int) =~= rep@.subrange(0, j - 1) + seq![rep@[j - 1]]);
                }
                assert(rep@.subrange(0, rep@.len() as int) =~= rep@);
                assert(before + s@.subrange(i as int, k as int) + rep@ + replace_from(s@, pat@, rep@, k + pat@.len())
                    =~= before + (s@.subrange(i as int, k as int) + rep@ + replace_from(s@, pat@, rep@, k + pat@.len())));
                assert(k + pat@.len() <= s@.len());
                assert(s.len() == s@.len());
                i = k + pat.len();
            },
        }
    }
}

/// A string holding `s[from..to]`.
pub(crate) fn substring(s: &Vec<char>, from: usize, to: usize) -> (r: String)
    requires
        from <= to <= s@.len(),
    ensures
        r@ == s@.subrange(from as int, to as int),
{
    let mut out: Vec<char> = Vec::new();
    extend_range(&mut out, s, from, to);
    assert(Seq::<char>::empty() + s@.subrange(from as int, to as int) =~= s@.subrange(from as int, to as int));
    string_of(out.as_slice())
}

/// Whether two strings are equal.
pub(crate) fn text_eq(a: &str, b: &str) -> (r: bool)
    ensures
        r == (a@ == b@),
{
    let x = chars_of(a);
    let y = chars_of(b);
    if x.len() != y.len() {
        return false;
    }
    let mut i: usize = 0;
    while i < x.len()
        invariant
            x@ == a@,
            y@ == b@,
            x@.len() == y@.len(),
            i <= x@.len(),
            forall|k: int| 0 <= k < i ==> x@[k] == y@[k],
        decreases x@.len() - i,
    {
        if x[i] != y[i] {
            assert(x@[i as int] != y@[i as int]);
            assert(a@[i as int] != b@[i as int]);
            return false;
        }
        i += 1;
    }
    assert(x@ =~= y@);
    true
}

/// The concatenation of two strings.
pub(crate) fn join_str(a: &str, b: &str) -> (r: String)
    ensures
        r@ == a@ + b@,
{
    let mut v = chars_of(a);
    let w = chars_of(b);
    extend_range(&mut v, &w, 0, w.len());
    assert(w@.subrange(0, w@.len() as int) =~= w@);
    string_of(v.as_slice())
}

/// Whether `c` is an ASCII decimal digit.
pub open spec fn is_digit(c: char) -> bool {
    '0' <= c && c <= '9'
}

/// The value of a string of decimal digits.
pub open spec fn digits_value(s: Seq<char>) -> int
    decreases s.len(),
{
    if s.len() == 0 {
        0
    } else {
        digits_value(s.drop_last()) * 10 + (s.last() as int - '0' as int)
    }
}

/// The text after an optional leading `+`.
pub open spec fn unsigned_digits(s: Seq<char>) -> Seq<char> {
    if s.len() > 0 && s[0] == '+' {
        s.skip(1)
    } else {
        s
    }
}

/// Whether every character is a decimal digit.
pub open spec fn all_digits(d: Seq<char>) -> bool {
    forall|i: int| 0 <= i < d.len() ==> is_digit(#[trigger] d[i])
}

/// What `str::parse::<u32>` accepts: an optional `+`, then one or more decimal
/// digits whose value fits in `u32`.
pub open spec fn parse_u32_text(s: Seq<char>) -> Option<u32> {
    let d = unsigned_digits(s);
    if d.len() > 0 && all_digits(d) && digits_value(d) <= u32::MAX {
        Some(digits_value(d) as u32)
    } else {
        None
    }
}

pub proof fn lemma_digits_value_nonneg(s: Seq<char>)
    requires
        forall|i: int| 0 <= i < s.len() ==> is_digit(#[trigger] s[i]),
    ensures
        digits_value(s) >= 0,
    decreases s.len(),
{
    if s.len() > 0 {
        lemma_digits_value_nonneg(s.drop_last());
    }
}

/// Parses a `u32` the way `str::parse::<u32>` does.
pub(crate) fn parse_u32(s: &Vec<char>) -> (r: Option<u32>)
    ensures
        r == parse_u32_text(s@),
{
    let start: usize = if s.len() > 0 && s[0] == '+' { 1 } else { 0 };
    let ghost d = unsigned_digits(s@);
    assert(d =~= s@.subrange(start as int, s@.len() as int));
    if start >= s.len() {
        return None;
    }
    let mut value: u64 = 0;
    let mut i: usize = start;
    while i < s.len()
        invariant
            start <= i <= s@.len(),
            d == unsigned_digits(s@),
            d =~= s@.subrange(start as int, s@.len() as int),
            forall|k: int| start <= k < i ==> is_digit(#[trigger] s@[k]),
            value == digits_value(s@.subrange(start as int, i as int)),
            value <= u32::MAX,
        decreases s@.len() - i,
    {
        let c = s[i];
        if !('0' <= c && c <= '9') {
            assert(!is_digit(d[i - start]));
            return None;
        }
        let ghost prev = s@.subrange(start as int, i as int);
        let ghost next = s@.subrange(start as int, i + 1);
        assert(next.drop_last() =~= prev);
        assert(next.last() == c);
        value = value * 10 + (c as u64 - '0' as u64);
        i += 1;
        if value > 0xffff_ffff {
            proof {
                assert forall|k: int| 0 <= k < next.len() implies is_digit(#[trigger] next[k]) by {
                    assert(next[k] == s@[start + k]);
                }
                assert(next =~= d.take(next.len() as int));
                if all_digits(d) {
                    lemma_digits_prefix_le(d, next.len() as int);
                }
            }
            return None;
        }
    }
    assert(s@.subrange(start as int, i as int) =~= d);
    assert forall|k: int| 0 <= k < d.len() implies is_digit(#[trigger] d[k]) by {
        assert(d[k] == s@[start + k]);
    }
    Some(value as u32)
}

/// A longer all-digit string has a value at least that of its prefix.
pub proof fn lemma_digits_prefix_le(d: Seq<char>, n: int)
    requires
        0 <= n <= d.len(),
        forall|i: int| 0 <= i < d.len() ==> is_digit(#[trigger] d[i]),
    ensures
        digits_value(d.take(n)) <= digits_value(d),
    decreases d.len() - n,
{
    if n < d.len() {
        lemma_digits_prefix_le(d, n + 1);
        let t = d.take(n + 1);
        assert(t.drop_last() =~= d.take(n));
        assert(is_digit(t.last()));
        assert forall|i: int| 0 <= i < d.take(n).len() implies is_digit(#[trigger] d.take(n)[i]) by {
            assert(d.take(n)[i] == d[i]);
        }
        lemma_digits_value_nonneg(d.take(n));
    } else {
        assert(d.take(n) =~= d);
    }
}

/// `s` without its trailing run of `c` (`str::trim_end_matches` with a char).
pub open spec fn trim_end_char(s: Seq<char>, c: char) -> Seq<char>
    decreases s.len(),
{
    if s.len() > 0 && s.last() == c {
        trim_end_char(s.drop_last(), c)
    } else {
        s
    }
}

/// `s` without its leading run of `c` (`str::trim_start_matches` with a char).
pub open spec fn trim_start_char(s: Seq<char>, c: char) -> Seq<char>
    decreases s.len(),
{
    if s.len() > 0 && s[0] == c {
        trim_start_char(s.skip(1), c)
    } else {
        s
    }
}

pub(crate) fn vec_trim_end_char(s: &Vec<char>, c: char) -> (r: Vec<char>)
    ensures
        r@ == trim_end_char(s@, c),
{
    let mut end = s.len();
    assert(s@.take(end as int) =~= s@);
    while end > 0 && s[end - 1] == c
        invariant
            end <= s@.len(),
            trim_end_char(s@.take(end as int), c) == trim_end_char(s@, c),
        decreases end,
    {
        assert(s@.take(end as int).drop_last() =~= s@.take(end - 1));
        end -= 1;
    }
    let mut out: Vec<char> = Vec::new();
    extend_range(&mut out, s, 0, end);
    assert(out@ =~= s@.take(end as int));
    out
}

pub(crate) fn vec_trim_start_char(s: &Vec<char>, c: char) -> (r: Vec<char>)
    ensures
        r@ == trim_start_char(s@, c),
{
    let mut start: usize = 0;
    assert(s@.skip(0) =~= s@);
    while start < s.len() && s[start] == c
        invariant
            start <= s@.len(),
            trim_start_char(s@.skip(start as int), c) == trim_start_char(s@, c),
        decreases s@.len() - start,
    {
        assert(s@.skip(start as int).skip(1) =~= s@.skip(start + 1));
        start += 1;
    }
    let mut out: Vec<char> = Vec::new();
    extend_range(&mut out, s, start, s.len());
    assert(out@ =~= s@.skip(start as int));
    out
}

/// Unicode `White_Space`, the set that `char::is_whitespace` tests.
pub open spec fn is_space(c: char) -> bool {
    ||| ('\u{9}' <= c && c <= '\u{d}')
    ||| c == ' '
    ||| c == '\u{85}'
    ||| c == '\u{a0}'
    ||| c == '\u{1680}'
    ||| ('\u{2000}' <= c && c <= '\u{200a}')
    ||| c == '\u{2028}'
    ||| c == '\u{2029}'
    ||| c == '\u{202f}'
    ||| c == '\u{205f}'
    ||| c == '\u{3000}'
}

pub(crate) fn char_is_space(c: char) -> (r: bool)
    ensures
        r == is_space(c),
{
    ('\u{9}' <= c && c <= '\u{d}') || c == ' ' || c == '\u{85}' || c == '\u{a0}' || c
        == '\u{1680}' || ('\u{2000}' <= c && c <= '\u{200a}') || c == '\u{2028}' || c
        == '\u{2029}' || c == '\u{202f}' || c == '\u{205f}' || c == '\u{3000}'
}

/// `s` without its leading whitespace (`str::trim_start`).
pub open spec fn trim_start_space(s: Seq<char>) -> Seq<char>
    decreases s.len(),
{
    if s.len() > 0 && is_space(s[0]) {
        trim_start_space(s.skip(1))
    } else {
        s
    }
}

/// `s` without its trailing whitespace (`str::trim_end`).
pub open spec fn trim_end_space(s: Seq<char>) -> Seq<char>
    decreases s.len(),
{
    if s.len() > 0 && is_space(s.last()) {
        trim_end_space(s.drop_last())
    } else {
        s
    }
}

/// `s` without leading or trailing whitespace (`str::trim`).
pub open spec fn trim_space(s: Seq<char>) -> Seq<char> {
    trim_end_space(trim_start_space(s))
}

pub(crate) fn vec_trim_start_space(s: &Vec<char>) -> (r: Vec<char>)
    ensures
        r@ == trim_start_space(s@),
{
    let mut start: usize = 0;
    assert(s@.skip(0) =~= s@);
    while start < s.len() && char_is_space(s[start])
        invariant
            start <= s@.len(),
            trim_start_space(s@.skip(start as int)) == trim_start_space(s@),
        decreases s@.len() - start,
    {
        assert(s@.skip(start as int).skip(1) =~= s@.skip(start + 1));
        start += 1;
    }
    let mut out: Vec<char> = Vec::new();
    extend_range(&mut out, s, start, s.len());
    assert(out@ =~= s@.skip(start as int));
    out
}

pub(crate) fn vec_trim_end_space(s: &Vec<char>) -> (r: Vec<char>)
    ensures
        r@ == trim_end_space(s@),
{
    let mut end = s.len();
    assert(s@.take(end as int) =~= s@);
    while end > 0 && char_is_space(s[end - 1])
        invariant
            end <= s@.len(),
            trim_end_space(s@.take(end as int)) == trim_end_space(s@),
        decreases end,
    {
        assert(s@.take(end as int).drop_last() =~= s@.take(end - 1));
        end -= 1;
    }
    let mut out: Vec<char> = Vec::new();
    extend_range(&mut out, s, 0, end);
    assert(out@ =~= s@.take(end as int));
    out
}

/// `s` trimmed of whitespace at both ends.
pub(crate) fn trim_text(s: &str) -> (r: String)
    ensures
        r@ == trim_space(s@),
{
    let cs = chars_of(s);
    let a = vec_trim_start_space(&cs);
    let b = vec_trim_end_space(&a);
    string_of(b.as_slice())
}

/// Whether `s` begins with `p`.
pub open spec fn starts_with(s: Seq<char>, p: Seq<char>) -> bool {
    p.len() <= s.len() && s.take(p.len() as int) == p
}

pub(crate) fn str_starts_with(s: &str, p: &str) -> (r: bool)
    ensures
        r == starts_with(s@, p@),
{
    let x = chars_of(s);
    let y = chars_of(p);
    let r = vec_matches_at(&x, &y, 0);
    assert(r == matches_at(x@, y@, 0));
    assert(x@.subrange(0, y@.len() as int) =~= x@.take(y@.len() as int));
    r
}

pub(crate) fn str_contains(s: &str, p: &str) -> (r: bool)
    ensures
        r == contains(s@, p@),
{
    let x = chars_of(s);
    let y = chars_of(p);
    vec_find_from(&x, &y, 0).is_some()
}

/// The decimal digits of `n`.
pub open spec fn decimal(n: nat) -> Seq<char>
    decreases n,
{
    if n < 10 {
        seq![(n + '0' as nat) as char]
    } else {
        decimal(n / 10).push(((n % 10) + '0' as nat) as char)
    }
}

/// The decimal text of `n` (what `format!("{n}")` writes).
pub(crate) fn decimal_text(n: u64) -> (r: String)
    ensures
        r@ == decimal(n as nat),
{
    let mut digits: Vec<char> = Vec::new();
    let mut m = n;
    // digits collected least significant first
    loop
        invariant_except_break
            m <= n,
            decimal(n as nat) == decimal(m as nat) + digits@.reverse(),
        ensures
            decimal(n as nat) == digits@.reverse(),
        decreases m,
    {
        let d = (m % 10) as u8;
        let c = (d + 48u8) as char;
        proof {
            assert(c == ((m % 10) as nat + '0' as nat) as char);
        }
        if m < 10 {
            let ghost before = digits@;
            digits.push(c);
            assert(digits@.reverse() =~= seq![c] + before.reverse());
            assert(decimal(m as nat) =~= seq![c]);
            assert(decimal(n as nat) =~= digits@.reverse());
            break;
        }
        let ghost before = digits@;
        digits.push(c);
        assert(digits@.reverse() =~= seq![c] + before.reverse());
        assert(decimal(m as nat) == decimal((m / 10) as nat).push(c));
        assert(decimal((m / 10) as nat).push(c) + before.reverse() =~= decimal((m / 10) as nat) + (seq![c] + before.reverse()));
        m = m / 10;
    }
    let mut out: Vec<char> = Vec::new();
    let mut i = digits.len();
    while i > 0
        invariant
            i <= digits@.len(),
            out@ == digits@.reverse().take(digits@.len() - i),
        decreases i,
    {
        i -= 1;
        out.push(digits[i]);
        assert(out@ =~= digits@.reverse().take(digits@.len() - i));
    }
    assert(out@ =~= digits@.reverse());
    string_of(out.as_slice())
}

/// What `str::to_lowercase` makes of the text.
pub uninterp spec fn lowercase(s: Seq<char>) -> Seq<char>;

/// What `str::to_uppercase` makes of the text.
pub uninterp spec fn uppercase(s: Seq<char>) -> Seq<char>;

/// What `char::to_uppercase` yields for a character, collected.
pub uninterp spec fn char_uppercase(c: char) -> Seq<char>;

/// Whether every character of a text is ASCII.
pub open spec fn is_ascii_text(s: Seq<char>) -> bool {
    forall|i: int| 0 <= i < s.len() ==> (#[trigger] s[i] as u32) < 128
}

/// The ASCII upper-case form of a character: `a`-`z` become `A`-`Z`, every
/// other character stays.
pub open spec fn ascii_upper(c: char) -> char {
    if 'a' <= c && c <= 'z' {
        ((c as u32) - 32) as char
    } else {
        c
    }
}

/// The ASCII lower-case form of a character: `A`-`Z` become `a`-`z`, every
/// other character stays.
pub open spec fn ascii_lower(c: char) -> char {
    if 'A' <= c && c <= 'Z' {
        ((c as u32) + 32) as char
    } else {
        c
    }
}

/// `str::to_lowercase`. Claimed: the named Unicode lower-casing, which on
/// ASCII text maps `A`-`Z` to `a`-`z` and keeps every other character (the
/// ASCII characters with a lower-case mapping are exactly `A`-`Z`).
#[verifier::external_body]
pub(crate) fn to_lowercase(s: &str) -> (r: String)
    ensures
        r@ == lowercase(s@),
        is_ascii_text(s@) ==> r@ == s@.map_values(|c: char| ascii_lower(c)),
{
    s.to_lowercase()
}

/// `str::to_uppercase`. Claimed: the named Unicode upper-casing, which on
/// ASCII text maps `a`-`z` to `A`-`Z` and keeps every other character.
#[verifier::external_body]
pub(crate) fn to_uppercase(s: &str) -> (r: String)
    ensures
        r@ == uppercase(s@),
        is_ascii_text(s@) ==> r@ == s@.map_values(|c: char| ascii_upper(c)),
{
    s.to_uppercase()
}

/// `char::to_uppercase`, collected into characters. Claimed: the named
/// Unicode upper-case mapping of the character, which for an ASCII
/// character is the single character `ascii_upper(c)` (a character without
/// an upper-case mapping yields itself).
#[verifier::external_body]
pub(crate) fn char_to_uppercase(c: char) -> (r: Vec<char>)
    ensures
        r@ == char_uppercase(c),
        (c as u32) < 128 ==> r@ == seq![ascii_upper(c)],
{
    c.to_uppercase().collect()
}

/// The characters of a string slice.
pub(crate) fn chars_of(s: &str) -> (r: Vec<char>)
    ensures
        r@ == s@,
{
    broadcast use vstd::string::axiom_spec_iter, vstd::string::next_postcondition;

    let mut it = s.chars();
    let mut out: Vec<char> = Vec::new();
    loop
        invariant
            vstd::std_specs::iter::IteratorSpec::obeys_prophetic_iter_laws(&it),
            vstd::std_specs::iter::IteratorSpec::decrease(&it) is Some,
            out@ + vstd::std_specs::iter::IteratorSpec::remaining(&it) == s@,
        ensures
            out@ == s@,
        decreases vstd::std_specs::iter::IteratorSpec::decrease(&it)->0,
    {
        match it.next() {
            Some(c) => {
                out.push(c);
            },
            None => {
                break;
            },
        }
    }
    out
}

/// A string holding exactly the given characters.
#[verifier::external_body]
pub(crate) fn string_of(v: &[char]) -> (r: String)
    ensures
        r@ == v@,
{
    v.iter().collect()
}

} // verus!

//! Character-level text handling shared by the request parsers: searching,
//! splitting, trimming and reading unsigned decimal numbers.
use vstd::prelude::*;
use vstd::string::*;

verus! {

/// `pat` occurs in `s` starting at index `i`.
pub open spec fn occurs_at(s: Seq<char>, pat: Seq<char>, i: int) -> bool {
    &&& 0 <= i
    &&& i + pat.len() <= s.len()
    &&& forall|k: int| 0 <= k < pat.len() ==> #[trigger] s[i + k] == pat[k]
}

/// `pat` occurs somewhere in `s`.
pub open spec fn contains_seq(s: Seq<char>, pat: Seq<char>) -> bool {
    exists|i: int| occurs_at(s, pat, i)
}

/// `i` is the index of the first occurrence of `pat` in `s`.
pub open spec fn is_first_occurrence(s: Seq<char>, pat: Seq<char>, i: int) -> bool {
    &&& occurs_at(s, pat, i)
    &&& forall|j: int| 0 <= j < i ==> !occurs_at(s, pat, j)
}

/// The index of the first occurrence of `pat` in `s` (meaningful when there is one).
pub open spec fn first_occurrence(s: Seq<char>, pat: Seq<char>) -> int {
    choose|i: int| is_first_occurrence(s, pat, i)
}

/// `i` is the first index at or after `from` where `s` holds `c`.
pub open spec fn is_first_char_from(s: Seq<char>, c: char, from: int, i: int) -> bool {
    &&& from <= i < s.len()
    &&& s[i] == c
    &&& forall|j: int| from <= j < i ==> s[j] != c
}

/// `s` holds `c` at some index at or after `from`.
pub open spec fn has_char_from(s: Seq<char>, c: char, from: int) -> bool {
    exists|i: int| 0 <= from <= i < s.len() && s[i] == c
}

/// The first index at or after `from` where `s` holds `c` (meaningful when there is one).
pub open spec fn first_char_from(s: Seq<char>, c: char, from: int) -> int {
    choose|i: int| is_first_char_from(s, c, from, i)
}

pub proof fn lemma_first_occurrence_unique(s: Seq<char>, pat: Seq<char>, i: int)
    requires
        is_first_occurrence(s, pat, i),
    ensures
        first_occurrence(s, pat) == i,
{
    let j = first_occurrence(s, pat);
    assert(is_first_occurrence(s, pat, j));
    if j < i {
        assert(!occurs_at(s, pat, j));
    } else if i < j {
        assert(!occurs_at(s, pat, i));
    }
}

pub proof fn lemma_first_char_unique(s: Seq<char>, c: char, from: int, i: int)
    requires
        is_first_char_from(s, c, from, i),
    ensures
        first_char_from(s, c, from) == i,
{
    let j = first_char_from(s, c, from);
    assert(is_first_char_from(s, c, from, j));
}

/// The characters of a string slice, in order.
pub fn chars_of(s: &str) -> (v: Vec<char>)
    ensures
        v@ == s@,
{
    let n = s.unicode_len();
    let mut v: Vec<char> = Vec::new();
    let mut i: usize = 0;
    while i < n
        invariant
            n == s@.len(),
            i <= n,
            v@ == s@.subrange(0, i as int),
        decreases n - i,
    {
        v.push(s.get_char(i));
        i = i + 1;
        assert(v@ =~= s@.subrange(0, i as int));
    }
    assert(v@ =~= s@);
    v
}

/// Does `pat` occur in `s` starting at index `i`?
pub fn matches_at(s: &Vec<char>, pat: &Vec<char>, i: usize) -> (r: bool)
    ensures
        r == occurs_at(s@, pat@, i as int),
{
    if i > s.len() || pat.len() > s.len() - i {
        return false;
    }
    let mut k: usize = 0;
    while k < pat.len()
        invariant
            i + pat@.len() <= s@.len(),
            s@.len() == s.len(),
            k <= pat@.len(),
            forall|m: int| 0 <= m < k ==> #[trigger] s@[i + m] == pat@[m],
        decreases pat@.len() - k,
    {
        if s[i + k] != pat[k] {
            assert(s@[i + k as int] != pat@[k as int]);
            return false;
        }
        k = k + 1;
    }
    true
}

/// The index of the first occurrence of `pat` in `s`, if any.
pub fn find(s: &Vec<char>, pat: &Vec<char>) -> (r: Option<usize>)
    ensures
        r is None <==> !contains_seq(s@, pat@),
        r matches Some(i) ==> is_first_occurrence(s@, pat@, i as int) && first_occurrence(
            s@,
            pat@,
        ) == i,
{
    if pat.len() > s.len() {
        return None;
    }
    let last = s.len() - pat.len();
    let mut i: usize = 0;
    while i < last
        invariant
            i <= last,
            last + pat@.len() == s@.len(),
            forall|j: int| 0 <= j < i ==> !occurs_at(s@, pat@, j),
        decreases last - i,
    {
        if matches_at(s, pat, i) {
            proof {
                lemma_first_occurrence_unique(s@, pat@, i as int);
            }
            return Some(i);
        }
        i = i + 1;
    }
    if matches_at(s, pat, last) {
        proof {
            lemma_first_occurrence_unique(s@, pat@, last as int);
        }
        return Some(last);
    }
    assert forall|j: int| !occurs_at(s@, pat@, j) by {
        if 0 <= j && j < last {
        }
    }
    None
}

/// Does `pat` occur in `s`?
pub fn contains(s: &Vec<char>, pat: &Vec<char>) -> (r: bool)
    ensures
        r == contains_seq(s@, pat@),
{
    find(s, pat).is_some()
}

/// The first index at or after `from` where `s` holds `c`, if any.
pub fn find_char_from(s: &Vec<char>, c: char, from: usize) -> (r: Option<usize>)
    ensures
        r is None <==> !has_char_from(s@, c, from as int),
        r matches Some(i) ==> is_first_char_from(s@, c, from as int, i as int)
            && first_char_from(s@, c, from as int) == i,
{
    let mut i: usize = from;
    while i < s.len()
        invariant
            from <= i,
            forall|j: int| from <= j < i ==> s@[j] != c,
        decreases s@.len() - i,
    {
        if s[i] == c {
            proof {
                lemma_first_char_unique(s@, c, from as int, i as int);
            }
            return Some(i);
        }
        i = i + 1;
    }
    None
}

/// `c` is a decimal digit.
pub open spec fn is_digit(c: char) -> bool {
    '0' <= c <= '9'
}

/// The value of a run of decimal digits, most significant first.
pub open spec fn digits_value(d: Seq<char>) -> nat
    decreases d.len(),
{
    if d.len() == 0 {
        0
    } else {
        digits_value(d.drop_last()) * 10 + (d.last() as nat - '0' as nat) as nat
    }
}

/// The digits of an unsigned number: the text without one leading `+`.
pub open spec fn unsigned_digits(s: Seq<char>) -> Seq<char> {
    if s.len() > 0 && s[0] == '+' {
        s.drop_first()
    } else {
        s
    }
}

/// What reading `s` as an unsigned decimal no larger than `max` gives: an
/// optional `+`, then one or more digits, with no other character; `None`
/// where the text is not such a number or its value exceeds `max`.
pub open spec fn parse_unsigned(s: Seq<char>, max: nat) -> Option<nat> {
    let d = unsigned_digits(s);
    if d.len() > 0 && (forall|i: int| 0 <= i < d.len() ==> is_digit(#[trigger] d[i]))
        && digits_value(d) <= max {
        Some(digits_value(d))
    } else {
        None
    }
}

/// The decimal digit characters.
pub open spec fn digit_chars() -> Seq<char> {
    seq!['0', '1', '2', '3', '4', '5', '6', '7', '8', '9']
}

/// The decimal writing of a number, without leading zeros.
pub open spec fn decimal(n: nat) -> Seq<char>
    decreases n,
{
    if n < 10 {
        seq![digit_chars()[n as int]]
    } else {
        decimal(n / 10).push(digit_chars()[(n % 10) as int])
    }
}

/// The decimal writing of a number is a non-empty run of digits whose value
/// is that number.
pub proof fn lemma_decimal_digits(n: nat)
    ensures
        decimal(n).len() >= 1,
        forall|i: int| 0 <= i < decimal(n).len() ==> is_digit(#[trigger] decimal(n)[i]),
        digits_value(decimal(n)) == n,
    decreases n,
{
    let d = digit_chars();
    assert(d[0] == '0' && d[1] == '1' && d[2] == '2' && d[3] == '3' && d[4] == '4' && d[5] == '5'
        && d[6] == '6' && d[7] == '7' && d[8] == '8' && d[9] == '9');
    assert(forall|k: int| 0 <= k < 10 ==> (#[trigger] d[k]) as nat - '0' as nat == k);
    if n < 10 {
        assert(decimal(n).drop_last() =~= Seq::<char>::empty());
        assert(decimal(n).last() == d[n as int]);
        assert(digits_value(decimal(n)) == digits_value(decimal(n).drop_last()) * 10 + (
        decimal(n).last() as nat - '0' as nat) as nat);
        assert(digits_value(Seq::<char>::empty()) == 0);
    } else {
        lemma_decimal_digits(n / 10);
        let w = decimal(n);
        assert(w.drop_last() =~= decimal(n / 10));
        assert(w.last() == d[(n % 10) as int]);
        assert((n / 10) * 10 + n % 10 == n);
        assert(digits_value(w) == digits_value(w.drop_last()) * 10 + (w.last() as nat
            - '0' as nat) as nat);
        assert forall|i: int| 0 <= i < w.len() implies is_digit(#[trigger] w[i]) by {
            if i < w.len() - 1 {
                assert(w[i] == decimal(n / 10)[i]);
            }
        }
    }
}

/// Reading the decimal writing of a number no larger than `max` gives that
/// number back.
pub proof fn lemma_parse_decimal(n: nat, max: nat)
    requires
        n <= max,
    ensures
        parse_unsigned(decimal(n), max) == Some(n),
{
    lemma_decimal_digits(n);
    assert(is_digit(decimal(n)[0]));
    assert(unsigned_digits(decimal(n)) == decimal(n));
}

proof fn lemma_digits_value_prefix(d: Seq<char>, k: int)
    requires
        0 <= k <= d.len(),
        forall|i: int| 0 <= i < d.len() ==> is_digit(#[trigger] d[i]),
    ensures
        digits_value(d.take(k)) <= digits_value(d),
    decreases d.len(),
{
    if k < d.len() {
        let e = d.drop_last();
        assert(e.take(k) =~= d.take(k));
        assert forall|i: int| 0 <= i < e.len() implies is_digit(#[trigger] e[i]) by {
            assert(e[i] == d[i]);
        }
        lemma_digits_value_prefix(e, k);
    } else {
        assert(d.take(k) =~= d);
    }
}

/// Reads `s[lo..hi]` as an unsigned decimal no larger than `max`.
pub fn parse_unsigned_range(s: &Vec<char>, lo: usize, hi: usize, max: u64) -> (r: Option<u64>)
    requires
        lo <= hi <= s@.len(),
    ensures
        r matches Some(v) ==> parse_unsigned(s@.subrange(lo as int, hi as int), max as nat) == Some(
            v as nat,
        ),
        r is None ==> parse_unsigned(s@.subrange(lo as int, hi as int), max as nat) is None,
{
    let ghost t = s@.subrange(lo as int, hi as int);
    let mut start = lo;
    if lo < hi && s[lo] == '+' {
        start = lo + 1;
    }
    let ghost d = s@.subrange(start as int, hi as int);
    assert(d =~= unsigned_digits(t));
    if start == hi {
        return None;
    }
    let mut acc: u64 = 0;
    let mut i: usize = start;
    while i < hi
        invariant
            lo <= start <= i <= hi <= s@.len(),
            start < hi,
            d == s@.subrange(start as int, hi as int),
            d == unsigned_digits(t),
            t == s@.subrange(lo as int, hi as int),
            forall|j: int| 0 <= j < i - start ==> is_digit(#[trigger] d[j]),
            acc as nat == digits_value(d.take(i - start)),
            acc <= max,
        decreases hi - i,
    {
        let c = s[i];
        if !('0' <= c && c <= '9') {
            assert(!is_digit(d[i - start]));
            return None;
        }
        let digit: u64 = ((c as u32) - ('0' as u32)) as u64;
        let next: u128 = (acc as u128) * 10 + (digit as u128);
        let ghost p = d.take(i + 1 - start);
        assert(p.drop_last() =~= d.take(i - start));
        assert(p.last() == c);
        assert(next as nat == digits_value(p));
        if next > max as u128 {
            proof {
                if forall|j: int| 0 <= j < d.len() ==> is_digit(#[trigger] d[j]) {
                    lemma_digits_value_prefix(d, i + 1 - start);
                }
            }
            return None;
        }
        acc = next as u64;
        i = i + 1;
    }
    assert(d.take(hi - start) =~= d);
    Some(acc)
}

/// `c` is white space in the sense of `char::is_whitespace` (Unicode's
/// `White_Space` property).
pub open spec fn is_white_space(c: char) -> bool {
    ||| '\u{9}' <= c <= '\u{d}'
    ||| c == ' '
    ||| c == '\u{85}'
    ||| c == '\u{a0}'
    ||| c == '\u{1680}'
    ||| '\u{2000}' <= c <= '\u{200a}'
    ||| c == '\u{2028}'
    ||| c == '\u{2029}'
    ||| c == '\u{202f}'
    ||| c == '\u{205f}'
    ||| c == '\u{3000}'
}

/// `s` without its leading white space.
pub open spec fn trim_start(s: Seq<char>) -> Seq<char>
    decreases s.len(),
{
    if s.len() > 0 && is_white_space(s[0]) {
        trim_start(s.drop_first())
    } else {
        s
    }
}

/// `s` without its trailing white space.
pub open spec fn trim_end(s: Seq<char>) -> Seq<char>
    decreases s.len(),
{
    if s.len() > 0 && is_white_space(s.last()) {
        trim_end(s.drop_last())
    } else {
        s
    }
}

/// `s` without white space at either end.
pub open spec fn trim(s: Seq<char>) -> Seq<char> {
    trim_end(trim_start(s))
}

pub fn is_white_space_char(c: char) -> (r: bool)
    ensures
        r == is_white_space(c),
{
    ('\u{9}' <= c && c <= '\u{d}') || c == ' ' || c == '\u{85}' || c == '\u{a0}' || c
        == '\u{1680}' || ('\u{2000}' <= c && c <= '\u{200a}') || c == '\u{2028}' || c
        == '\u{2029}' || c == '\u{202f}' || c == '\u{205f}' || c == '\u{3000}'
}

/// The bounds `(a, b)` of `trim(s[lo..hi])` inside `s`.
pub fn trim_range(s: &Vec<char>, lo: usize, hi: usize) -> (r: (usize, usize))
    requires
        lo <= hi <= s@.len(),
    ensures
        lo <= r.0 <= r.1 <= hi,
        s@.subrange(r.0 as int, r.1 as int) == trim(s@.subrange(lo as int, hi as int)),
{
    let mut a = lo;
    while a < hi && is_white_space_char(s[a])
        invariant
            lo <= a <= hi <= s@.len(),
            trim_start(s@.subrange(lo as int, hi as int)) == trim_start(
                s@.subrange(a as int, hi as int),
            ),
        decreases hi - a,
    {
        assert(s@.subrange(a as int, hi as int).drop_first() =~= s@.subrange(
            a + 1,
            hi as int,
        ));
        a = a + 1;
    }
    assert(trim_start(s@.subrange(a as int, hi as int)) == s@.subrange(a as int, hi as int));
    let mut b = hi;
    while b > a && is_white_space_char(s[b - 1])
        invariant
            lo <= a <= b <= hi <= s@.len(),
            trim_end(s@.subrange(a as int, hi as int)) == trim_end(
                s@.subrange(a as int, b as int),
            ),
        decreases b - a,
    {
        assert(s@.subrange(a as int, b as int).drop_last() =~= s@.subrange(
            a as int,
            b - 1,
        ));
        b = b - 1;
    }
    (a, b)
}

} // verus!

//! Character-level helpers shared by the path, listing and header rules.

use vstd::prelude::*;
use vstd::string::*;

verus! {

/// `s` without its leading run of `c`.
pub open spec fn trim_leading(s: Seq<char>, c: char) -> Seq<char>
    decreases s.len(),
{
    if s.len() > 0 && s[0] == c {
        trim_leading(s.drop_first(), c)
    } else {
        s
    }
}

/// `s` without its trailing run of `c`.
pub open spec fn trim_trailing(s: Seq<char>, c: char) -> Seq<char>
    decreases s.len(),
{
    if s.len() > 0 && s.last() == c {
        trim_trailing(s.drop_last(), c)
    } else {
        s
    }
}

/// `s` without the runs of `c` at either end.
pub open spec fn trimmed(s: Seq<char>, c: char) -> Seq<char> {
    trim_trailing(trim_leading(s, c), c)
}

/// The part of `s` that follows the last `sep`; all of `s` where it holds none.
pub open spec fn last_segment(s: Seq<char>, sep: char) -> Seq<char>
    decreases s.len(),
{
    if s.len() == 0 || s.last() == sep {
        Seq::empty()
    } else {
        last_segment(s.drop_last(), sep).push(s.last())
    }
}

/// Whether `s` is non-empty and ends in `c`.
pub open spec fn ends_with_char(s: Seq<char>, c: char) -> bool {
    s.len() > 0 && s.last() == c
}

/// Skipping a run of `c` at the front does not change what trimming leaves.
proof fn lemma_trim_leading_skip(s: Seq<char>, c: char, k: int)
    requires
        0 <= k <= s.len(),
        forall|i: int| 0 <= i < k ==> s[i] == c,
    ensures
        trim_leading(s, c) == trim_leading(s.skip(k), c),
    decreases k,
{
    if k == 0 {
        assert(s.skip(0) =~= s);
    } else {
        assert(s[0] == c);
        lemma_trim_leading_skip(s.drop_first(), c, k - 1);
        assert(s.drop_first().skip(k - 1) =~= s.skip(k));
    }
}

/// Dropping a run of `c` at the back does not change what trimming leaves.
proof fn lemma_trim_trailing_take(s: Seq<char>, c: char, k: int)
    requires
        0 <= k <= s.len(),
        forall|i: int| k <= i < s.len() ==> s[i] == c,
    ensures
        trim_trailing(s, c) == trim_trailing(s.take(k), c),
    decreases s.len() - k,
{
    if k == s.len() {
        assert(s.take(k) =~= s);
    } else {
        assert(s.last() == c);
        lemma_trim_trailing_take(s.drop_last(), c, k);
        assert(s.drop_last().take(k) =~= s.take(k));
    }
}

/// The last segment of `s` is the tail of `s` behind index `k`, where `k` is
/// just past the last `sep` (or 0 if there is none).
proof fn lemma_last_segment_is_tail(s: Seq<char>, sep: char, k: int)
    requires
        0 <= k <= s.len(),
        k > 0 ==> s[k - 1] == sep,
        forall|i: int| k <= i < s.len() ==> s[i] != sep,
    ensures
        last_segment(s, sep) == s.skip(k),
    decreases s.len() - k,
{
    if k == s.len() {
        assert(s.skip(k) =~= Seq::<char>::empty());
    } else {
        lemma_last_segment_is_tail(s.drop_last(), sep, k);
        assert(s.drop_last().skip(k).push(s.last()) =~= s.skip(k));
    }
}

/// What is left without the leading run is the rest of `s` behind a run of
/// `c`, and does not start with `c`.
pub proof fn lemma_trim_leading_form(s: Seq<char>, c: char) -> (k: int)
    ensures
        0 <= k <= s.len(),
        forall|i: int| 0 <= i < k ==> s[i] == c,
        trim_leading(s, c) == s.skip(k),
        k < s.len() ==> s[k] != c,
    decreases s.len(),
{
    if s.len() > 0 && s[0] == c {
        let rest = lemma_trim_leading_form(s.drop_first(), c);
        assert(s.drop_first().skip(rest) =~= s.skip(rest + 1));
        assert forall|i: int| 0 <= i < rest + 1 implies s[i] == c by {
            if i > 0 {
                assert(s.drop_first()[i - 1] == c);
            }
        }
        rest + 1
    } else {
        assert(s.skip(0) =~= s);
        0
    }
}

/// What is left without the trailing run is the part of `s` before a run of
/// `c`, and does not end with `c`.
pub proof fn lemma_trim_trailing_form(s: Seq<char>, c: char) -> (k: int)
    ensures
        0 <= k <= s.len(),
        forall|i: int| k <= i < s.len() ==> s[i] == c,
        trim_trailing(s, c) == s.take(k),
        k > 0 ==> s[k - 1] != c,
    decreases s.len(),
{
    if s.len() > 0 && s.last() == c {
        let k = lemma_trim_trailing_form(s.drop_last(), c);
        assert(s.drop_last().take(k) =~= s.take(k));
        assert forall|i: int| k <= i < s.len() implies s[i] == c by {
            if i < s.len() - 1 {
                assert(s.drop_last()[i] == c);
            }
        }
        if k > 0 {
            assert(s.drop_last()[k - 1] == s[k - 1]);
        }
        k
    } else {
        assert(s.take(s.len() as int) =~= s);
        s.len() as int
    }
}

/// Trimming cuts `s` at both ends, by runs of `c` alone, and what it leaves
/// neither starts nor ends with `c`.
pub proof fn lemma_trimmed_form(s: Seq<char>, c: char) -> (cut: (int, int))
    ensures
        0 <= cut.0 <= cut.1 <= s.len(),
        trimmed(s, c) == s.subrange(cut.0, cut.1),
        forall|i: int| 0 <= i < cut.0 ==> s[i] == c,
        forall|i: int| cut.1 <= i < s.len() ==> s[i] == c,
        trimmed(s, c).len() > 0 ==> trimmed(s, c)[0] != c && trimmed(s, c).last() != c,
{
    let start = lemma_trim_leading_form(s, c);
    let lead = s.skip(start);
    let len = lemma_trim_trailing_form(lead, c);
    assert(lead.take(len) =~= s.subrange(start, start + len));
    assert forall|i: int| start + len <= i < s.len() implies s[i] == c by {
        assert(lead[i - start] == c);
    }
    if len > 0 {
        assert(lead[0] == s[start]);
        assert(lead[len - 1] == s[start + len - 1]);
    }
    (start, start + len)
}

/// The last segment holds no separator, and `s` is the last segment behind a
/// part that is empty or ends in the separator.
pub proof fn lemma_last_segment_form(s: Seq<char>, sep: char) -> (k: int)
    ensures
        0 <= k <= s.len(),
        last_segment(s, sep) == s.skip(k),
        forall|i: int| k <= i < s.len() ==> s[i] != sep,
        k > 0 ==> s[k - 1] == sep,
    decreases s.len(),
{
    if s.len() == 0 || s.last() == sep {
        assert(s.skip(s.len() as int) =~= Seq::<char>::empty());
        s.len() as int
    } else {
        let k = lemma_last_segment_form(s.drop_last(), sep);
        assert(s.drop_last().skip(k).push(s.last()) =~= s.skip(k));
        assert forall|i: int| k <= i < s.len() implies s[i] != sep by {
            if i < s.len() - 1 {
                assert(s.drop_last()[i] != sep);
            }
        }
        if k > 0 {
            assert(s.drop_last()[k - 1] == s[k - 1]);
        }
        k
    }
}

/// The characters of `s`, in order.
pub fn chars_of(s: &str) -> (v: Vec<char>)
    ensures
        v@ == s@,
{
    let mut v: Vec<char> = Vec::new();
    for c in it: s.chars()
        invariant
            v@ == it.seq().take(it.index() as int),
            it.seq() == s@,
    {
        v.push(c);
    }
    v
}

/// `s` with the runs of `c` at both ends removed.
pub fn trim_char(s: &str, c: char) -> (r: &str)
    ensures
        r@ == trimmed(s@, c),
{
    let chars = chars_of(s);
    let n = chars.len();
    let mut start: usize = 0;
    while start < n && chars[start] == c
        invariant
            n == chars@.len(),
            start <= n,
            forall|i: int| 0 <= i < start ==> chars@[i] == c,
        decreases n - start,
    {
        start = start + 1;
    }
    let mut end: usize = n;
    while end > start && chars[end - 1] == c
        invariant
            n == chars@.len(),
            start <= end <= n,
            forall|i: int| end <= i < n ==> chars@[i] == c,
        decreases end,
    {
        end = end - 1;
    }
    proof {
        let lead = s@.skip(start as int);
        lemma_trim_leading_skip(s@, c, start as int);
        assert(trim_leading(s@, c) == lead);
        assert forall|i: int| end - start <= i < lead.len() implies lead[i] == c by {
            assert(lead[i] == s@[i + start]);
        }
        lemma_trim_trailing_take(lead, c, end - start);
        assert(lead.take(end - start) =~= s@.subrange(start as int, end as int));
    }
    s.substring_char(start, end)
}

/// `s` with the run of `c` at its end removed.
pub fn trim_end_char(s: &str, c: char) -> (r: &str)
    ensures
        r@ == trim_trailing(s@, c),
{
    let chars = chars_of(s);
    let n = chars.len();
    let mut end: usize = n;
    while end > 0 && chars[end - 1] == c
        invariant
            n == chars@.len(),
            end <= n,
            forall|i: int| end <= i < n ==> chars@[i] == c,
        decreases end,
    {
        end = end - 1;
    }
    proof {
        lemma_trim_trailing_take(s@, c, end as int);
        assert(s@.take(end as int) =~= s@.subrange(0, end as int));
    }
    s.substring_char(0, end)
}

/// The part of `s` behind its last `sep`.
pub fn tail_after_last(s: &str, sep: char) -> (r: &str)
    ensures
        r@ == last_segment(s@, sep),
{
    let chars = chars_of(s);
    let n = chars.len();
    let mut start: usize = n;
    while start > 0 && chars[start - 1] != sep
        invariant
            n == chars@.len(),
            start <= n,
            forall|i: int| start <= i < n ==> chars@[i] != sep,
        decreases start,
    {
        start = start - 1;
    }
    proof {
        lemma_last_segment_is_tail(s@, sep, start as int);
        assert(s@.skip(start as int) =~= s@.subrange(start as int, n as int));
    }
    s.substring_char(start, n)
}

/// Whether `s` ends in `c`.
pub fn ends_with(s: &str, c: char) -> (b: bool)
    ensures
        b == ends_with_char(s@, c),
{
    let chars = chars_of(s);
    let n = chars.len();
    n > 0 && chars[n - 1] == c
}

/// Whether `needle` stands somewhere in `hay` as a contiguous run.
pub open spec fn occurs_in(needle: Seq<char>, hay: Seq<char>) -> bool {
    exists|i: int|
        0 <= i && i + needle.len() <= hay.len() && #[trigger] hay.subrange(i, i + needle.len())
            == needle
}

/// Whether `needle` stands somewhere in `hay`. The empty text stands in every
/// text.
pub fn contains(hay: &str, needle: &str) -> (b: bool)
    ensures
        b == occurs_in(needle@, hay@),
{
    let h = chars_of(hay);
    let n = chars_of(needle);
    if n.len() > h.len() {
        return false;
    }
    let last = h.len() - n.len();
    let mut i: usize = 0;
    while i <= last
        invariant
            h@ == hay@,
            n@ == needle@,
            last == h.len() - n.len(),
            i <= last + 1,
            forall|k: int| 0 <= k < i ==> #[trigger] h@.subrange(k, k + n.len()) != n@,
        decreases last + 1 - i,
    {
        let mut j: usize = 0;
        while j < n.len() && h[i + j] == n[j]
            invariant
                i <= last,
                last == h.len() - n.len(),
                j <= n.len(),
                forall|k: int| 0 <= k < j ==> h@[i + k] == n@[k],
            decreases n.len() - j,
        {
            j = j + 1;
        }
        if j == n.len() {
            assert(h@.subrange(i as int, i + n.len()) =~= n@);
            return true;
        }
        assert(h@.subrange(i as int, i + n.len())[j as int] != n@[j as int]);
        i = i + 1;
    }
    false
}

/// The decimal digit that stands for `d`, for `d` below ten.
pub open spec fn digit_char(d: nat) -> char {
    seq!['0', '1', '2', '3', '4', '5', '6', '7', '8', '9'][d as int]
}

/// `n` written in base ten, without sign or leading zeros.
pub open spec fn decimal(n: nat) -> Seq<char>
    decreases n,
{
    if n < 10 {
        seq![digit_char(n)]
    } else {
        decimal(n / 10).push(digit_char(n % 10))
    }
}

/// The number that a run of decimal digits stands for.
pub open spec fn decimal_value(digits: Seq<char>) -> nat
    decreases digits.len(),
{
    if digits.len() == 0 {
        0
    } else {
        (10 * decimal_value(digits.drop_last()) + (digits.last() as nat - '0' as nat)) as nat
    }
}

/// Read back, the decimal form of a number gives the number; and it has no
/// leading zero, but for zero itself.
pub proof fn lemma_decimal_reads_back(n: nat)
    ensures
        decimal_value(decimal(n)) == n,
        decimal(n).len() >= 1,
        n > 0 ==> decimal(n)[0] != '0',
        forall|i: int| 0 <= i < decimal(n).len() ==> '0' <= #[trigger] decimal(n)[i] <= '9',
    decreases n,
{
    reveal_with_fuel(decimal_value, 2);
    if n < 10 {
        assert(decimal(n).drop_last() =~= Seq::<char>::empty());
    } else {
        lemma_decimal_reads_back(n / 10);
        assert(decimal(n).drop_last() =~= decimal(n / 10));
    }
}

/// The one-character text of a decimal digit.
fn digit_text(d: u64) -> (t: &'static str)
    requires
        d < 10,
    ensures
        t@ == seq![digit_char(d as nat)],
{
    proof {
        reveal_strlit("0");
        reveal_strlit("1");
        reveal_strlit("2");
        reveal_strlit("3");
        reveal_strlit("4");
        reveal_strlit("5");
        reveal_strlit("6");
        reveal_strlit("7");
        reveal_strlit("8");
        reveal_strlit("9");
    }
    let t = match d {
        0 => "0",
        1 => "1",
        2 => "2",
        3 => "3",
        4 => "4",
        5 => "5",
        6 => "6",
        7 => "7",
        8 => "8",
        _ => "9",
    };
    assert(t@ =~= seq![digit_char(d as nat)]);
    t
}

/// Appends `n` in base ten to `out`.
pub fn append_decimal(out: &mut String, n: u64)
    ensures
        final(out)@ == old(out)@ + decimal(n as nat),
    decreases n,
{
    if n >= 10 {
        append_decimal(out, n / 10);
    }
    out.append(digit_text(n % 10));
    assert(out@ =~= old(out)@ + decimal(n as nat));
}

/// `n` in base ten.
pub fn decimal_string(n: u64) -> (s: String)
    ensures
        s@ == decimal(n as nat),
{
    let mut s = String::new();
    append_decimal(&mut s, n);
    assert(s@ =~= decimal(n as nat));
    s
}

} // verus!

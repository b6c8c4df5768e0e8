//! Character-level helpers shared by the command grammar and address parsing.
use vstd::prelude::*;

verus! {

pub open spec fn is_digit(c: char) -> bool {
    '0' <= c && c <= '9'
}

pub open spec fn digit_value(c: char) -> nat {
    (c as nat - '0' as nat) as nat
}

pub open spec fn all_digits(s: Seq<char>) -> bool {
    forall|i: int| 0 <= i < s.len() ==> #[trigger] is_digit(s[i])
}

/// The number written by a string of decimal digits (0 for the empty string).
pub open spec fn decimal_value(s: Seq<char>) -> nat
    decreases s.len(),
{
    if s.len() == 0 {
        0
    } else {
        decimal_value(s.drop_last()) * 10 + digit_value(s.last())
    }
}

/// Length of the run of decimal digits that starts at `start`.
pub open spec fn digit_run(s: Seq<char>, start: int) -> nat
    decreases s.len() - start,
{
    if 0 <= start < s.len() && is_digit(s[start]) {
        1 + digit_run(s, start + 1)
    } else {
        0
    }
}

/// The characters of a string, one by one.
pub(crate) fn chars_of(s: &str) -> (r: Vec<char>)
    ensures
        r@ == s@,
{
    let n = s.unicode_len();
    let mut r: Vec<char> = Vec::new();
    let mut i: usize = 0;
    while i < n
        invariant
            n == s@.len(),
            i <= n,
            r@ == s@.subrange(0, i as int),
        decreases n - i,
    {
        r.push(s.get_char(i));
        i = i + 1;
    }
    r
}

pub(crate) fn char_is_digit(c: char) -> (r: bool)
    ensures
        r == is_digit(c),
{
    '0' <= c && c <= '9'
}

pub proof fn lemma_digit_run_bounds(s: Seq<char>, start: int)
    requires
        0 <= start <= s.len(),
    ensures
        start + digit_run(s, start) <= s.len(),
        all_digits(s.subrange(start, start + digit_run(s, start))),
        start + digit_run(s, start) < s.len() ==> !is_digit(s[start + digit_run(s, start)]),
    decreases s.len() - start,
{
    if start < s.len() && is_digit(s[start]) {
        lemma_digit_run_bounds(s, start + 1);
        let k = digit_run(s, start);
        assert forall|i: int| 0 <= i < k implies #[trigger] is_digit(
            s.subrange(start, start + k)[i],
        ) by {
            if i > 0 {
                assert(s.subrange(start, start + k)[i] == s.subrange(start + 1, start + k)[i - 1]);
            }
        }
    }
}

/// Scans the run of digits that starts at `start` and returns its end.
pub(crate) fn scan_digits(s: &Vec<char>, start: usize) -> (end: usize)
    requires
        start <= s@.len(),
    ensures
        end == start + digit_run(s@, start as int),
        end <= s@.len(),
        all_digits(s@.subrange(start as int, end as int)),
        end < s@.len() ==> !is_digit(s@[end as int]),
{
    proof {
        lemma_digit_run_bounds(s@, start as int);
    }
    let mut i = start;
    while i < s.len() && char_is_digit(s[i])
        invariant
            start <= i <= s@.len(),
            digit_run(s@, start as int) == (i - start) + digit_run(s@, i as int),
        decreases s@.len() - i,
    {
        i = i + 1;
    }
    i
}

pub proof fn lemma_decimal_value_step(s: Seq<char>, i: int)
    requires
        0 <= i < s.len(),
    ensures
        decimal_value(s.subrange(0, i + 1)) == decimal_value(s.subrange(0, i)) * 10 + digit_value(
            s[i],
        ),
{
    assert(s.subrange(0, i + 1).drop_last() =~= s.subrange(0, i));
}

pub open spec fn pow10(n: nat) -> nat
    decreases n,
{
    if n == 0 {
        1
    } else {
        10 * pow10((n - 1) as nat)
    }
}

/// Value of a run of at most nine decimal digits.
pub(crate) fn small_decimal(s: &Vec<char>, start: usize, end: usize) -> (v: u32)
    requires
        start <= end <= s@.len(),
        end - start <= 9,
        all_digits(s@.subrange(start as int, end as int)),
    ensures
        v == decimal_value(s@.subrange(start as int, end as int)),
        v < pow10((end - start) as nat),
{
    let ghost g = s@.subrange(start as int, end as int);
    let mut v: u32 = 0;
    let mut i = start;
    while i < end
        invariant
            start <= i <= end <= s@.len(),
            end - start <= 9,
            g == s@.subrange(start as int, end as int),
            all_digits(g),
            v == decimal_value(g.subrange(0, i - start)),
            v < pow10((i - start) as nat),
        decreases end - i,
    {
        proof {
            lemma_decimal_value_step(g, i - start);
            assert(is_digit(g[i - start]));
            lemma_pow10_bound((i + 1 - start) as nat);
        }
        let d = (s[i] as u32) - ('0' as u32);
        v = v * 10 + d;
        i = i + 1;
    }
    proof {
        assert(g.subrange(0, end - start) =~= g);
    }
    v
}

pub proof fn lemma_pow10_monotone(a: nat, b: nat)
    requires
        a <= b,
    ensures
        pow10(a) <= pow10(b),
    decreases b,
{
    if a < b {
        lemma_pow10_monotone(a, (b - 1) as nat);
    }
}

pub proof fn lemma_pow10_bound(n: nat)
    requires
        n <= 9,
    ensures
        pow10(n) <= 1_000_000_000,
{
    lemma_pow10_monotone(n, 9);
    reveal_with_fuel(pow10, 10);
}

} // verus!

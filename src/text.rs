use vstd::prelude::*;

verus! {

/// An ASCII decimal digit.
pub open spec fn is_digit(c: char) -> bool {
    '0' <= c && c <= '9'
}

/// The value of a digit character.
pub open spec fn digit_value(c: char) -> int {
    c as int - '0' as int
}

/// The decimal value of a string of one or two digits.
pub open spec fn small_number(s: Seq<char>) -> int {
    if s.len() == 1 {
        digit_value(s[0])
    } else {
        digit_value(s[0]) * 10 + digit_value(s[1])
    }
}

/// The length of the longest run of digits in `s` starting at `i`.
pub open spec fn digit_run(s: Seq<char>, i: int) -> nat
    decreases s.len() - i,
{
    if 0 <= i < s.len() && is_digit(s[i]) {
        1 + digit_run(s, i + 1)
    } else {
        0
    }
}

/// The index of the first line break in `s` at or after `i`, or the length of
/// `s` where there is none.
pub open spec fn next_newline(s: Seq<char>, i: int) -> int
    decreases s.len() - i,
{
    if !(0 <= i < s.len()) {
        s.len() as int
    } else if s[i] == '\n' {
        i
    } else {
        next_newline(s, i + 1)
    }
}

/// `p` occurs in `s` at index `i`.
pub open spec fn prefix_at(s: Seq<char>, i: int, p: Seq<char>) -> bool {
    0 <= i && i + p.len() <= s.len() && s.subrange(i, i + p.len()) == p
}

/// `s[i]` exists and is `c`.
pub open spec fn char_at(s: Seq<char>, i: int, c: char) -> bool {
    0 <= i < s.len() && s[i] == c
}

pub fn is_ascii_digit(c: char) -> (r: bool)
    ensures
        r == is_digit(c),
{
    '0' <= c && c <= '9'
}

/// Length of the run of digits of `t` starting at `i`.
pub fn digit_run_at(t: &str, n: usize, i: usize) -> (r: usize)
    requires
        n == t@.len(),
        i <= n,
    ensures
        r == digit_run(t@, i as int),
        i + r <= n,
{
    let mut j: usize = i;
    while j < n && is_ascii_digit(t.get_char(j))
        invariant
            i <= j <= n,
            n == t@.len(),
            digit_run(t@, i as int) == (j - i) + digit_run(t@, j as int),
        decreases n - j,
    {
        j = j + 1;
    }
    j - i
}

/// Index of the first line break of `t` at or after `i`, or `n` where there
/// is none.
pub fn newline_from(t: &str, n: usize, i: usize) -> (r: usize)
    requires
        n == t@.len(),
        i <= n,
    ensures
        r as int == next_newline(t@, i as int),
        i <= r <= n,
{
    let mut j: usize = i;
    while j < n && t.get_char(j) != '\n'
        invariant
            i <= j <= n,
            n == t@.len(),
            next_newline(t@, i as int) == next_newline(t@, j as int),
        decreases n - j,
    {
        j = j + 1;
    }
    j
}

/// Whether `t[i]` exists and is `c`.
pub fn char_at_is(t: &str, n: usize, i: usize, c: char) -> (r: bool)
    requires
        n == t@.len(),
    ensures
        r == char_at(t@, i as int, c),
{
    i < n && t.get_char(i) == c
}

/// Whether `p` occurs in `t` at index `i`.
pub fn occurs_at(t: &str, n: usize, i: usize, p: &str) -> (r: bool)
    requires
        n == t@.len(),
    ensures
        r == prefix_at(t@, i as int, p@),
{
    let m = p.unicode_len();
    if i > n || m > n - i {
        return false;
    }
    let mut k: usize = 0;
    while k < m
        invariant
            k <= m,
            m == p@.len(),
            i + m <= n,
            n == t@.len(),
            forall|x: int| 0 <= x < k ==> t@[i + x] == p@[x],
        decreases m - k,
    {
        if t.get_char(i + k) != p.get_char(k) {
            proof {
                assert(t@.subrange(i as int, i + m)[k as int] != p@[k as int]);
            }
            return false;
        }
        k = k + 1;
    }
    proof {
        assert(t@.subrange(i as int, (i + m) as int) =~= p@);
    }
    true
}

/// The value of the one or two digits `t[from..to]`.
pub fn small_number_at(t: &str, n: usize, from: usize, to: usize) -> (r: u32)
    requires
        n == t@.len(),
        from < to <= n,
        to - from <= 2,
        forall|x: int| from <= x < to ==> is_digit(#[trigger] t@[x]),
    ensures
        r == small_number(t@.subrange(from as int, to as int)),
{
    let a = t.get_char(from);
    let high = (a as u32) - ('0' as u32);
    if to - from == 1 {
        high
    } else {
        let b = t.get_char(from + 1);
        high * 10 + ((b as u32) - ('0' as u32))
    }
}

/// An owned copy of `t[from..to]`.
pub fn slice_owned(t: &str, from: usize, to: usize) -> (r: String)
    requires
        from <= to <= t@.len(),
    ensures
        r@ == t@.subrange(from as int, to as int),
{
    String::from_str(t.substring_char(from, to))
}

/// Every character of a run of digits is a digit, and the run stays within
/// the string.
pub proof fn lemma_digit_run(s: Seq<char>, i: int)
    requires
        0 <= i <= s.len(),
    ensures
        i + digit_run(s, i) <= s.len(),
        forall|x: int| i <= x < i + digit_run(s, i) ==> is_digit(#[trigger] s[x]),
    decreases s.len() - i,
{
    if i < s.len() && is_digit(s[i]) {
        lemma_digit_run(s, i + 1);
    }
}

} // verus!

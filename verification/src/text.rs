//! Small, fully specified text operations: decimal rendering of
//! integers, comparison of strings and trimming of white space.
use vstd::prelude::*;

verus! {

/// The ASCII digit for `d` (0 to 9).
pub open spec fn digit_char(d: nat) -> char {
    ((d + 48) as u8) as char
}

/// Decimal digits of a natural number, most significant first, with no
/// leading zeros ("0" for zero).
pub open spec fn decimal_digits(n: nat) -> Seq<char>
    decreases n,
{
    if n < 10 {
        seq![digit_char(n)]
    } else {
        decimal_digits(n / 10).push(digit_char(n % 10))
    }
}

/// Decimal rendering of an integer, with a leading '-' when negative.
pub open spec fn decimal(v: int) -> Seq<char> {
    if v < 0 {
        seq!['-'] + decimal_digits((-v) as nat)
    } else {
        decimal_digits(v as nat)
    }
}

/// The one-character string of the digit `d`.
fn digit_str(d: u64) -> (s: &'static str)
    requires
        d < 10,
    ensures
        s@ == seq![digit_char(d as nat)],
{
    proof {
        reveal_strlit("0");
        reveal_strlit("1");
        reveal_strlit("2");
        reveal_strlit("3");
        reveal_strlit("4");
        reveal_strlit("5");
        reveal_strlit("6");
        reveal_strlit("7");
        reveal_strlit("8");
        reveal_strlit("9");
    }
    match d {
        0 => "0",
        1 => "1",
        2 => "2",
        3 => "3",
        4 => "4",
        5 => "5",
        6 => "6",
        7 => "7",
        8 => "8",
        _ => "9",
    }
}

/// Appends the decimal digits of `n` to `out`.
fn push_decimal_digits(out: &mut String, n: u64)
    ensures
        final(out)@ == old(out)@ + decimal_digits(n as nat),
    decreases n,
{
    if n >= 10 {
        push_decimal_digits(out, n / 10);
    }
    out.append(digit_str(n % 10));
    proof {
        if n >= 10 {
            assert(old(out)@ + decimal_digits((n / 10) as nat) + seq![digit_char((n % 10) as nat)]
                =~= old(out)@ + decimal_digits(n as nat));
        } else {
            assert(old(out)@ + seq![digit_char((n % 10) as nat)] =~= old(out)@ + decimal_digits(n as nat));
        }
    }
}

/// Appends the decimal rendering of `v` to `out`, as `{}` formats an
/// `i64`.
pub fn push_decimal(out: &mut String, v: i64)
    ensures
        final(out)@ == old(out)@ + decimal(v as int),
{
    if v < 0 {
        out.append("-");
        proof {
            reveal_strlit("-");
        }
        let magnitude: u64 = ((-(v + 1)) as u64) + 1;
        push_decimal_digits(out, magnitude);
        assert(old(out)@ + seq!['-'] + decimal_digits(magnitude as nat)
            =~= old(out)@ + decimal(v as int));
    } else {
        push_decimal_digits(out, v as u64);
    }
}

/// Whether two strings hold the same characters.
pub fn str_eq(a: &str, b: &str) -> (r: bool)
    ensures
        r == (a@ == b@),
{
    let n = a.unicode_len();
    if n != b.unicode_len() {
        return false;
    }
    let mut i: usize = 0;
    while i < n
        invariant
            n == a@.len(),
            n == b@.len(),
            i <= n,
            forall|j: int| 0 <= j < i ==> a@[j] == b@[j],
        decreases n - i,
    {
        if a.get_char(i) != b.get_char(i) {
            return false;
        }
        i = i + 1;
    }
    assert(a@ =~= b@);
    true
}

/// Unicode White_Space, the set of characters that `char::is_whitespace`
/// accepts and `str::trim` removes.
pub open spec fn is_white_space(c: char) -> bool {
    ||| ('\u{9}' <= c && c <= '\u{d}')
    ||| c == ' '
    ||| c == '\u{85}'
    ||| c == '\u{a0}'
    ||| c == '\u{1680}'
    ||| ('\u{2000}' <= c && c <= '\u{200a}')
    ||| c == '\u{2028}'
    ||| c == '\u{2029}'
    ||| c == '\u{202f}'
    ||| c == '\u{205f}'
    ||| c == '\u{3000}'
}

/// `s` without its leading white space.
pub open spec fn trim_start(s: Seq<char>) -> Seq<char>
    decreases s.len(),
{
    if s.len() > 0 && is_white_space(s[0]) {
        trim_start(s.drop_first())
    } else {
        s
    }
}

/// `s` without its trailing white space.
pub open spec fn trim_end(s: Seq<char>) -> Seq<char>
    decreases s.len(),
{
    if s.len() > 0 && is_white_space(s.last()) {
        trim_end(s.drop_last())
    } else {
        s
    }
}

/// `s` without leading and trailing white space.
pub open spec fn trimmed(s: Seq<char>) -> Seq<char> {
    trim_end(trim_start(s))
}

/// Whether `c` is white space.
pub fn is_white_space_char(c: char) -> (r: bool)
    ensures
        r == is_white_space(c),
{
    ('\u{9}' <= c && c <= '\u{d}') || c == ' ' || c == '\u{85}' || c == '\u{a0}' || c
        == '\u{1680}' || ('\u{2000}' <= c && c <= '\u{200a}') || c == '\u{2028}' || c
        == '\u{2029}' || c == '\u{202f}' || c == '\u{205f}' || c == '\u{3000}'
}

/// `s` with leading and trailing white space removed, as `str::trim`
/// returns it.
pub fn trim(s: &str) -> (r: &str)
    ensures
        r@ == trimmed(s@),
{
    let len = s.unicode_len();
    let mut start: usize = 0;
    let mut more = start < len;
    assert(s@.subrange(0, len as int) =~= s@);
    while more
        invariant
            len == s@.len(),
            start <= len,
            more ==> start < len,
            !more ==> (start == len || !is_white_space(s@[start as int])),
            trim_start(s@) == trim_start(s@.subrange(start as int, len as int)),
        decreases len - start + (if more { 1int } else { 0int }),
    {
        if is_white_space_char(s.get_char(start)) {
            assert(s@.subrange(start as int, len as int).drop_first()
                =~= s@.subrange(start + 1, len as int));
            start = start + 1;
            more = start < len;
        } else {
            more = false;
        }
    }
    let ghost front = s@.subrange(start as int, len as int);
    assert(trim_start(s@) == front);
    let mut end: usize = len;
    let mut more = start < end;
    while more
        invariant
            len == s@.len(),
            start <= end <= len,
            front == s@.subrange(start as int, len as int),
            more ==> start < end,
            !more ==> (start == end || !is_white_space(s@[end - 1])),
            trim_end(front) == trim_end(s@.subrange(start as int, end as int)),
        decreases end + (if more { 1int } else { 0int }),
    {
        if is_white_space_char(s.get_char(end - 1)) {
            assert(s@.subrange(start as int, end as int).drop_last()
                =~= s@.subrange(start as int, end - 1));
            end = end - 1;
            more = start < end;
        } else {
            more = false;
        }
    }
    s.substring_char(start, end)
}

/// Trimming twice is trimming once, and what trimming leaves neither
/// starts nor ends with white space.
pub proof fn lemma_trim_idempotent(s: Seq<char>)
    ensures
        trimmed(trimmed(s)) == trimmed(s),
        trimmed(s).len() > 0 ==> !is_white_space(trimmed(s)[0]),
        trimmed(s).len() > 0 ==> !is_white_space(trimmed(s).last()),
{
    lemma_trim_start_clean(s);
    lemma_trim_end_keeps_clean_start(trim_start(s));
    lemma_trim_end_clean(trim_start(s));
    lemma_trim_start_of_clean(trimmed(s));
    lemma_trim_end_clean(trimmed(s));
    lemma_trim_end_of_clean(trimmed(s));
}

proof fn lemma_trim_start_clean(s: Seq<char>)
    ensures
        trim_start(s).len() > 0 ==> !is_white_space(trim_start(s)[0]),
    decreases s.len(),
{
    if s.len() > 0 && is_white_space(s[0]) {
        lemma_trim_start_clean(s.drop_first());
    }
}

proof fn lemma_trim_end_clean(s: Seq<char>)
    ensures
        trim_end(s).len() > 0 ==> !is_white_space(trim_end(s).last()),
    decreases s.len(),
{
    if s.len() > 0 && is_white_space(s.last()) {
        lemma_trim_end_clean(s.drop_last());
    }
}

/// Trimming the end of a string that does not start with white space
/// leaves a string that does not either.
proof fn lemma_trim_end_keeps_clean_start(s: Seq<char>)
    requires
        s.len() > 0 ==> !is_white_space(s[0]),
    ensures
        trim_end(s).len() > 0 ==> !is_white_space(trim_end(s)[0]),
        trim_end(s).len() <= s.len(),
        trim_end(s) == s.subrange(0, trim_end(s).len() as int),
    decreases s.len(),
{
    if s.len() > 0 && is_white_space(s.last()) {
        lemma_trim_end_keeps_clean_start(s.drop_last());
        assert(s.drop_last().subrange(0, trim_end(s).len() as int)
            =~= s.subrange(0, trim_end(s).len() as int));
    }
}

proof fn lemma_trim_start_of_clean(s: Seq<char>)
    requires
        s.len() > 0 ==> !is_white_space(s[0]),
    ensures
        trim_start(s) == s,
{
}

proof fn lemma_trim_end_of_clean(s: Seq<char>)
    requires
        s.len() > 0 ==> !is_white_space(s.last()),
    ensures
        trim_end(s) == s,
{
}

} // verus!

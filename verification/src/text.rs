//! Small, exact text building blocks: decimal numbers and whitespace trimming.

use vstd::prelude::*;

verus! {

/// The decimal digit `d` as a character.
pub open spec fn digit(d: int) -> char {
    if d == 0 { '0' }
    else if d == 1 { '1' }
    else if d == 2 { '2' }
    else if d == 3 { '3' }
    else if d == 4 { '4' }
    else if d == 5 { '5' }
    else if d == 6 { '6' }
    else if d == 7 { '7' }
    else if d == 8 { '8' }
    else { '9' }
}

/// The decimal spelling of `n`, most significant digit first, with no
/// leading zeros (and `"0"` for zero).
pub open spec fn dec(n: nat) -> Seq<char>
    decreases n,
{
    if n < 10 {
        seq![digit(n as int)]
    } else {
        dec(n / 10).push(digit((n % 10) as int))
    }
}

fn digit_str(d: u64) -> (s: &'static str)
    requires
        d < 10,
    ensures
        s@ == seq![digit(d as int)],
{
    if d == 0 {
        proof { reveal_strlit("0"); }
        "0"
    } else if d == 1 {
        proof { reveal_strlit("1"); }
        "1"
    } else if d == 2 {
        proof { reveal_strlit("2"); }
        "2"
    } else if d == 3 {
        proof { reveal_strlit("3"); }
        "3"
    } else if d == 4 {
        proof { reveal_strlit("4"); }
        "4"
    } else if d == 5 {
        proof { reveal_strlit("5"); }
        "5"
    } else if d == 6 {
        proof { reveal_strlit("6"); }
        "6"
    } else if d == 7 {
        proof { reveal_strlit("7"); }
        "7"
    } else if d == 8 {
        proof { reveal_strlit("8"); }
        "8"
    } else {
        proof { reveal_strlit("9"); }
        "9"
    }
}

/// Appends the decimal spelling of `n` to `s`.
pub fn push_decimal(s: &mut String, n: u64)
    ensures
        final(s)@ == old(s)@ + dec(n as nat),
    decreases n,
{
    if n < 10 {
        s.append(digit_str(n));
    } else {
        push_decimal(s, n / 10);
        s.append(digit_str(n % 10));
        proof {
            assert(dec(n as nat) == dec((n / 10) as nat).push(digit((n % 10) as int)));
        }
    }
}

/// The decimal spelling of `n`, as `format!("{n}")` writes it.
pub fn decimal(n: u64) -> (s: String)
    ensures
        s@ == dec(n as nat),
{
    let mut s = String::new();
    push_decimal(&mut s, n);
    s
}

/// Unicode White_Space, the property `char::is_whitespace` tests and
/// `str::trim` strips.
pub open spec fn is_white_space(c: char) -> bool {
    let n = c as u32;
    ||| 0x9 <= n <= 0xD
    ||| n == 0x20
    ||| n == 0x85
    ||| n == 0xA0
    ||| n == 0x1680
    ||| 0x2000 <= n <= 0x200A
    ||| n == 0x2028
    ||| n == 0x2029
    ||| n == 0x202F
    ||| n == 0x205F
    ||| n == 0x3000
}

/// `s` without its leading white space.
pub open spec fn trim_start(s: Seq<char>) -> Seq<char>
    decreases s.len(),
{
    if s.len() > 0 && is_white_space(s[0]) {
        trim_start(s.drop_first())
    } else {
        s
    }
}

/// `s` without its trailing white space.
pub open spec fn trim_end(s: Seq<char>) -> Seq<char>
    decreases s.len(),
{
    if s.len() > 0 && is_white_space(s.last()) {
        trim_end(s.drop_last())
    } else {
        s
    }
}

/// `s` with white space removed from both ends, as `str::trim` gives it.
pub open spec fn trimmed(s: Seq<char>) -> Seq<char> {
    trim_end(trim_start(s))
}

pub fn is_white_space_exec(c: char) -> (b: bool)
    ensures
        b == is_white_space(c),
{
    let n = c as u32;
    (0x9 <= n && n <= 0xD) || n == 0x20 || n == 0x85 || n == 0xA0 || n == 0x1680
        || (0x2000 <= n && n <= 0x200A) || n == 0x2028 || n == 0x2029 || n == 0x202F
        || n == 0x205F || n == 0x3000
}

/// `s` with white space removed from both ends.
pub fn trim(s: &str) -> (r: String)
    ensures
        r@ == trimmed(s@),
{
    let n = s.unicode_len();
    let mut i: usize = 0;
    assert(s@.subrange(0, n as int) =~= s@);
    while i < n && is_white_space_exec(s.get_char(i))
        invariant
            n == s@.len(),
            i <= n,
            trim_start(s@) == trim_start(s@.subrange(i as int, n as int)),
        decreases n - i,
    {
        assert(s@.subrange(i as int, n as int).drop_first() =~= s@.subrange(i + 1, n as int));
        i = i + 1;
    }
    assert(trim_start(s@) == s@.subrange(i as int, n as int));
    let mut j: usize = n;
    while j > i && is_white_space_exec(s.get_char(j - 1))
        invariant
            n == s@.len(),
            i <= j <= n,
            trim_end(s@.subrange(i as int, n as int)) == trim_end(s@.subrange(i as int, j as int)),
        decreases j,
    {
        assert(s@.subrange(i as int, j as int).drop_last() =~= s@.subrange(i as int, j - 1));
        j = j - 1;
    }
    let t = s.substring_char(i, j);
    String::from_str(t)
}

/// Whether `s` is empty once trimmed, as `s.trim().is_empty()` asks.
pub fn is_blank(s: &str) -> (b: bool)
    ensures
        b == (trimmed(s@).len() == 0),
{
    let t = trim(s);
    t.as_str().unicode_len() == 0
}

/// Trimming twice is trimming once.
pub proof fn trim_is_idempotent(s: Seq<char>)
    ensures
        trimmed(trimmed(s)) == trimmed(s),
{
    lemma_trim_start_result(s);
    lemma_trim_end_keeps_start(trim_start(s));
    lemma_trim_start_fixed(trimmed(s));
    lemma_trim_end_result(trim_start(s));
    lemma_trim_end_fixed(trimmed(s));
}

proof fn lemma_trim_start_result(s: Seq<char>)
    ensures
        trim_start(s).len() == 0 || !is_white_space(trim_start(s)[0]),
    decreases s.len(),
{
    if s.len() > 0 && is_white_space(s[0]) {
        lemma_trim_start_result(s.drop_first());
    }
}

proof fn lemma_trim_end_result(s: Seq<char>)
    ensures
        trim_end(s).len() == 0 || !is_white_space(trim_end(s).last()),
    decreases s.len(),
{
    if s.len() > 0 && is_white_space(s.last()) {
        lemma_trim_end_result(s.drop_last());
    }
}

/// Trimming the end of something that does not start with white space leaves
/// a result that does not either.
proof fn lemma_trim_end_keeps_start(s: Seq<char>)
    requires
        s.len() == 0 || !is_white_space(s[0]),
    ensures
        trim_end(s).len() == 0 || !is_white_space(trim_end(s)[0]),
        trim_end(s).len() == 0 || trim_end(s)[0] == s[0],
    decreases s.len(),
{
    if s.len() > 0 && is_white_space(s.last()) {
        if s.len() > 1 {
            lemma_trim_end_keeps_start(s.drop_last());
        }
    }
}

proof fn lemma_trim_start_fixed(s: Seq<char>)
    requires
        s.len() == 0 || !is_white_space(s[0]),
    ensures
        trim_start(s) == s,
{
}

proof fn lemma_trim_end_fixed(s: Seq<char>)
    requires
        s.len() == 0 || !is_white_space(s.last()),
    ensures
        trim_end(s) == s,
{
}

} // verus!

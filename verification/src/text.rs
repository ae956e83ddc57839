//! Text handling for the line-oriented client protocol: trimming the lines a
//! client sends, reading integers out of them, and writing integers back.

use vstd::prelude::*;

verus! {

/// A character of the Unicode `White_Space` property, the characters that
/// `str::trim` removes.
pub open spec fn is_white_space(c: char) -> bool {
    let n = c as u32;
    ||| 0x9 <= n <= 0xD
    ||| n == 0x20
    ||| n == 0x85
    ||| n == 0xA0
    ||| n == 0x1680
    ||| 0x2000 <= n <= 0x200A
    ||| n == 0x2028
    ||| n == 0x2029
    ||| n == 0x202F
    ||| n == 0x205F
    ||| n == 0x3000
}

/// `s` without its leading white space.
pub open spec fn trim_start(s: Seq<char>) -> Seq<char>
    decreases s.len(),
{
    if s.len() > 0 && is_white_space(s[0]) {
        trim_start(s.drop_first())
    } else {
        s
    }
}

/// `s` without its trailing white space.
pub open spec fn trim_end(s: Seq<char>) -> Seq<char>
    decreases s.len(),
{
    if s.len() > 0 && is_white_space(s.last()) {
        trim_end(s.drop_last())
    } else {
        s
    }
}

/// `s` without leading and trailing white space.
pub open spec fn trimmed(s: Seq<char>) -> Seq<char> {
    trim_end(trim_start(s))
}

/// An ASCII decimal digit.
pub open spec fn is_digit(c: char) -> bool {
    0x30 <= (c as u32) <= 0x39
}

/// The value of the decimal digit `c`.
pub open spec fn digit_value(c: char) -> int {
    (c as u32) - 0x30
}

/// The value of the digit string `s`, most significant digit first.
pub open spec fn digits_value(s: Seq<char>) -> int
    decreases s.len(),
{
    if s.len() == 0 {
        0
    } else {
        digits_value(s.drop_last()) * 10 + digit_value(s.last())
    }
}

/// Every character of `s` is a decimal digit.
pub open spec fn all_digits(s: Seq<char>) -> bool {
    forall|i: int| 0 <= i < s.len() ==> is_digit(#[trigger] s[i])
}

/// The `i32` that `s` denotes as `str::parse::<i32>` reads it: an optional
/// `+` or `-`, then one or more ASCII digits, and a value in range; `None`
/// for any other string.
pub open spec fn parsed_i32(s: Seq<char>) -> Option<i32> {
    let negative = s.len() > 0 && s[0] == '-';
    let signed = s.len() > 0 && (s[0] == '-' || s[0] == '+');
    let body = if signed { s.drop_first() } else { s };
    let value = if negative { -digits_value(body) } else { digits_value(body) };
    if body.len() > 0 && all_digits(body) && i32::MIN <= value <= i32::MAX {
        Some(value as i32)
    } else {
        None
    }
}

/// The decimal digit character for `d`, which is below ten.
pub open spec fn digit_char(d: int) -> char {
    (0x30 + d) as char
}

/// The decimal digits of `n`, without leading zeros.
pub open spec fn nat_decimal(n: nat) -> Seq<char>
    decreases n,
{
    if n < 10 {
        seq![digit_char(n as int)]
    } else {
        nat_decimal(n / 10).push(digit_char((n % 10) as int))
    }
}

/// `n` written in decimal, with a `-` in front when it is negative: the text
/// that `Display` gives an integer.
pub open spec fn int_decimal(n: int) -> Seq<char> {
    if n < 0 {
        seq!['-'] + nat_decimal((-n) as nat)
    } else {
        nat_decimal(n as nat)
    }
}

/// The characters of `s`, in order.
pub fn chars_of(s: &str) -> (v: Vec<char>)
    ensures
        v@ == s@,
{
    broadcast use vstd::string::group_string_axioms;

    let mut v: Vec<char> = Vec::new();
    for c in it: s.chars()
        invariant
            v@ == it.seq().take(it.index() as int),
            it.seq() == s@,
    {
        v.push(c);
    }
    v
}

/// Whether `c` is white space, exactly as `is_white_space` says.
pub fn char_is_white_space(c: char) -> (b: bool)
    ensures
        b == is_white_space(c),
{
    let n = c as u32;
    (0x9 <= n && n <= 0xD) || n == 0x20 || n == 0x85 || n == 0xA0 || n == 0x1680 || (0x2000 <= n
        && n <= 0x200A) || n == 0x2028 || n == 0x2029 || n == 0x202F || n == 0x205F || n == 0x3000
}

proof fn lemma_trim_start_skip(s: Seq<char>, i: int)
    requires
        0 <= i < s.len(),
        is_white_space(s[i]),
    ensures
        trim_start(s.subrange(i, s.len() as int)) == trim_start(s.subrange(i + 1, s.len() as int)),
{
    assert(s.subrange(i, s.len() as int).drop_first() =~= s.subrange(i + 1, s.len() as int));
}

proof fn lemma_trim_end_skip(s: Seq<char>, lo: int, hi: int)
    requires
        0 <= lo < hi <= s.len(),
        is_white_space(s[hi - 1]),
    ensures
        trim_end(s.subrange(lo, hi)) == trim_end(s.subrange(lo, hi - 1)),
{
    assert(s.subrange(lo, hi).drop_last() =~= s.subrange(lo, hi - 1));
}

/// `line` without leading and trailing white space, as `str::trim` gives it.
pub fn trim(line: &str) -> (t: String)
    ensures
        t@ == trimmed(line@),
{
    let v = chars_of(line);
    let n = v.len();
    let mut lo: usize = 0;
    assert(v@.subrange(0, n as int) =~= v@);
    while lo < n && char_is_white_space(v[lo])
        invariant
            lo <= n,
            n == v@.len(),
            trim_start(v@) == trim_start(v@.subrange(lo as int, n as int)),
        decreases n - lo,
    {
        proof {
            lemma_trim_start_skip(v@, lo as int);
        }
        lo = lo + 1;
    }
    let mut hi: usize = n;
    assert(trim_start(v@) == v@.subrange(lo as int, n as int));
    while hi > lo && char_is_white_space(v[hi - 1])
        invariant
            lo <= hi <= n,
            n == v@.len(),
            trimmed(v@) == trim_end(v@.subrange(lo as int, hi as int)),
        decreases hi,
    {
        proof {
            lemma_trim_end_skip(v@, lo as int, hi as int);
        }
        hi = hi - 1;
    }
    let part = line.substring_char(lo, hi);
    assert(trim_end(v@.subrange(lo as int, hi as int)) == v@.subrange(lo as int, hi as int));
    part.to_owned()
}


proof fn lemma_digits_value_push(s: Seq<char>, i: int)
    requires
        0 <= i < s.len(),
    ensures
        digits_value(s.take(i + 1)) == digits_value(s.take(i)) * 10 + digit_value(s[i]),
{
    assert(s.take(i + 1).drop_last() =~= s.take(i));
}

/// Reads an `i32` as `str::parse::<i32>` does.
pub fn parse_i32(s: &str) -> (r: Option<i32>)
    ensures
        r == parsed_i32(s@),
{
    let v = chars_of(s);
    let n = v.len();
    let negative = n > 0 && v[0] == '-';
    let signed = n > 0 && (v[0] == '-' || v[0] == '+');
    let start: usize = if signed { 1 } else { 0 };
    let ghost body = if signed { v@.drop_first() } else { v@ };
    assert(body =~= v@.subrange(start as int, n as int));
    if start == n {
        return None;
    }
    // `acc` holds the value of the digits read so far while it stays small;
    // once it passes the largest magnitude an `i32` can have, `big` is set.
    let mut acc: i64 = 0;
    let mut big = false;
    let mut i: usize = start;
    while i < n
        invariant
            start <= i <= n,
            n == v@.len(),
            v@ == s@,
            signed == (s@.len() > 0 && (s@[0] == '-' || s@[0] == '+')),
            body == (if signed { s@.drop_first() } else { s@ }),
            body =~= v@.subrange(start as int, n as int),
            all_digits(body.take(i - start)),
            !big ==> acc == digits_value(body.take(i - start)) && 0 <= acc <= 0x8000_0000,
            big ==> digits_value(body.take(i - start)) > 0x8000_0000,
        decreases n - i,
    {
        let c = v[i];
        let code = c as u32;
        if code < 0x30 || code > 0x39 {
            assert(!is_digit(body[i - start]));
            return None;
        }
        proof {
            lemma_digits_value_push(body, i - start);
            assert(body.take(i - start + 1) =~= body.take(i - start).push(c));
        }
        if !big {
            let next = acc * 10 + (code - 0x30) as i64;
            if next > 0x8000_0000 {
                big = true;
            } else {
                acc = next;
            }
        }
        i = i + 1;
    }
    assert(body.take(n - start) =~= body);
    if big {
        return None;
    }
    if negative {
        Some((0 - acc) as i32)
    } else if acc <= 0x7fff_ffff {
        Some(acc as i32)
    } else {
        None
    }
}

/// The one-character text of the decimal digit `d`.
fn digit_text(d: u8) -> (t: &'static str)
    requires
        d < 10,
    ensures
        t@ == seq![digit_char(d as int)],
{
    match d {
        0 => {
            proof {
                reveal_strlit("0");
            }
            "0"
        },
        1 => {
            proof {
                reveal_strlit("1");
            }
            "1"
        },
        2 => {
            proof {
                reveal_strlit("2");
            }
            "2"
        },
        3 => {
            proof {
                reveal_strlit("3");
            }
            "3"
        },
        4 => {
            proof {
                reveal_strlit("4");
            }
            "4"
        },
        5 => {
            proof {
                reveal_strlit("5");
            }
            "5"
        },
        6 => {
            proof {
                reveal_strlit("6");
            }
            "6"
        },
        7 => {
            proof {
                reveal_strlit("7");
            }
            "7"
        },
        8 => {
            proof {
                reveal_strlit("8");
            }
            "8"
        },
        _ => {
            proof {
                reveal_strlit("9");
            }
            "9"
        },
    }
}

/// Appends the decimal digits of `m` to `out`.
fn push_decimal(out: &mut String, m: u64)
    ensures
        final(out)@ == old(out)@ + nat_decimal(m as nat),
    decreases m,
{
    if m >= 10 {
        push_decimal(out, m / 10);
    }
    out.append(digit_text((m % 10) as u8));
    assert(old(out)@ + nat_decimal(m as nat) =~= final(out)@);
}

/// `n` written in decimal, as `Display` writes an integer.
pub fn decimal(n: i64) -> (t: String)
    ensures
        t@ == int_decimal(n as int),
{
    let mut t = String::new();
    let magnitude: u64 = if n < 0 {
        proof {
            reveal_strlit("-");
        }
        t.append("-");
        (0 - (n as i128)) as u64
    } else {
        n as u64
    };
    push_decimal(&mut t, magnitude);
    t
}

proof fn lemma_nat_decimal_digits(n: nat)
    ensures
        nat_decimal(n).len() > 0,
        all_digits(nat_decimal(n)),
        digits_value(nat_decimal(n)) == n,
    decreases n,
{
    if n >= 10 {
        lemma_nat_decimal_digits(n / 10);
        let s = nat_decimal(n / 10).push(digit_char((n % 10) as int));
        assert(s.drop_last() =~= nat_decimal(n / 10));
        assert(digit_value(s.last()) == n % 10);
        assert(n == (n / 10) * 10 + n % 10);
        assert(nat_decimal(n) == s);
        assert(digits_value(s) == digits_value(s.drop_last()) * 10 + digit_value(s.last()));
        assert(digits_value(s.drop_last()) == n / 10);
        assert(digits_value(s) == n);
        assert forall|i: int| 0 <= i < s.len() implies is_digit(#[trigger] s[i]) by {
            if i < s.len() - 1 {
                assert(s[i] == nat_decimal(n / 10)[i]);
            }
        }
    } else {
        let s = seq![digit_char(n as int)];
        assert(s.drop_last() =~= Seq::<char>::empty());
        assert(digit_value(s.last()) == n);
        assert(digits_value(s) == digits_value(s.drop_last()) * 10 + digit_value(s.last()));
        assert(digits_value(s) == n);
        assert(nat_decimal(n) == s);
    }
}

/// An `i32` written in decimal reads back as the same `i32`: an account id
/// shown to an administrator, typed back, names that account.
pub proof fn lemma_decimal_reads_back(n: i32)
    ensures
        parsed_i32(int_decimal(n as int)) == Some(n),
{
    if n < 0 {
        let m = (-n) as nat;
        lemma_nat_decimal_digits(m);
        let s = seq!['-'] + nat_decimal(m);
        assert(s.drop_first() =~= nat_decimal(m));
    } else {
        lemma_nat_decimal_digits(n as nat);
        let s = nat_decimal(n as nat);
        assert(is_digit(s[0]));
    }
}

} // verus!

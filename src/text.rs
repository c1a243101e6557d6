use vstd::prelude::*;
use vstd::string::*;

verus! {

/// The decimal digit character for `d` in `0..10`.
pub open spec fn digit_char(d: int) -> char {
    if d == 0 {
        '0'
    } else if d == 1 {
        '1'
    } else if d == 2 {
        '2'
    } else if d == 3 {
        '3'
    } else if d == 4 {
        '4'
    } else if d == 5 {
        '5'
    } else if d == 6 {
        '6'
    } else if d == 7 {
        '7'
    } else if d == 8 {
        '8'
    } else {
        '9'
    }
}

/// The shortest decimal text of `n`.
pub open spec fn decimal(n: nat) -> Seq<char>
    decreases n,
{
    if n < 10 {
        seq![digit_char(n as int)]
    } else {
        decimal(n / 10).push(digit_char((n % 10) as int))
    }
}

/// The decimal text of an integer, with a leading `-` when it is negative.
pub open spec fn signed_decimal(i: int) -> Seq<char> {
    if i < 0 {
        seq!['-'] + decimal((-i) as nat)
    } else {
        decimal(i as nat)
    }
}

/// The last `k` decimal digits of `f`, zero-padded on the left.
pub open spec fn padded_digits(f: nat, k: nat) -> Seq<char>
    decreases k,
{
    if k == 0 {
        seq![]
    } else {
        padded_digits(f / 10, (k - 1) as nat).push(digit_char((f % 10) as int))
    }
}

/// The `k`-digit zero-padded text of `f` with its trailing zeros dropped.
pub open spec fn fraction_digits(f: nat, k: nat) -> Seq<char>
    decreases k,
{
    if k > 0 && f % 10 == 0 {
        fraction_digits(f / 10, (k - 1) as nat)
    } else {
        padded_digits(f, k)
    }
}

/// Microseconds per second.
pub const MICROS_PER_SECOND: u64 = 1_000_000;

/// A non-negative number of microseconds written in seconds: the whole
/// seconds, then, when there is a remainder, a point and its digits without
/// trailing zeros (`5`, `2.5`, `0.000001`).
pub open spec fn seconds_text(us: nat) -> Seq<char> {
    let whole = us / (MICROS_PER_SECOND as nat);
    let frac = us % (MICROS_PER_SECOND as nat);
    if frac == 0 {
        decimal(whole)
    } else {
        decimal(whole) + seq!['.'] + fraction_digits(frac, 6)
    }
}

fn digit_str(d: u64) -> (r: &'static str)
    requires
        d < 10,
    ensures
        r@ == seq![digit_char(d as int)],
{
    proof {
        reveal_strlit("0");
        reveal_strlit("1");
        reveal_strlit("2");
        reveal_strlit("3");
        reveal_strlit("4");
        reveal_strlit("5");
        reveal_strlit("6");
        reveal_strlit("7");
        reveal_strlit("8");
        reveal_strlit("9");
    }
    if d == 0 {
        "0"
    } else if d == 1 {
        "1"
    } else if d == 2 {
        "2"
    } else if d == 3 {
        "3"
    } else if d == 4 {
        "4"
    } else if d == 5 {
        "5"
    } else if d == 6 {
        "6"
    } else if d == 7 {
        "7"
    } else if d == 8 {
        "8"
    } else {
        "9"
    }
}

/// Appends the decimal text of `n`.
pub fn push_decimal(s: &mut String, n: u64)
    ensures
        final(s)@ == old(s)@ + decimal(n as nat),
    decreases n,
{
    if n >= 10 {
        push_decimal(s, n / 10);
    }
    s.append(digit_str(n % 10));
    proof {
        if n >= 10 {
            assert(old(s)@ + decimal(n as nat) =~= old(s)@ + decimal((n / 10) as nat) + seq![
                digit_char((n % 10) as int),
            ]);
        } else {
            assert(decimal(n as nat) =~= seq![digit_char((n % 10) as int)]);
        }
    }
}

/// Appends the decimal text of `i`, with a leading `-` when it is negative.
pub fn push_signed_decimal(s: &mut String, i: i64)
    ensures
        final(s)@ == old(s)@ + signed_decimal(i as int),
{
    if i < 0 {
        s.append("-");
        proof {
            reveal_strlit("-");
        }
        let mag: u64 = if i == i64::MIN {
            9_223_372_036_854_775_808u64
        } else {
            (-i) as u64
        };
        push_decimal(s, mag);
        assert(final(s)@ =~= old(s)@ + signed_decimal(i as int)) by {
            assert(seq!['-'] + decimal((-i) as nat) == signed_decimal(i as int));
        }
    } else {
        push_decimal(s, i as u64);
    }
}

/// The decimal text of `n` as a new string.
pub fn decimal_string(n: u64) -> (r: String)
    ensures
        r@ == decimal(n as nat),
{
    let mut s = String::new();
    push_decimal(&mut s, n);
    assert(s@ =~= decimal(n as nat));
    s
}

fn push_padded_digits(s: &mut String, f: u64, k: u64)
    ensures
        final(s)@ == old(s)@ + padded_digits(f as nat, k as nat),
    decreases k,
{
    if k > 0 {
        push_padded_digits(s, f / 10, k - 1);
        s.append(digit_str(f % 10));
        assert(old(s)@ + padded_digits(f as nat, k as nat) =~= old(s)@ + padded_digits(
            (f / 10) as nat,
            (k - 1) as nat,
        ) + seq![digit_char((f % 10) as int)]);
    } else {
        assert(old(s)@ + padded_digits(f as nat, k as nat) =~= old(s)@);
    }
}

fn push_fraction_digits(s: &mut String, f: u64, k: u64)
    ensures
        final(s)@ == old(s)@ + fraction_digits(f as nat, k as nat),
    decreases k,
{
    if k > 0 && f % 10 == 0 {
        push_fraction_digits(s, f / 10, k - 1);
    } else {
        push_padded_digits(s, f, k);
    }
}

/// Appends a non-negative number of microseconds written in seconds.
pub fn push_seconds(s: &mut String, us: u64)
    ensures
        final(s)@ == old(s)@ + seconds_text(us as nat),
{
    push_decimal(s, us / MICROS_PER_SECOND);
    let frac = us % MICROS_PER_SECOND;
    if frac != 0 {
        s.append(".");
        proof {
            reveal_strlit(".");
        }
        push_fraction_digits(s, frac, 6);
        assert(final(s)@ =~= old(s)@ + seconds_text(us as nat));
    }
}

/// A non-negative number of microseconds written in seconds, as a new string.
pub fn seconds_string(us: u64) -> (r: String)
    ensures
        r@ == seconds_text(us as nat),
{
    let mut s = String::new();
    push_seconds(&mut s, us);
    assert(s@ =~= seconds_text(us as nat));
    s
}

/// Whether `c` is an ASCII decimal digit.
pub open spec fn is_digit(c: char) -> bool {
    48 <= (c as u32) <= 57
}

/// The value of the ASCII decimal digit `c`.
pub open spec fn digit_value(c: char) -> int {
    (c as u32) - 48
}

/// The value of a string of decimal digits, most significant first.
pub open spec fn digits_value(s: Seq<char>) -> int
    decreases s.len(),
{
    if s.len() == 0 {
        0
    } else {
        digits_value(s.drop_last()) * 10 + digit_value(s.last())
    }
}

/// A non-empty string of decimal digits.
pub open spec fn all_digits(s: Seq<char>) -> bool {
    s.len() > 0 && forall|i: int| 0 <= i < s.len() ==> is_digit(#[trigger] s[i])
}

/// The integer that `s` writes in decimal, with an optional leading `+` or `-`.
pub open spec fn integer_value(s: Seq<char>) -> Option<int> {
    if s.len() > 0 && (s[0] == '-' || s[0] == '+') && all_digits(s.drop_first()) {
        if s[0] == '-' {
            Some(-digits_value(s.drop_first()))
        } else {
            Some(digits_value(s.drop_first()))
        }
    } else if all_digits(s) {
        Some(digits_value(s))
    } else {
        None
    }
}

/// The `i32` that `s` writes in decimal, if it writes one in range.
pub open spec fn parsed_i32(s: Seq<char>) -> Option<i32> {
    match integer_value(s) {
        Some(v) => if i32::MIN <= v <= i32::MAX {
            Some(v as i32)
        } else {
            None
        },
        None => None,
    }
}

proof fn lemma_digits_value_nonneg(s: Seq<char>)
    requires
        forall|i: int| 0 <= i < s.len() ==> is_digit(#[trigger] s[i]),
    ensures
        digits_value(s) >= 0,
    decreases s.len(),
{
    if s.len() > 0 {
        let t = s.drop_last();
        assert forall|i: int| 0 <= i < t.len() implies is_digit(#[trigger] t[i]) by {
            assert(t[i] == s[i]);
        }
        lemma_digits_value_nonneg(t);
        assert(is_digit(s[s.len() - 1]));
    }
}

/// A string of digits is worth at least any of its prefixes.
proof fn lemma_digits_value_prefix(s: Seq<char>, k: int)
    requires
        0 <= k <= s.len(),
        forall|i: int| 0 <= i < s.len() ==> is_digit(#[trigger] s[i]),
    ensures
        digits_value(s) >= digits_value(s.subrange(0, k)),
    decreases s.len(),
{
    if k < s.len() {
        let t = s.drop_last();
        assert forall|i: int| 0 <= i < t.len() implies is_digit(#[trigger] t[i]) by {
            assert(t[i] == s[i]);
        }
        lemma_digits_value_prefix(t, k);
        assert(t.subrange(0, k) =~= s.subrange(0, k));
        lemma_digits_value_nonneg(t);
        assert(is_digit(s[s.len() - 1]));
    } else {
        assert(s.subrange(0, k) =~= s);
    }
}

/// Reads an `i32` written in decimal, with an optional leading `+` or `-`.
pub fn parse_i32(s: &str) -> (r: Option<i32>)
    ensures
        r == parsed_i32(s@),
{
    let n = s.unicode_len();
    if n == 0 {
        return None;
    }
    let c0 = s.get_char(0);
    let signed = c0 == '-' || c0 == '+';
    let start: usize = if signed {
        1
    } else {
        0
    };
    if start == n {
        assert(!all_digits(s@.drop_first()));
        return None;
    }
    let ghost body = s@.subrange(start as int, n as int);
    let mut acc: u64 = 0;
    let mut i: usize = start;
    while i < n
        invariant
            start <= i <= n,
            n == s@.len(),
            body == s@.subrange(start as int, n as int),
            c0 == s@[0],
            signed == (c0 == '-' || c0 == '+'),
            start == (if signed {
                1usize
            } else {
                0usize
            }),
            acc as int == digits_value(s@.subrange(start as int, i as int)),
            acc <= 2147483648,
            forall|j: int| start <= j < i ==> is_digit(#[trigger] s@[j]),
        decreases n - i,
    {
        let c = s.get_char(i);
        let code = c as u32;
        if code < 48 || code > 57 {
            proof {
                assert(body[i - start] == c);
                assert(!all_digits(body));
                if signed {
                    assert(s@.drop_first() =~= body);
                } else {
                    assert(s@ =~= body);
                }
            }
            return None;
        }
        let ghost prev = s@.subrange(start as int, i as int);
        acc = acc * 10 + (code - 48) as u64;
        proof {
            assert(s@.subrange(start as int, i + 1).drop_last() =~= prev);
        }
        if acc > 2147483648 {
            proof {
                if all_digits(body) {
                    assert(body.subrange(0, i + 1 - start) =~= s@.subrange(start as int, i + 1));
                    lemma_digits_value_prefix(body, i + 1 - start);
                }
                if signed {
                    assert(s@.drop_first() =~= body);
                } else {
                    assert(s@ =~= body);
                }
            }
            return None;
        }
        i = i + 1;
    }
    proof {
        assert(s@.subrange(start as int, n as int) =~= body);
        assert(all_digits(body));
        if signed {
            assert(s@.drop_first() =~= body);
        } else {
            assert(s@ =~= body);
        }
    }
    if c0 == '-' {
        Some((0 - (acc as i64)) as i32)
    } else if acc <= 2147483647 {
        Some(acc as i32)
    } else {
        None
    }
}

/// The code of `c` with ASCII upper-case letters taken to lower case.
pub open spec fn folded_code(c: char) -> u32 {
    if 65 <= (c as u32) <= 90 {
        ((c as u32) + 32) as u32
    } else {
        c as u32
    }
}

/// `a` and `b` are equal when ASCII letter case is ignored.
pub open spec fn same_ignoring_ascii_case(a: Seq<char>, b: Seq<char>) -> bool {
    a.len() == b.len() && forall|i: int|
        0 <= i < a.len() ==> folded_code(#[trigger] a[i]) == folded_code(b[i])
}

/// Whether `a` and `b` are equal when ASCII letter case is ignored.
pub fn eq_ignoring_ascii_case(a: &str, b: &str) -> (r: bool)
    ensures
        r == same_ignoring_ascii_case(a@, b@),
{
    let n = a.unicode_len();
    if n != b.unicode_len() {
        return false;
    }
    let mut i: usize = 0;
    while i < n
        invariant
            i <= n,
            n == a@.len(),
            n == b@.len(),
            forall|j: int| 0 <= j < i ==> folded_code(#[trigger] a@[j]) == folded_code(b@[j]),
        decreases n - i,
    {
        let x = a.get_char(i) as u32;
        let y = b.get_char(i) as u32;
        let fx = if 65 <= x && x <= 90 {
            x + 32
        } else {
            x
        };
        let fy = if 65 <= y && y <= 90 {
            y + 32
        } else {
            y
        };
        if fx != fy {
            return false;
        }
        i = i + 1;
    }
    true
}

} // verus!

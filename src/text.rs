//! Decimal text: reading unsigned integers from digit strings and writing
//! them back out.
use vstd::prelude::*;

verus! {

pub open spec fn is_digit(c: char) -> bool {
    '0' <= c && c <= '9'
}

pub open spec fn digit_value(c: char) -> nat {
    (c as int - '0' as int) as nat
}

pub open spec fn all_digits(s: Seq<char>) -> bool {
    forall|i: int| 0 <= i < s.len() ==> #[trigger] is_digit(s[i])
}

/// The number that a string of digits denotes, most significant first.
pub open spec fn decimal_value(s: Seq<char>) -> nat
    decreases s.len(),
{
    if s.len() == 0 {
        0
    } else {
        decimal_value(s.drop_last()) * 10 + digit_value(s.last())
    }
}

/// What reading `s` as a base-10 integer gives: a non-empty run of digits
/// and nothing else.
pub open spec fn parsed_decimal(s: Seq<char>) -> Option<nat> {
    if s.len() > 0 && all_digits(s) {
        Some(decimal_value(s))
    } else {
        None
    }
}

pub open spec fn digit_char(d: nat) -> char {
    (d + '0' as nat) as char
}

/// The shortest decimal writing of `n`.
pub open spec fn decimal_text(n: nat) -> Seq<char>
    decreases n,
{
    if n < 10 {
        seq![digit_char(n)]
    } else {
        decimal_text(n / 10).push(digit_char(n % 10))
    }
}

/// The decimal writing of `n`, with leading zeros up to `width` characters.
pub open spec fn padded_text(n: nat, width: nat) -> Seq<char> {
    let t = decimal_text(n);
    if t.len() < width {
        Seq::new((width - t.len()) as nat, |i: int| '0') + t
    } else {
        t
    }
}

proof fn lemma_prefix_value_bounded(s: Seq<char>, i: int)
    requires
        0 <= i <= s.len(),
    ensures
        decimal_value(s.take(i)) <= decimal_value(s),
    decreases s.len(),
{
    if i == s.len() {
        assert(s.take(i) =~= s);
    } else {
        lemma_prefix_value_bounded(s.drop_last(), i);
        assert(s.drop_last().take(i) =~= s.take(i));
    }
}

/// The value of `s` read as an unsigned integer: an optional `+`, then a
/// non-empty run of digits.
pub open spec fn unsigned_value(s: Seq<char>) -> Option<nat> {
    if s.len() > 0 && s[0] == '+' {
        parsed_decimal(s.skip(1))
    } else {
        parsed_decimal(s)
    }
}

/// The value of `s` read as a signed integer: an optional `+` or `-`, then a
/// non-empty run of digits.
pub open spec fn signed_value(s: Seq<char>) -> Option<int> {
    if s.len() > 0 && s[0] == '-' {
        match parsed_decimal(s.skip(1)) {
            Some(n) => Some(-n),
            None => None,
        }
    } else {
        match unsigned_value(s) {
            Some(n) => Some(n as int),
            None => None,
        }
    }
}

/// Reads the characters of `s` from `start` on as a run of digits whose
/// value fits in a `u32`.
fn parse_digits(s: &str, start: usize) -> (r: Option<u32>)
    requires
        start <= s@.len(),
    ensures
        r is Some <==> (parsed_decimal(s@.skip(start as int)) is Some && parsed_decimal(
            s@.skip(start as int),
        )->Some_0 <= u32::MAX),
        r is Some ==> parsed_decimal(s@.skip(start as int)) == Some(r->Some_0 as nat),
{
    let ghost w = s@.skip(start as int);
    let len = s.unicode_len();
    if len == start {
        return None;
    }
    let mut acc: u64 = 0;
    let mut i: usize = start;
    while i < len
        invariant
            len == s@.len(),
            w == s@.skip(start as int),
            start <= i <= len,
            acc <= u32::MAX,
            all_digits(w.take(i - start)),
            acc == decimal_value(w.take(i - start)),
        decreases len - i,
    {
        let c = s.get_char(i);
        let ghost k = i - start;
        assert(w[k] == s@[i as int]);
        if c < '0' || c > '9' {
            assert(!is_digit(w[k]));
            return None;
        }
        let d = (c as u32 - '0' as u32) as u64;
        let next = acc * 10 + d;
        proof {
            let t = w.take(k + 1);
            assert(t.drop_last() =~= w.take(k));
            assert(t.last() == c);
            assert(all_digits(t)) by {
                assert forall|j: int| 0 <= j < t.len() implies #[trigger] is_digit(t[j]) by {
                    if j < k {
                        assert(w.take(k)[j] == t[j]);
                    }
                }
            }
        }
        if next > u32::MAX as u64 {
            proof {
                lemma_prefix_value_bounded(w, k + 1);
            }
            return None;
        }
        acc = next;
        i = i + 1;
    }
    assert(w.take(len - start) =~= w);
    Some(acc as u32)
}

/// Reads `s` as a base-10 unsigned integer that fits in a `u32`: an optional
/// `+`, then digits.
pub fn parse_u32(s: &str) -> (r: Option<u32>)
    ensures
        r is Some <==> (unsigned_value(s@) is Some && unsigned_value(s@)->Some_0 <= u32::MAX),
        r is Some ==> unsigned_value(s@) == Some(r->Some_0 as nat),
{
    if s.unicode_len() > 0 && s.get_char(0) == '+' {
        parse_digits(s, 1)
    } else {
        assert(s@.skip(0) =~= s@);
        parse_digits(s, 0)
    }
}

/// Reads `s` as a base-10 signed integer that fits in an `i32`: an optional
/// `+` or `-`, then digits.
pub fn parse_i32(s: &str) -> (r: Option<i32>)
    ensures
        r is Some <==> (signed_value(s@) is Some && i32::MIN <= signed_value(s@)->Some_0
            <= i32::MAX),
        r is Some ==> signed_value(s@) == Some(r->Some_0 as int),
{
    if s.unicode_len() > 0 && s.get_char(0) == '-' {
        match parse_digits(s, 1) {
            Some(v) => if v <= 2147483648 {
                Some((0 - (v as i64)) as i32)
            } else {
                None
            },
            None => None,
        }
    } else {
        match parse_u32(s) {
            Some(v) => if v <= 2147483647 {
                Some(v as i32)
            } else {
                None
            },
            None => None,
        }
    }
}

fn digit_str(d: u32) -> (r: &'static str)
    requires
        d < 10,
    ensures
        r@ == seq![digit_char(d as nat)],
{
    proof {
        reveal_strlit("0");
        reveal_strlit("1");
        reveal_strlit("2");
        reveal_strlit("3");
        reveal_strlit("4");
        reveal_strlit("5");
        reveal_strlit("6");
        reveal_strlit("7");
        reveal_strlit("8");
        reveal_strlit("9");
    }
    match d {
        0 => "0",
        1 => "1",
        2 => "2",
        3 => "3",
        4 => "4",
        5 => "5",
        6 => "6",
        7 => "7",
        8 => "8",
        _ => "9",
    }
}

/// Appends the decimal writing of `n` to `s`.
pub fn push_decimal(s: &mut String, n: u32)
    ensures
        final(s)@ == old(s)@ + decimal_text(n as nat),
    decreases n,
{
    if n >= 10 {
        push_decimal(s, n / 10);
    }
    s.append(digit_str(n % 10));
    proof {
        assert(old(s)@ + decimal_text(n as nat) =~= s@);
    }
}

} // verus!

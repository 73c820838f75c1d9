//! Decimal rendering and parsing of `u32` values, and the ceiling division
//! used to turn a result count into a page count.
//!
//! The strings sent to the backend (`users/{id}`, `limit={n}`, ...)
//! are all plain base-10 renderings, so these two functions carry the whole
//! numeric surface of the request paths and the routing table.

use vstd::prelude::*;

verus! {

/// The character for a single decimal digit value.
pub open spec fn spec_digit(d: nat) -> char {
    if d == 0 {
        '0'
    } else if d == 1 {
        '1'
    } else if d == 2 {
        '2'
    } else if d == 3 {
        '3'
    } else if d == 4 {
        '4'
    } else if d == 5 {
        '5'
    } else if d == 6 {
        '6'
    } else if d == 7 {
        '7'
    } else if d == 8 {
        '8'
    } else {
        '9'
    }
}

/// Base-10 rendering of a natural number, without sign or leading zeros
/// (except that zero itself renders as "0").
pub open spec fn spec_dec(n: nat) -> Seq<char>
    decreases n,
{
    if n < 10 {
        seq![spec_digit(n)]
    } else {
        spec_dec(n / 10).push(spec_digit(n % 10))
    }
}

pub open spec fn spec_is_digit(c: char) -> bool {
    '0' <= c && c <= '9'
}

/// The numeric value of a decimal digit character.
pub open spec fn spec_digit_val(c: char) -> nat {
    if c == '0' {
        0
    } else if c == '1' {
        1
    } else if c == '2' {
        2
    } else if c == '3' {
        3
    } else if c == '4' {
        4
    } else if c == '5' {
        5
    } else if c == '6' {
        6
    } else if c == '7' {
        7
    } else if c == '8' {
        8
    } else {
        9
    }
}

pub open spec fn spec_all_digits(s: Seq<char>) -> bool {
    forall|i: int| 0 <= i < s.len() ==> spec_is_digit(#[trigger] s[i])
}

/// The value of a string of decimal digits (most significant first).
pub open spec fn spec_dec_val(s: Seq<char>) -> nat
    decreases s.len(),
{
    if s.len() == 0 {
        0
    } else {
        spec_dec_val(s.drop_last()) * 10 + spec_digit_val(s.last())
    }
}

/// What `u32::from_str` accepts: an optional leading `+`, then at least one
/// digit, and a value that fits in 32 bits. Leading zeros are allowed.
pub open spec fn spec_parse_u32(s: Seq<char>) -> Option<u32> {
    let digits = if s.len() > 0 && s[0] == '+' {
        s.skip(1)
    } else {
        s
    };
    if digits.len() > 0 && spec_all_digits(digits) && spec_dec_val(digits) <= u32::MAX {
        Some(spec_dec_val(digits) as u32)
    } else {
        None
    }
}

fn digit_str(d: u32) -> (r: &'static str)
    requires
        d < 10,
    ensures
        r@ =~= seq![spec_digit(d as nat)],
{
    proof {
        reveal_strlit("0");
        reveal_strlit("1");
        reveal_strlit("2");
        reveal_strlit("3");
        reveal_strlit("4");
        reveal_strlit("5");
        reveal_strlit("6");
        reveal_strlit("7");
        reveal_strlit("8");
        reveal_strlit("9");
    }
    match d {
        0 => "0",
        1 => "1",
        2 => "2",
        3 => "3",
        4 => "4",
        5 => "5",
        6 => "6",
        7 => "7",
        8 => "8",
        _ => "9",
    }
}

fn push_dec(n: u32, s: &mut String)
    ensures
        final(s)@ == old(s)@ + spec_dec(n as nat),
    decreases n,
{
    if n >= 10 {
        push_dec(n / 10, s);
    }
    s.append(digit_str(n % 10));
    proof {
        assert(final(s)@ =~= old(s)@ + spec_dec(n as nat));
    }
}

/// Base-10 rendering of `n`, as `u32::to_string` produces it.
pub fn format_u32(n: u32) -> (s: String)
    ensures
        s@ == spec_dec(n as nat),
{
    let mut s = String::new();
    push_dec(n, &mut s);
    proof {
        assert(s@ =~= spec_dec(n as nat));
    }
    s
}

proof fn lemma_dec_val_prefix_monotonic(s: Seq<char>, i: int, j: int)
    requires
        0 <= i <= j <= s.len(),
    ensures
        spec_dec_val(s.take(i)) <= spec_dec_val(s.take(j)),
    decreases j - i,
{
    if i < j {
        lemma_dec_val_prefix_monotonic(s, i, j - 1);
        assert(s.take(j).drop_last() =~= s.take(j - 1));
        assert(spec_dec_val(s.take(j)) == spec_dec_val(s.take(j - 1)) * 10 + spec_digit_val(
            s.take(j).last(),
        ));
    }
}

/// Parse a base-10 `u32`, accepting exactly what `u32::from_str` accepts.
pub fn parse_u32(s: &str) -> (r: Option<u32>)
    ensures
        r == spec_parse_u32(s@),
{
    let len = s.unicode_len();
    let start: usize = if len > 0 && s.get_char(0) == '+' {
        1
    } else {
        0
    };
    let ghost digits: Seq<char> = s@.skip(start as int);
    proof {
        if start == 0 {
            assert(digits =~= s@);
        }
    }
    if len == start {
        return None;
    }
    let mut acc: u64 = 0;
    let mut i: usize = start;
    while i < len
        invariant
            start <= i <= len,
            len == s@.len(),
            (start as int) == (if s@.len() > 0 && s@[0] == '+' {
                1int
            } else {
                0int
            }),
            digits == s@.skip(start as int),
            digits == (if s@.len() > 0 && s@[0] == '+' {
                s@.skip(1)
            } else {
                s@
            }),
            spec_all_digits(digits.take(i - start)),
            acc == spec_dec_val(digits.take(i - start)),
            acc <= u32::MAX,
        decreases len - i,
    {
        let c = s.get_char(i);
        if c < '0' || c > '9' {
            proof {
                assert(digits[i - start] == c);
                assert(!spec_all_digits(digits));
            }
            return None;
        }
        let d: u64 = (c as u32 as u64) - ('0' as u32 as u64);
        proof {
            assert(spec_is_digit(c));
            assert(spec_digit_val(c) == (c as u32 - '0' as u32)) by {
                assert('0' as u32 == 48);
            }
        }
        acc = acc * 10 + d;
        proof {
            assert(digits.take(i + 1 - start).drop_last() =~= digits.take(i - start));
            assert(digits.take(i + 1 - start).last() == c);
        }
        if acc > u32::MAX as u64 {
            proof {
                lemma_dec_val_prefix_monotonic(digits, i + 1 - start, digits.len() as int);
                assert(digits.take(digits.len() as int) =~= digits);
            }
            return None;
        }
        i = i + 1;
    }
    proof {
        assert(digits.take(i - start) =~= digits);
    }
    Some(acc as u32)
}

/// `spec_dec` renders only digit characters.
pub proof fn lemma_dec_all_digits(n: nat)
    ensures
        spec_all_digits(spec_dec(n)),
        spec_dec(n).len() >= 1,
    decreases n,
{
    if n >= 10 {
        lemma_dec_all_digits(n / 10);
    }
}

proof fn lemma_dec_val_of_dec(n: nat)
    ensures
        spec_dec_val(spec_dec(n)) == n,
    decreases n,
{
    if n < 10 {
        assert(spec_dec(n).drop_last() =~= Seq::<char>::empty());
        assert(spec_dec_val(Seq::<char>::empty()) == 0);
    } else {
        lemma_dec_val_of_dec(n / 10);
        assert(spec_dec(n).drop_last() =~= spec_dec(n / 10));
        assert(n == (n / 10) * 10 + (n % 10)) by (nonlinear_arith);
    }
}

/// Rendering a `u32` and parsing it back returns the same number: the request
/// paths and routes built from ids survive the round trip.
pub proof fn lemma_dec_round_trip(n: u32)
    ensures
        spec_parse_u32(spec_dec(n as nat)) == Some(n),
{
    lemma_dec_all_digits(n as nat);
    lemma_dec_val_of_dec(n as nat);
    assert(spec_digit(n as nat % 10) != '+');
    if n >= 10 {
        lemma_dec_all_digits((n / 10) as nat);
        assert(spec_dec(n as nat)[0] == spec_dec((n / 10) as nat)[0]);
        assert(spec_is_digit(spec_dec(n as nat)[0]));
    }
    assert(spec_dec(n as nat)[0] != '+');
}

/// Ceiling division: the page count for `total` results at `page_size` per
/// page.
pub fn div_ceil_u32(total: u32, page_size: u32) -> (r: u32)
    requires
        page_size >= 1,
    ensures
        r == (total + page_size - 1) / (page_size as int),
        total > 0 ==> r >= 1,
        total == 0 ==> r == 0,
{
    let wide: u64 = (total as u64 + page_size as u64 - 1) / (page_size as u64);
    proof {
        assert(wide <= u32::MAX) by (nonlinear_arith)
            requires
                wide == (total + page_size - 1) / (page_size as int),
                total <= u32::MAX,
                1 <= page_size <= u32::MAX,
        ;
        if total > 0 {
            assert(wide >= 1) by (nonlinear_arith)
                requires
                    wide == (total + page_size - 1) / (page_size as int),
                    total >= 1,
                    page_size >= 1,
            ;
        } else {
            assert(wide == 0) by (nonlinear_arith)
                requires
                    wide == (page_size - 1) / (page_size as int),
                    page_size >= 1,
            ;
        }
    }
    wide as u32
}

} // verus!

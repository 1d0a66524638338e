//! Decimal rendering with space-separated thousands groups, as the
//! throughput reports print counts (e.g. `1 234 567`).

use vstd::prelude::*;
use vstd::arithmetic::div_mod::{
    lemma_div_denominator, lemma_div_multiples_vanish_fancy, lemma_mod_breakdown, lemma_mod_mod,
};

verus! {

/// The decimal digit character for `d`.
pub open spec fn digit_char(d: nat) -> char
    recommends
        d < 10,
{
    if d == 0 {
        '0'
    } else if d == 1 {
        '1'
    } else if d == 2 {
        '2'
    } else if d == 3 {
        '3'
    } else if d == 4 {
        '4'
    } else if d == 5 {
        '5'
    } else if d == 6 {
        '6'
    } else if d == 7 {
        '7'
    } else if d == 8 {
        '8'
    } else {
        '9'
    }
}

/// The decimal digits of `n`, most significant first, no leading zeros
/// (a single `'0'` for zero).
pub open spec fn dec_digits(n: nat) -> Seq<char>
    decreases n,
{
    if n < 10 {
        seq![digit_char(n)]
    } else {
        dec_digits(n / 10).push(digit_char(n % 10))
    }
}

/// `s` with a space before every group of three characters from the right.
pub open spec fn grouped(s: Seq<char>) -> Seq<char>
    decreases s.len(),
{
    if s.len() <= 3 {
        s
    } else {
        grouped(s.take(s.len() - 3)) + seq![' '] + s.skip(s.len() - 3)
    }
}

/// The character of a single decimal digit, as an owned string.
fn digit_str(d: u64) -> (r: String)
    requires
        d < 10,
    ensures
        r@ == seq![digit_char(d as nat)],
{
    let r = if d == 0 {
        String::from_str("0")
    } else if d == 1 {
        String::from_str("1")
    } else if d == 2 {
        String::from_str("2")
    } else if d == 3 {
        String::from_str("3")
    } else if d == 4 {
        String::from_str("4")
    } else if d == 5 {
        String::from_str("5")
    } else if d == 6 {
        String::from_str("6")
    } else if d == 7 {
        String::from_str("7")
    } else if d == 8 {
        String::from_str("8")
    } else {
        String::from_str("9")
    };
    proof {
        reveal_strlit("0");
        reveal_strlit("1");
        reveal_strlit("2");
        reveal_strlit("3");
        reveal_strlit("4");
        reveal_strlit("5");
        reveal_strlit("6");
        reveal_strlit("7");
        reveal_strlit("8");
        reveal_strlit("9");
        assert(r@ =~= seq![digit_char(d as nat)]);
    }
    r
}

/// The plain decimal rendering of `n`.
fn dec_string(n: u64) -> (r: String)
    ensures
        r@ == dec_digits(n as nat),
    decreases n,
{
    if n < 10 {
        digit_str(n)
    } else {
        let mut s = dec_string(n / 10);
        let d = digit_str(n % 10);
        s.append(d.as_str());
        proof {
            assert(s@ =~= dec_digits((n / 10) as nat).push(digit_char((n % 10) as nat)));
        }
        s
    }
}

/// A number below 1000 renders as at most three digits.
proof fn lemma_dec_digits_len(n: nat)
    ensures
        n < 10 ==> dec_digits(n).len() == 1,
        n < 100 ==> dec_digits(n).len() <= 2,
        n < 1000 ==> dec_digits(n).len() <= 3,
        dec_digits(n).len() >= 1,
    decreases n,
{
    if n >= 10 {
        lemma_dec_digits_len(n / 10);
    }
}

/// The zero-padded three-digit rendering of `m < 1000`.
spec fn three_digits_of(m: nat) -> Seq<char>
    recommends
        m < 1000,
{
    seq![digit_char(m / 100), digit_char((m / 10) % 10), digit_char(m % 10)]
}

/// For `n >= 1000`, the digits of `n` split into the digits of `n / 1000`
/// followed by the zero-padded last three.
proof fn lemma_dec_digits_split(n: nat)
    requires
        n >= 1000,
    ensures
        dec_digits(n) == dec_digits(n / 1000) + three_digits_of(n % 1000),
{
    let x = n as int;
    assert(0 <= x % 10 < 10 && 0 <= x % 100 < 100) by (nonlinear_arith)
        requires x >= 0;
    lemma_div_denominator(x, 10, 10);
    lemma_div_denominator(x, 100, 10);
    lemma_mod_mod(x, 10, 100);
    lemma_mod_breakdown(x, 10, 100);
    lemma_div_multiples_vanish_fancy((x / 10) % 100, x % 10, 10);
    lemma_mod_mod(x / 10, 10, 10);
    lemma_mod_breakdown(x, 100, 10);
    lemma_div_multiples_vanish_fancy((x / 100) % 10, x % 100, 100);
    assert((n % 1000) % 10 == n % 10);
    assert((x % 1000) / 10 == (x / 10) % 100);
    assert((n % 1000) / 10 % 10 == (n / 10) % 10);
    assert((n % 1000) / 100 == (n / 100) % 10);
    assert(dec_digits(n) == dec_digits(n / 10).push(digit_char(n % 10)));
    assert(dec_digits(n / 10) == dec_digits(n / 100).push(digit_char((n / 10) % 10)));
    assert(dec_digits(n / 100) == dec_digits(n / 1000).push(digit_char((n / 100) % 10)));
    assert(dec_digits(n) =~= dec_digits(n / 1000) + three_digits_of(n % 1000));
}

/// The zero-padded three-digit rendering of `m < 1000`, as a string.
fn three_digit_string(m: u64) -> (r: String)
    requires
        m < 1000,
    ensures
        r@ == three_digits_of(m as nat),
{
    let mut s = digit_str(m / 100);
    let d1 = digit_str((m / 10) % 10);
    let d0 = digit_str(m % 10);
    s.append(d1.as_str());
    s.append(d0.as_str());
    proof {
        assert(s@ =~= three_digits_of(m as nat));
    }
    s
}

/// Format `n` with space-separated thousands groups (e.g. `1 234 567`).
pub fn fmt_number(n: usize) -> (r: String)
    ensures
        r@ == grouped(dec_digits(n as nat)),
    decreases n,
{
    let n64 = n as u64;
    if n64 < 1000 {
        let r = dec_string(n64);
        proof {
            lemma_dec_digits_len(n as nat);
        }
        r
    } else {
        let mut s = fmt_number((n64 / 1000) as usize);
        let space = String::from_str(" ");
        let tail = three_digit_string(n64 % 1000);
        s.append(space.as_str());
        s.append(tail.as_str());
        proof {
            reveal_strlit(" ");
            lemma_dec_digits_split(n as nat);
            lemma_dec_digits_len((n / 1000) as nat);
            let whole = dec_digits(n as nat);
            let head = dec_digits((n / 1000) as nat);
            assert(whole.len() == head.len() + 3);
            assert(whole.take(whole.len() - 3) =~= head);
            assert(whole.skip(whole.len() - 3) =~= three_digits_of((n % 1000) as nat));
            assert(s@ =~= grouped(dec_digits(n as nat)));
        }
        s
    }
}

} // verus!

//! Canonical decimal rendering of small signed integers, used to name the
//! offending index in a reported fault.

use vstd::prelude::*;
use vstd::string::StringExecFns;

verus! {

/// The decimal digit character for a value below ten.
pub open spec fn digit_char(d: int) -> char {
    if d == 0 {
        '0'
    } else if d == 1 {
        '1'
    } else if d == 2 {
        '2'
    } else if d == 3 {
        '3'
    } else if d == 4 {
        '4'
    } else if d == 5 {
        '5'
    } else if d == 6 {
        '6'
    } else if d == 7 {
        '7'
    } else if d == 8 {
        '8'
    } else {
        '9'
    }
}

/// Canonical decimal rendering of a natural number: most significant digit
/// first, no leading zeros.
pub open spec fn dec_nat(n: nat) -> Seq<char>
    decreases n,
{
    if n < 10 {
        seq![digit_char(n as int)]
    } else {
        dec_nat(n / 10) + seq![digit_char((n % 10) as int)]
    }
}

/// Canonical decimal rendering of an integer: a leading minus sign on a
/// negative value, then the digits of its magnitude.
pub open spec fn dec_int(n: int) -> Seq<char> {
    if n < 0 {
        seq!['-'] + dec_nat((-n) as nat)
    } else {
        dec_nat(n as nat)
    }
}

/// The one-character string for a decimal digit.
fn digit_str(d: u8) -> (s: &'static str)
    requires
        d < 10,
    ensures
        s@ == seq![digit_char(d as int)],
{
    proof {
        reveal_strlit("0");
        reveal_strlit("1");
        reveal_strlit("2");
        reveal_strlit("3");
        reveal_strlit("4");
        reveal_strlit("5");
        reveal_strlit("6");
        reveal_strlit("7");
        reveal_strlit("8");
        reveal_strlit("9");
    }
    match d {
        0 => "0",
        1 => "1",
        2 => "2",
        3 => "3",
        4 => "4",
        5 => "5",
        6 => "6",
        7 => "7",
        8 => "8",
        _ => "9",
    }
}

/// Renders an 8-bit signed integer in canonical decimal.
pub fn decimal_i8(i: i8) -> (s: String)
    ensures
        s@ == dec_int(i as int),
{
    let mut s = String::new();
    let m: u32 = if i < 0 {
        proof {
            reveal_strlit("-");
        }
        s.append("-");
        (-(i as i32)) as u32
    } else {
        i as u32
    };
    assert(m <= 128);
    if m >= 100 {
        s.append(digit_str((m / 100) as u8));
    }
    if m >= 10 {
        s.append(digit_str(((m / 10) % 10) as u8));
    }
    s.append(digit_str((m % 10) as u8));
    proof {
        lemma_dec_nat_up_to_three_digits(m as nat);
    }
    s
}

/// Unfolds the decimal rendering of a value of at most three digits into
/// its explicit digit characters.
proof fn lemma_dec_nat_up_to_three_digits(n: nat)
    requires
        n < 1000,
    ensures
        n < 10 ==> dec_nat(n) == seq![digit_char(n as int)],
        10 <= n < 100 ==> dec_nat(n) == seq![
            digit_char((n / 10) as int),
            digit_char((n % 10) as int),
        ],
        100 <= n ==> dec_nat(n) == seq![
            digit_char((n / 100) as int),
            digit_char((n / 10 % 10) as int),
            digit_char((n % 10) as int),
        ],
    decreases n,
{
    if n < 10 {
    } else if n < 100 {
        assert(n / 10 < 10);
        assert(dec_nat(n) == dec_nat(n / 10) + seq![digit_char((n % 10) as int)]);
        assert(dec_nat(n) =~= seq![digit_char((n / 10) as int), digit_char((n % 10) as int)]);
    } else {
        assert(10 <= n / 10 < 100);
        assert(n / 10 / 10 == n / 100) by (nonlinear_arith)
            requires
                100 <= n < 1000,
        ;
        lemma_dec_nat_up_to_three_digits(n / 10);
        assert(dec_nat(n) == dec_nat(n / 10) + seq![digit_char((n % 10) as int)]);
        assert(dec_nat(n) =~= seq![
            digit_char((n / 100) as int),
            digit_char((n / 10 % 10) as int),
            digit_char((n % 10) as int),
        ]);
    }
}

} // verus!

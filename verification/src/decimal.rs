//! Decimal labels: the text form of a natural number, as bucket labels use it.

use vstd::prelude::*;
use vstd::string::*;

verus! {

/// The character that writes the digit `d`.
pub open spec fn digit_char(d: nat) -> char {
    if d == 0 {
        '0'
    } else if d == 1 {
        '1'
    } else if d == 2 {
        '2'
    } else if d == 3 {
        '3'
    } else if d == 4 {
        '4'
    } else if d == 5 {
        '5'
    } else if d == 6 {
        '6'
    } else if d == 7 {
        '7'
    } else if d == 8 {
        '8'
    } else {
        '9'
    }
}

/// The digit that `c` writes; zero for a character that is no digit.
pub open spec fn digit_value(c: char) -> nat {
    if c == '1' {
        1
    } else if c == '2' {
        2
    } else if c == '3' {
        3
    } else if c == '4' {
        4
    } else if c == '5' {
        5
    } else if c == '6' {
        6
    } else if c == '7' {
        7
    } else if c == '8' {
        8
    } else if c == '9' {
        9
    } else {
        0
    }
}

/// `n` written in base ten, most significant digit first, without leading zeros.
pub open spec fn decimal(n: nat) -> Seq<char>
    decreases n,
{
    if n < 10 {
        seq![digit_char(n)]
    } else {
        decimal(n / 10).push(digit_char(n % 10))
    }
}

/// The number that a sequence of digits writes in base ten.
pub open spec fn decimal_value(s: Seq<char>) -> nat
    decreases s.len(),
{
    if s.len() == 0 {
        0
    } else {
        decimal_value(s.drop_last()) * 10 + digit_value(s.last())
    }
}

/// Reading back what `decimal` wrote gives the number again.
pub proof fn lemma_decimal_value(n: nat)
    ensures
        decimal_value(decimal(n)) == n,
    decreases n,
{
    if n < 10 {
        let s = decimal(n);
        assert(s.drop_last() =~= Seq::<char>::empty());
        assert(decimal_value(s.drop_last()) == 0);
        assert(s.last() == digit_char(n));
    } else {
        lemma_decimal_value(n / 10);
        let s = decimal(n);
        assert(s.drop_last() =~= decimal(n / 10));
        assert(s.last() == digit_char(n % 10));
    }
}

/// Two numbers with the same decimal text are the same number.
pub proof fn lemma_decimal_injective(a: nat, b: nat)
    requires
        decimal(a) == decimal(b),
    ensures
        a == b,
{
    lemma_decimal_value(a);
    lemma_decimal_value(b);
}

fn digit_str(d: u64) -> (r: &'static str)
    requires
        d < 10,
    ensures
        r@ == seq![digit_char(d as nat)],
{
    proof {
        reveal_strlit("0");
        reveal_strlit("1");
        reveal_strlit("2");
        reveal_strlit("3");
        reveal_strlit("4");
        reveal_strlit("5");
        reveal_strlit("6");
        reveal_strlit("7");
        reveal_strlit("8");
        reveal_strlit("9");
    }
    let r = if d == 0 {
        "0"
    } else if d == 1 {
        "1"
    } else if d == 2 {
        "2"
    } else if d == 3 {
        "3"
    } else if d == 4 {
        "4"
    } else if d == 5 {
        "5"
    } else if d == 6 {
        "6"
    } else if d == 7 {
        "7"
    } else if d == 8 {
        "8"
    } else {
        "9"
    };
    assert(r@ =~= seq![digit_char(d as nat)]);
    r
}

/// Writes `n` in base ten.
pub fn decimal_string(n: u64) -> (r: String)
    ensures
        r@ == decimal(n as nat),
    decreases n,
{
    if n < 10 {
        String::from_str(digit_str(n))
    } else {
        let mut s = decimal_string(n / 10);
        s.append(digit_str(n % 10));
        assert(s@ =~= decimal(n as nat));
        s
    }
}

} // verus!

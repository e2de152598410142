//! Decimal notation of socket ids, and the fact that it names each id once.

use vstd::prelude::*;
use vstd::string::*;

verus! {

/// The ten decimal digits, `'0'` first.
pub open spec fn digits() -> Seq<char> {
    seq!['0', '1', '2', '3', '4', '5', '6', '7', '8', '9']
}

/// The decimal notation of `n`: no sign, no leading zeros, `"0"` for zero.
pub open spec fn decimal(n: nat) -> Seq<char>
    decreases n,
{
    if n < 10 {
        seq![digits()[n as int]]
    } else {
        decimal(n / 10).push(digits()[(n % 10) as int])
    }
}

/// Whether `c` is one of the characters `'0'` to `'9'`.
pub open spec fn is_digit(c: char) -> bool {
    '0' as int <= c as int <= '9' as int
}

/// The number a digit character stands for: its distance from `'0'`.
pub open spec fn digit_value(c: char) -> int {
    c as int - '0' as int
}

/// The number that the digits `s` stand for, read in base ten, most
/// significant first.
pub open spec fn value_of(s: Seq<char>) -> int
    decreases s.len(),
{
    if s.len() == 0 {
        0
    } else {
        value_of(s.drop_last()) * 10 + digit_value(s.last())
    }
}

/// The `k`-th digit is the character `k` places after `'0'`.
pub proof fn lemma_digit_code(k: int)
    requires
        0 <= k < 10,
    ensures
        digits()[k] as int == '0' as int + k,
        is_digit(digits()[k]),
        digit_value(digits()[k]) == k,
{
    assert('1' as int == '0' as int + 1);
    assert('2' as int == '0' as int + 2);
    assert('3' as int == '0' as int + 3);
    assert('4' as int == '0' as int + 4);
    assert('5' as int == '0' as int + 5);
    assert('6' as int == '0' as int + 6);
    assert('7' as int == '0' as int + 7);
    assert('8' as int == '0' as int + 8);
    assert('9' as int == '0' as int + 9);
    assert(digits()[0] == '0');
    assert(digits()[1] == '1');
    assert(digits()[2] == '2');
    assert(digits()[3] == '3');
    assert(digits()[4] == '4');
    assert(digits()[5] == '5');
    assert(digits()[6] == '6');
    assert(digits()[7] == '7');
    assert(digits()[8] == '8');
    assert(digits()[9] == '9');
}

/// The decimal notation of `n` stands for `n`: it is made of digits only, read
/// in base ten it gives back `n`, and it starts with `'0'` only for zero.
pub proof fn decimal_denotes(n: nat)
    ensures
        forall|i: int| 0 <= i < decimal(n).len() ==> is_digit(#[trigger] decimal(n)[i]),
        value_of(decimal(n)) == n,
        decimal(n).len() >= 1,
        decimal(n)[0] == '0' ==> n == 0,
    decreases n,
{
    if n < 10 {
        lemma_digit_code(n as int);
        assert(decimal(n).drop_last() =~= Seq::<char>::empty());
        assert(value_of(decimal(n).drop_last()) == 0);
    } else {
        decimal_denotes(n / 10);
        lemma_digit_code((n % 10) as int);
        let d = decimal(n);
        let p = decimal(n / 10);
        assert(d.drop_last() =~= p);
        assert(d[0] == p[0]);
        assert(value_of(d) == value_of(p) * 10 + (n % 10));
        assert((n / 10) * 10 + n % 10 == n);
        assert forall|i: int| 0 <= i < d.len() implies is_digit(#[trigger] d[i]) by {
            if i < p.len() {
                assert(d[i] == p[i]);
            }
        }
    }
}

/// No two digits are the same character.
pub proof fn lemma_digits_distinct(i: int, j: int)
    requires
        0 <= i < 10,
        0 <= j < 10,
        digits()[i] == digits()[j],
    ensures
        i == j,
{
    assert(digits()[0] == '0');
    assert(digits()[1] == '1');
    assert(digits()[2] == '2');
    assert(digits()[3] == '3');
    assert(digits()[4] == '4');
    assert(digits()[5] == '5');
    assert(digits()[6] == '6');
    assert(digits()[7] == '7');
    assert(digits()[8] == '8');
    assert(digits()[9] == '9');
}

/// A decimal notation has one digit below ten and at least two from ten on.
pub proof fn lemma_decimal_len(n: nat)
    ensures
        decimal(n).len() >= 1,
        n < 10 <==> decimal(n).len() == 1,
    decreases n,
{
    if n >= 10 {
        lemma_decimal_len(n / 10);
    }
}

/// Distinct numbers have distinct decimal notations.
pub proof fn lemma_decimal_injective(a: nat, b: nat)
    requires
        decimal(a) == decimal(b),
    ensures
        a == b,
    decreases a,
{
    lemma_decimal_len(a);
    lemma_decimal_len(b);
    if a < 10 {
        assert(b < 10);
        assert(decimal(a)[0] == digits()[a as int]);
        assert(decimal(b)[0] == digits()[b as int]);
        lemma_digits_distinct(a as int, b as int);
    } else {
        let da = decimal(a);
        let db = decimal(b);
        assert(da.last() == db.last());
        lemma_digits_distinct((a % 10) as int, (b % 10) as int);
        assert(da.drop_last() =~= decimal(a / 10));
        assert(db.drop_last() =~= decimal(b / 10));
        lemma_decimal_injective(a / 10, b / 10);
    }
}

/// The one-character string of digit `d`.
fn digit_str(d: usize) -> (s: &'static str)
    requires
        d < 10,
    ensures
        s@ == seq![digits()[d as int]],
{
    proof {
        reveal_strlit("0");
        reveal_strlit("1");
        reveal_strlit("2");
        reveal_strlit("3");
        reveal_strlit("4");
        reveal_strlit("5");
        reveal_strlit("6");
        reveal_strlit("7");
        reveal_strlit("8");
        reveal_strlit("9");
    }
    if d == 0 {
        "0"
    } else if d == 1 {
        "1"
    } else if d == 2 {
        "2"
    } else if d == 3 {
        "3"
    } else if d == 4 {
        "4"
    } else if d == 5 {
        "5"
    } else if d == 6 {
        "6"
    } else if d == 7 {
        "7"
    } else if d == 8 {
        "8"
    } else {
        "9"
    }
}

/// The decimal notation of `n`.
pub fn decimal_string(n: usize) -> (s: String)
    ensures
        s@ == decimal(n as nat),
        forall|i: int| 0 <= i < s@.len() ==> is_digit(#[trigger] s@[i]),
        value_of(s@) == n,
        s@.len() >= 1,
        s@[0] == '0' ==> n == 0,
    decreases n,
{
    proof {
        decimal_denotes(n as nat);
    }
    if n < 10 {
        String::from_str(digit_str(n))
    } else {
        let mut s = decimal_string(n / 10);
        s.append(digit_str(n % 10));
        s
    }
}

} // verus!

use vstd::prelude::*;
use vstd::string::StringExecFns;

verus! {

/// The character of a decimal digit.
pub open spec fn digit_char(d: nat) -> char {
    if d == 0 { '0' } else if d == 1 { '1' } else if d == 2 { '2' } else if d == 3 { '3' }
    else if d == 4 { '4' } else if d == 5 { '5' } else if d == 6 { '6' } else if d == 7 { '7' }
    else if d == 8 { '8' } else { '9' }
}

/// The decimal representation of `n`, without sign or leading zeros.
pub open spec fn decimal_of(n: nat) -> Seq<char>
    decreases n,
{
    if n < 10 {
        seq![digit_char(n)]
    } else {
        decimal_of(n / 10) + seq![digit_char(n % 10)]
    }
}

proof fn lemma_decimal_len(n: nat)
    ensures
        decimal_of(n).len() >= 1,
        n >= 10 ==> decimal_of(n).len() >= 2,
    decreases n,
{
    if n >= 10 {
        lemma_decimal_len(n / 10);
    }
}

/// Distinct numbers have distinct decimal representations.
pub proof fn lemma_decimal_injective(a: nat, b: nat)
    requires
        decimal_of(a) == decimal_of(b),
    ensures
        a == b,
    decreases a,
{
    lemma_decimal_len(a);
    lemma_decimal_len(b);
    if a >= 10 && b >= 10 {
        let da = decimal_of(a);
        let db = decimal_of(b);
        assert(da.drop_last() =~= decimal_of(a / 10));
        assert(db.drop_last() =~= decimal_of(b / 10));
        assert(da.last() == digit_char(a % 10));
        assert(db.last() == digit_char(b % 10));
        lemma_decimal_injective(a / 10, b / 10);
    } else if a < 10 && b < 10 {
        assert(decimal_of(a)[0] == digit_char(a));
        assert(decimal_of(b)[0] == digit_char(b));
    }
}

fn digit_str(d: usize) -> (r: &'static str)
    requires
        d < 10,
    ensures
        r@ == seq![digit_char(d as nat)],
{
    proof {
        reveal_strlit("0"); reveal_strlit("1"); reveal_strlit("2"); reveal_strlit("3");
        reveal_strlit("4"); reveal_strlit("5"); reveal_strlit("6"); reveal_strlit("7");
        reveal_strlit("8"); reveal_strlit("9");
    }
    if d == 0 { "0" } else if d == 1 { "1" } else if d == 2 { "2" } else if d == 3 { "3" }
    else if d == 4 { "4" } else if d == 5 { "5" } else if d == 6 { "6" } else if d == 7 { "7" }
    else if d == 8 { "8" } else { "9" }
}

/// Renders `n` in decimal.
pub fn decimal(n: usize) -> (r: String)
    ensures
        r@ == decimal_of(n as nat),
    decreases n,
{
    if n < 10 {
        String::from_str(digit_str(n))
    } else {
        let mut head = decimal(n / 10);
        head.append(digit_str(n % 10));
        head
    }
}

/// `prefix`, `value` and `suffix` joined in that order.
pub fn framed(prefix: &str, value: &str, suffix: &str) -> (r: String)
    ensures
        r@ == prefix@ + value@ + suffix@,
{
    let mut r = String::from_str(prefix);
    r.append(value);
    r.append(suffix);
    r
}

} // verus!

//! Decimal rendering of run sequence numbers, and the proof that distinct
//! numbers render to distinct text.

use vstd::prelude::*;

verus! {

/// The character for one decimal digit.
pub open spec fn spec_digit_char(d: nat) -> char {
    if d == 0 { '0' }
    else if d == 1 { '1' }
    else if d == 2 { '2' }
    else if d == 3 { '3' }
    else if d == 4 { '4' }
    else if d == 5 { '5' }
    else if d == 6 { '6' }
    else if d == 7 { '7' }
    else if d == 8 { '8' }
    else { '9' }
}

/// Decimal rendering of a natural number, most significant digit first,
/// with no leading zeros.
pub open spec fn spec_decimal(n: nat) -> Seq<char>
    decreases n,
{
    if n < 10 {
        seq![spec_digit_char(n)]
    } else {
        spec_decimal(n / 10) + seq![spec_digit_char(n % 10)]
    }
}

pub proof fn lemma_decimal_len(n: nat)
    ensures
        spec_decimal(n).len() >= 1,
        n >= 10 ==> spec_decimal(n).len() >= 2,
    decreases n,
{
    if n >= 10 {
        lemma_decimal_len(n / 10);
    }
}

pub proof fn lemma_digit_char_injective(d1: nat, d2: nat)
    requires
        d1 < 10,
        d2 < 10,
        d1 != d2,
    ensures
        spec_digit_char(d1) != spec_digit_char(d2),
{
}

/// Distinct numbers have distinct decimal renderings.
pub proof fn lemma_decimal_injective(a: nat, b: nat)
    requires
        a != b,
    ensures
        spec_decimal(a) != spec_decimal(b),
    decreases a + b,
{
    lemma_decimal_len(a);
    lemma_decimal_len(b);
    if a < 10 && b < 10 {
        lemma_digit_char_injective(a, b);
        assert(spec_decimal(a)[0] != spec_decimal(b)[0]);
    } else if a < 10 {
        assert(spec_decimal(a).len() == 1);
        assert(spec_decimal(b).len() >= 2);
    } else if b < 10 {
        assert(spec_decimal(a).len() >= 2);
        assert(spec_decimal(b).len() == 1);
    } else {
        assert(a == 10 * (a / 10) + a % 10) by (nonlinear_arith);
        assert(b == 10 * (b / 10) + b % 10) by (nonlinear_arith);
        let la = spec_decimal(a).len();
        let lb = spec_decimal(b).len();
        if a % 10 != b % 10 {
            lemma_digit_char_injective(a % 10, b % 10);
            assert(spec_decimal(a)[la - 1] == spec_digit_char(a % 10));
            assert(spec_decimal(b)[lb - 1] == spec_digit_char(b % 10));
            if spec_decimal(a) == spec_decimal(b) {
                assert(spec_decimal(a)[la - 1] == spec_decimal(b)[lb - 1]);
                assert(false);
            }
        } else {
            assert(a / 10 != b / 10);
            lemma_decimal_injective(a / 10, b / 10);
            if spec_decimal(a) == spec_decimal(b) {
                assert(la == lb);
                assert(spec_decimal(a / 10).len() == la - 1);
                assert(spec_decimal(b / 10).len() == lb - 1);
                assert forall|i: int| 0 <= i < la - 1 implies #[trigger] spec_decimal(a / 10)[i]
                    == spec_decimal(b / 10)[i] by {
                    assert(spec_decimal(a)[i] == spec_decimal(b)[i]);
                }
                assert(spec_decimal(a / 10) =~= spec_decimal(b / 10));
                assert(false);
            }
        }
    }
}

/// Renders `n` in decimal.
pub fn decimal_string(n: u64) -> (r: String)
    ensures
        r@ == spec_decimal(n as nat),
    decreases n,
{
    let d: u64 = n % 10;
    let digit: &str = if d == 0 { "0" }
        else if d == 1 { "1" }
        else if d == 2 { "2" }
        else if d == 3 { "3" }
        else if d == 4 { "4" }
        else if d == 5 { "5" }
        else if d == 6 { "6" }
        else if d == 7 { "7" }
        else { if d == 8 { "8" } else { "9" } };
    proof {
        reveal_strlit("0");
        reveal_strlit("1");
        reveal_strlit("2");
        reveal_strlit("3");
        reveal_strlit("4");
        reveal_strlit("5");
        reveal_strlit("6");
        reveal_strlit("7");
        reveal_strlit("8");
        reveal_strlit("9");
    }
    if n < 10 {
        digit.to_owned()
    } else {
        let prefix = decimal_string(n / 10);
        prefix.concat(digit)
    }
}

} // verus!

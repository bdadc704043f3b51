use vstd::prelude::*;

use vstd::arithmetic::div_mod::{lemma_fundamental_div_mod, lemma_fundamental_div_mod_converse};
use vstd::arithmetic::power::pow;

verus! {

/// The number that `digits` write in base `b`, most significant digit
/// first.
pub open spec fn digits_value(digits: Seq<u8>, b: int) -> int
    decreases digits.len(),
{
    if digits.len() == 0 {
        0
    } else {
        digits_value(digits.drop_last(), b) * b + digits.last()
    }
}

/// The `len` lowest digits of `n` in base `b`, most significant digit
/// first: the last digit is `n % b`, and each digit to its left is the
/// next digit of `n / b`.
pub open spec fn digits_of(n: int, b: int, len: nat) -> Seq<u8>
    decreases len,
{
    if len == 0 {
        Seq::empty()
    } else {
        digits_of(n / b, b, (len - 1) as nat).push((n % b) as u8)
    }
}

/// Every digit is below `b`.
pub open spec fn digits_below(digits: Seq<u8>, b: int) -> bool {
    forall|j: int| 0 <= j < digits.len() ==> #[trigger] digits[j] < b
}

proof fn lemma_pow_succ(b: int, e: nat)
    ensures
        pow(b, e + 1) == b * pow(b, e),
        pow(b, 0) == 1,
{
    reveal(pow);
}

/// Digits below `b` write a number below `b^len`, and writing that
/// number back gives the same digits.
pub proof fn lemma_value_of_digits(s: Seq<u8>, b: int)
    requires
        1 < b <= 256,
        digits_below(s, b),
    ensures
        0 <= digits_value(s, b) < pow(b, s.len()),
        digits_of(digits_value(s, b), b, s.len()) == s,
    decreases s.len(),
{
    lemma_pow_succ(b, 0);
    if s.len() == 0 {
        assert(digits_of(digits_value(s, b), b, s.len()) =~= s);
    } else {
        let n = (s.len() - 1) as nat;
        let init = s.drop_last();
        assert(digits_below(init, b));
        lemma_value_of_digits(init, b);
        let v0 = digits_value(init, b);
        let p = pow(b, n);
        let v = digits_value(s, b);
        assert(v == v0 * b + s.last());
        lemma_fundamental_div_mod_converse(v, b, v0, s.last() as int);
        assert(v0 * b <= (p - 1) * b) by (nonlinear_arith)
            requires
                v0 <= p - 1,
                b > 0,
        ;
        assert((p - 1) * b == p * b - b) by (nonlinear_arith);
        assert(0 <= v0 * b) by (nonlinear_arith)
            requires
                v0 >= 0,
                b > 0,
        ;
        lemma_pow_succ(b, n);
        assert(s.len() == n + 1);
        assert(digits_of(v, b, s.len()) =~= s);
    }
}

/// A number below `b^len` is the value of its `len` digits, which are
/// all below `b`.
pub proof fn lemma_digits_of_value(n: int, b: int, len: nat)
    requires
        1 < b <= 256,
        0 <= n < pow(b, len),
    ensures
        digits_value(digits_of(n, b, len), b) == n,
        digits_below(digits_of(n, b, len), b),
        digits_of(n, b, len).len() == len,
    decreases len,
{
    lemma_pow_succ(b, 0);
    if len > 0 {
        let k = (len - 1) as nat;
        let q = n / b;
        let r = n % b;
        lemma_fundamental_div_mod(n, b);
        lemma_pow_succ(b, k);
        let p = pow(b, k);
        assert(0 <= q < p) by (nonlinear_arith)
            requires
                n == b * q + r,
                0 <= r < b,
                0 <= n < b * p,
                b > 1,
        ;
        lemma_digits_of_value(q, b, k);
        let d = digits_of(n, b, len);
        assert(d.drop_last() =~= digits_of(q, b, k));
        assert(q * b == b * q) by (nonlinear_arith);
    }
}

/// Raising digit `k` by one, when every digit after it goes from `b - 1`
/// back to 0, adds one to the value.
pub proof fn lemma_step_value(old: Seq<u8>, new: Seq<u8>, k: int, b: int)
    requires
        old.len() == new.len(),
        0 <= k < old.len(),
        new[k] == old[k] + 1,
        forall|j: int| 0 <= j < k ==> #[trigger] new[j] == old[j],
        forall|j: int| k < j < old.len() ==> #[trigger] new[j] == 0,
        forall|j: int| k < j < old.len() ==> #[trigger] old[j] == b - 1,
    ensures
        digits_value(new, b) == digits_value(old, b) + 1,
    decreases old.len(),
{
    let n = old.len() - 1;
    if k == n {
        assert(new.drop_last() =~= old.drop_last());
    } else {
        lemma_step_value(old.drop_last(), new.drop_last(), k, b);
        let x = digits_value(old.drop_last(), b);
        assert((x + 1) * b == x * b + b) by (nonlinear_arith);
        assert(old[n] == b - 1);
        assert(new[n] == 0);
    }
}

/// The digits `b, 0, ..., 0` write `b^len`.
pub proof fn lemma_full_value(s: Seq<u8>, b: int)
    requires
        s.len() >= 1,
        s[0] == b,
        forall|j: int| 0 < j < s.len() ==> #[trigger] s[j] == 0,
    ensures
        digits_value(s, b) == pow(b, s.len()),
    decreases s.len(),
{
    let n = (s.len() - 1) as nat;
    lemma_pow_succ(b, n);
    if s.len() == 1 {
        assert(s.drop_last() =~= Seq::<u8>::empty());
        assert(digits_value(s.drop_last(), b) == 0);
        assert(0 * b == 0);
        assert(s.last() == b);
        assert(b * 1 == b);
    } else {
        lemma_full_value(s.drop_last(), b);
        assert(s.last() == 0);
        assert(pow(b, n) * b == b * pow(b, n)) by (nonlinear_arith);
    }
}

/// Digits that are all 0 write 0.
pub proof fn lemma_zero_value(s: Seq<u8>, b: int)
    requires
        forall|j: int| 0 <= j < s.len() ==> #[trigger] s[j] == 0,
    ensures
        digits_value(s, b) == 0,
    decreases s.len(),
{
    if s.len() > 0 {
        lemma_zero_value(s.drop_last(), b);
        assert(s[s.len() - 1] == 0);
        assert(0 * b == 0);
    }
}

} // verus!

verus! {

/// The state of an odometer of `d.len()` digits in base `b`: every digit
/// after the first is below `b`, and the first is at most `b`, with the
/// others 0 when it is `b` (every number has been counted). Its value is
/// then at most `b^len`, it is `b^len` exactly when the first digit is
/// `b` (or there are no digits), and otherwise the digits are those of
/// the value.
pub proof fn lemma_counter_state(d: Seq<u8>, b: int)
    requires
        1 < b < 256,
        forall|i: int| 0 < i < d.len() ==> #[trigger] d[i] < b,
        d.len() > 0 ==> d[0] <= b,
        d.len() > 0 && d[0] == b ==> forall|i: int| 0 < i < d.len() ==> #[trigger] d[i] == 0,
    ensures
        0 <= digits_value(d, b) <= pow(b, d.len()),
        (d.len() == 0 || d[0] == b) <==> (d.len() == 0 || digits_value(d, b) == pow(b, d.len())),
        !(d.len() == 0 || d[0] == b) ==> digits_of(digits_value(d, b), b, d.len()) == d,
{
    lemma_pow_succ(b, 0);
    if d.len() == 0 {
        assert(digits_value(d, b) == 0);
    } else if d[0] == b {
        lemma_full_value(d, b);
        vstd::arithmetic::power::lemma_pow_positive(b, d.len());
    } else {
        assert(digits_below(d, b));
        lemma_value_of_digits(d, b);
    }
}

} // verus!

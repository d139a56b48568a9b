use vstd::prelude::*;

verus! {

pub open spec fn is_decimal_digit(c: char) -> bool {
    48 <= c as u32 && c as u32 <= 57
}

pub open spec fn decimal_digit_value(c: char) -> nat {
    (c as u32 - 48) as nat
}

pub open spec fn all_decimal_digits(s: Seq<char>) -> bool {
    forall|i: int| 0 <= i < s.len() ==> is_decimal_digit(#[trigger] s[i])
}

/// The number that a string of decimal digits denotes.
pub open spec fn decimal_number(d: Seq<char>) -> nat
    decreases d.len(),
{
    if d.len() == 0 {
        0
    } else {
        decimal_number(d.drop_last()) * 10 + decimal_digit_value(d.last())
    }
}

/// The digits of a number after its optional leading `+`.
pub open spec fn unsigned_digits(s: Seq<char>) -> Seq<char> {
    if s.len() > 0 && s[0] == '+' {
        s.skip(1)
    } else {
        s
    }
}

/// What `u64::from_str` gives, as its documentation describes it: an optional
/// `+` followed by at least one decimal digit, denoting a number that fits.
pub open spec fn parse_u64_spec(s: Seq<char>) -> Option<u64> {
    let d = unsigned_digits(s);
    if d.len() > 0 && all_decimal_digits(d) && decimal_number(d) <= u64::MAX {
        Some(decimal_number(d) as u64)
    } else {
        None
    }
}

/// A longer run of digits never denotes a smaller number.
pub proof fn lemma_decimal_number_grows(d: Seq<char>, k: int)
    requires
        0 <= k <= d.len(),
    ensures
        decimal_number(d.take(k)) <= decimal_number(d),
    decreases d.len() - k,
{
    if k < d.len() {
        lemma_decimal_number_grows(d, k + 1);
        assert(d.take(k + 1).drop_last() =~= d.take(k));
        assert(decimal_number(d.take(k + 1)) == decimal_number(d.take(k)) * 10
            + decimal_digit_value(d[k]));
    } else {
        assert(d.take(k) =~= d);
    }
}

/// Reads an unsigned decimal number, as `u64::from_str` does.
pub fn parse_u64(s: &str) -> (r: Option<u64>)
    ensures
        r == parse_u64_spec(s@),
{
    let n = s.unicode_len();
    let mut start: usize = 0;
    if n > 0 && s.get_char(0) == '+' {
        start = 1;
    }
    let ghost d = unsigned_digits(s@);
    assert(d =~= s@.skip(start as int));
    if start == n {
        return None;
    }
    let mut acc: u64 = 0;
    let mut i: usize = start;
    while i < n
        invariant
            n == s@.len(),
            start <= i <= n,
            d == s@.skip(start as int),
            d == unsigned_digits(s@),
            d.len() > 0,
            all_decimal_digits(d.take(i - start)),
            acc as nat == decimal_number(d.take(i - start)),
        decreases n - i,
    {
        let c = s.get_char(i);
        let ghost k: int = i - start;
        assert(d[k] == c);
        assert(d.take(k + 1).drop_last() =~= d.take(k));
        if !('0' <= c && c <= '9') {
            assert(!all_decimal_digits(d));
            return None;
        }
        let digit: u64 = (c as u32 - 48) as u64;
        assert(decimal_number(d.take(k + 1)) == acc * 10 + digit);
        if acc > (u64::MAX - digit) / 10 {
            proof {
                assert(acc * 10 + digit > u64::MAX) by (nonlinear_arith)
                    requires acc > (u64::MAX - digit) / 10, digit <= 9;
                lemma_decimal_number_grows(d, k + 1);
            }
            return None;
        }
        assert(acc * 10 + digit <= u64::MAX) by (nonlinear_arith)
            requires acc <= (u64::MAX - digit) / 10, digit <= 9;
        acc = acc * 10 + digit;
        i = i + 1;
        assert forall|j: int| 0 <= j < k + 1 implies is_decimal_digit(#[trigger] d.take(k + 1)[j]) by {
            if j < k {
                assert(d.take(k + 1)[j] == d.take(k)[j]);
            }
        }
    }
    assert(d.take(n - start) =~= d);
    Some(acc)
}

} // verus!

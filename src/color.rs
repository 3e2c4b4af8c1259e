//! The highlight color as typed in the configuration screen: a decimal
//! number from 0 to 255.
use vstd::prelude::*;
use vstd::string::*;

verus! {

pub open spec fn is_digit(c: char) -> bool {
    '0' <= c && c <= '9'
}

pub open spec fn all_digits(s: Seq<char>) -> bool {
    forall|i: int| 0 <= i < s.len() ==> #[trigger] is_digit(s[i])
}

/// The number that the decimal digits `s` spell (0 for no digits).
pub open spec fn decimal_value(s: Seq<char>) -> int
    decreases s.len(),
{
    if s.len() == 0 {
        0
    } else {
        decimal_value(s.drop_last()) * 10 + (s.last() as int - '0' as int)
    }
}

/// The color that the text `s` names: an optional `+` followed by at least
/// one decimal digit, with a value of at most 255; `None` for anything else.
pub open spec fn color_value(s: Seq<char>) -> Option<u8> {
    let digits = if s.len() > 0 && s[0] == '+' { s.drop_first() } else { s };
    if digits.len() > 0 && all_digits(digits) && decimal_value(digits) <= 255 {
        Some(decimal_value(digits) as u8)
    } else {
        None
    }
}

pub open spec fn digit_char(d: nat) -> char {
    (d + '0' as nat) as char
}

/// The decimal digits of `n`, without leading zeros.
pub open spec fn decimal_text(n: nat) -> Seq<char>
    decreases n,
{
    if n < 10 {
        seq![digit_char(n)]
    } else {
        decimal_text(n / 10).push(digit_char(n % 10))
    }
}

proof fn lemma_decimal_value_nonneg(s: Seq<char>)
    requires
        all_digits(s),
    ensures
        decimal_value(s) >= 0,
    decreases s.len(),
{
    if s.len() > 0 {
        assert(is_digit(s[s.len() - 1]));
        assert(all_digits(s.drop_last())) by {
            assert forall|i: int| 0 <= i < s.drop_last().len() implies is_digit(s.drop_last()[i]) by {
                assert(is_digit(s[i]));
            }
        }
        lemma_decimal_value_nonneg(s.drop_last());
    }
}

/// A prefix of a run of digits spells a number no larger than the whole run.
proof fn lemma_decimal_prefix_le(s: Seq<char>, k: int)
    requires
        all_digits(s),
        0 <= k <= s.len(),
    ensures
        decimal_value(s.take(k)) <= decimal_value(s),
    decreases s.len(),
{
    if k < s.len() {
        let t = s.drop_last();
        assert(is_digit(s[s.len() - 1]));
        assert(all_digits(t)) by {
            assert forall|i: int| 0 <= i < t.len() implies is_digit(t[i]) by {
                assert(is_digit(s[i]));
            }
        }
        lemma_decimal_prefix_le(t, k);
        assert(t.take(k) =~= s.take(k));
        lemma_decimal_value_nonneg(t);
    } else {
        assert(s.take(k) =~= s);
    }
}

/// Reads the highlight color typed into the configuration screen.
pub fn parse_color(s: &String) -> (r: Option<u8>)
    ensures
        r == color_value(s@),
{
    let n = s.as_str().unicode_len();
    let mut start: usize = 0;
    if n > 0 && s.as_str().get_char(0) == '+' {
        start = 1;
    }
    let ghost digits = if s@.len() > 0 && s@[0] == '+' { s@.drop_first() } else { s@ };
    if start >= n {
        return None;
    }
    let mut value: u32 = 0;
    let mut k: usize = start;
    while k < n
        invariant
            n == s@.len(),
            digits == (if s@.len() > 0 && s@[0] == '+' { s@.drop_first() } else { s@ }),
            start <= k <= n,
            digits =~= s@.subrange(start as int, n as int),
            all_digits(digits.take(k - start)),
            value as int == decimal_value(digits.take(k - start)),
            value <= 255,
        decreases n - k,
    {
        let c = s.as_str().get_char(k);
        if c < '0' || c > '9' {
            assert(!is_digit(digits[k - start]));
            assert(!all_digits(digits));
            return None;
        }
        let ghost before = digits.take(k - start);
        let ghost after = digits.take(k - start + 1);
        assert(after.drop_last() =~= before);
        assert(after.last() == c);
        let d = (c as u32) - ('0' as u32);
        value = value * 10 + d;
        k = k + 1;
        assert(all_digits(after)) by {
            assert forall|i: int| 0 <= i < after.len() implies is_digit(after[i]) by {
                if i < before.len() {
                    assert(after[i] == before[i]);
                }
            }
        }
        if value > 255 {
            proof {
                assert(value as int == decimal_value(after));
                if all_digits(digits) {
                    lemma_decimal_prefix_le(digits, k - start);
                }
            }
            return None;
        }
    }
    assert(digits.take(k - start) =~= digits);
    Some(value as u8)
}

proof fn lemma_decimal_round_trip(n: nat)
    ensures
        decimal_text(n).len() > 0,
        all_digits(decimal_text(n)),
        decimal_value(decimal_text(n)) == n,
    decreases n,
{
    if n >= 10 {
        lemma_decimal_round_trip(n / 10);
        let t = decimal_text(n);
        assert(t.drop_last() =~= decimal_text(n / 10));
        assert(n == (n / 10) * 10 + n % 10) by (nonlinear_arith);
        assert(t.last() as int == n % 10 + 48);
        assert(decimal_value(t.drop_last()) == n / 10);
        assert(decimal_value(t) == decimal_value(t.drop_last()) * 10 + (t.last() as int - '0' as int));
        assert(all_digits(t)) by {
            assert forall|i: int| 0 <= i < t.len() implies is_digit(t[i]) by {
                if i < t.len() - 1 {
                    assert(t[i] == decimal_text(n / 10)[i]);
                }
            }
        }
    } else {
        let t = decimal_text(n);
        assert(t.drop_last() =~= Seq::<char>::empty());
        assert(decimal_value(t.drop_last()) == 0);
        assert(t.last() as int == n + 48);
    }
}

/// The text shown for a highlight color in the configuration screen.
pub fn color_text(n: u8) -> (r: String)
    ensures
        r@ == decimal_text(n as nat),
{
    let mut r = String::new();
    if n >= 100 {
        crate::buffer::push_char(&mut r, ((n / 100) + 48) as char);
    }
    if n >= 10 {
        crate::buffer::push_char(&mut r, ((n / 10 % 10) + 48) as char);
    }
    crate::buffer::push_char(&mut r, ((n % 10) + 48) as char);
    proof {
        let m = n as nat;
        if m >= 100 {
            assert(decimal_text(m / 100) =~= seq![digit_char(m / 100)]);
            assert(decimal_text(m / 10) =~= seq![digit_char(m / 100), digit_char(m / 10 % 10)]);
        } else if m >= 10 {
            assert(decimal_text(m / 10) =~= seq![digit_char(m / 10)]);
        }
    }
    r
}

/// Every color's text reads back as that color.
pub proof fn lemma_color_text_reads_back(n: u8)
    ensures
        color_value(decimal_text(n as nat)) == Some(n),
{
    lemma_decimal_round_trip(n as nat);
    assert(is_digit(decimal_text(n as nat)[0]));
}

} // verus!

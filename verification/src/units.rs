//! Amounts written as decimal numerals of the whole unit, and their exact
//! value in the smallest unit.

use vstd::prelude::*;
use vstd::std_specs::iter::IteratorSpec;
use vstd::string::StrSliceExecFns;
use crate::amount::{wei_limit, Wei};
use crate::decimal::{
    decimal_text, digit_char, digit_value, is_dec_digit, lemma_pow10_adds, lemma_pow10_grows,
    pow10, units_text, zero_padded,
};
use crate::error::TransferError;
use ethers::types::U256;
use ethers::utils::parse_ether;

verus! {

broadcast use vstd::string::group_string_axioms;

/// Decimals of the whole unit: one unit is `10^18` of the smallest.
pub const ETHER_DECIMALS: u32 = 18;

/// The most digits that an amount may have before its fractional digits.
/// A numeral within this limit is below `10^77` in the smallest unit, and so
/// fits in 256 bits.
pub const MAX_WHOLE_DIGITS: usize = 59;

/// `c` may stand in an amount: a decimal digit, the point, or the digit
/// separator `_`.
pub open spec fn is_numeral_char(c: char) -> bool {
    is_dec_digit(c) || c == '.' || c == '_'
}

/// Every character of `s` may stand in an amount.
pub open spec fn all_numeral_chars(s: Seq<char>) -> bool {
    forall|i: int| 0 <= i < s.len() ==> is_numeral_char(#[trigger] s[i])
}

/// The number of points in `s`.
pub open spec fn count_dots(s: Seq<char>) -> nat
    decreases s.len(),
{
    if s.len() == 0 {
        0
    } else {
        count_dots(s.drop_last()) + if s.last() == '.' {
            1nat
        } else {
            0nat
        }
    }
}

/// The number of decimal digits in `s`.
pub open spec fn count_digits(s: Seq<char>) -> nat
    decreases s.len(),
{
    if s.len() == 0 {
        0
    } else {
        count_digits(s.drop_last()) + if is_dec_digit(s.last()) {
            1nat
        } else {
            0nat
        }
    }
}

/// The number of decimal digits of `s` that stand behind a point.
pub open spec fn fraction_digits(s: Seq<char>) -> nat
    decreases s.len(),
{
    if s.len() == 0 {
        0
    } else {
        fraction_digits(s.drop_last()) + if count_dots(s.drop_last()) > 0 && is_dec_digit(
            s.last(),
        ) {
            1nat
        } else {
            0nat
        }
    }
}

/// The number that the decimal digits of `s` spell when read in order, the
/// other characters passed over.
pub open spec fn numeral_value(s: Seq<char>) -> nat
    decreases s.len(),
{
    if s.len() == 0 {
        0
    } else if is_dec_digit(s.last()) {
        10 * numeral_value(s.drop_last()) + digit_value(s.last())
    } else {
        numeral_value(s.drop_last())
    }
}

/// `s` is an amount of the whole unit: decimal digits, at least one, with
/// at most one point and any number of separators `_`; at most 18 digits
/// behind the point and at most 59 before them.
pub open spec fn is_amount_text(s: Seq<char>) -> bool {
    &&& all_numeral_chars(s)
    &&& count_dots(s) <= 1
    &&& count_digits(s) >= 1
    &&& fraction_digits(s) <= ETHER_DECIMALS
    &&& count_digits(s) - fraction_digits(s) <= MAX_WHOLE_DIGITS
}

/// The value of an amount in the smallest unit: its digits' number, scaled
/// by the decimals that its fraction leaves unused.
pub open spec fn amount_value(s: Seq<char>) -> nat {
    numeral_value(s) * pow10((ETHER_DECIMALS - fraction_digits(s)) as nat)
}

/// Ten to the power 77 is below two to the power 256.
pub proof fn lemma_pow10_77_fits()
    ensures
        pow10(77) < wei_limit(),
{
    assert(pow10(11) == 100_000_000_000) by {
        reveal_with_fuel(pow10, 12);
    }
    lemma_pow10_adds(11, 11);
    lemma_pow10_adds(22, 11);
    lemma_pow10_adds(33, 11);
    lemma_pow10_adds(44, 11);
    lemma_pow10_adds(55, 11);
    lemma_pow10_adds(66, 11);
}

/// The digits of a text spell a number below ten to the power of their
/// count, and no more of them stand behind a point than there are.
pub proof fn lemma_numeral_bounds(s: Seq<char>)
    ensures
        numeral_value(s) < pow10(count_digits(s)),
        fraction_digits(s) <= count_digits(s) <= s.len(),
        count_dots(s) <= s.len(),
    decreases s.len(),
{
    if s.len() > 0 {
        lemma_numeral_bounds(s.drop_last());
    }
}

/// An amount within the limits of `is_amount_text` is below `2^256`.
pub proof fn lemma_amount_fits(s: Seq<char>)
    requires
        fraction_digits(s) <= ETHER_DECIMALS,
        count_digits(s) - fraction_digits(s) <= MAX_WHOLE_DIGITS,
    ensures
        amount_value(s) < wei_limit(),
{
    lemma_numeral_bounds(s);
    let unused = (ETHER_DECIMALS - fraction_digits(s)) as nat;
    let digits = count_digits(s);
    lemma_pow10_adds(digits, unused);
    lemma_pow10_grows(digits + unused, 77);
    lemma_pow10_grows(0, unused);
    lemma_pow10_77_fits();
    assert(numeral_value(s) * pow10(unused) < pow10(digits) * pow10(unused)) by (nonlinear_arith)
        requires
            numeral_value(s) < pow10(digits),
            0 < pow10(unused),
    ;
}

/// Nothing is rounded: the value of an amount, scaled by its fractional
/// digits, is its digits' number scaled by the decimals of the unit.
pub proof fn lemma_amount_is_exact(s: Seq<char>)
    requires
        fraction_digits(s) <= ETHER_DECIMALS,
    ensures
        amount_value(s) * pow10(fraction_digits(s)) == numeral_value(s) * pow10(
            ETHER_DECIMALS as nat,
        ),
{
    let f = fraction_digits(s);
    let unused = (ETHER_DECIMALS - f) as nat;
    lemma_pow10_adds(unused, f);
    assert(unused + f == ETHER_DECIMALS as nat);
    assert(numeral_value(s) * pow10(unused) * pow10(f) == numeral_value(s) * (pow10(unused)
        * pow10(f))) by (nonlinear_arith);
}

/// Every character of `s` is a decimal digit.
pub open spec fn all_digits(s: Seq<char>) -> bool {
    forall|i: int| 0 <= i < s.len() ==> is_dec_digit(#[trigger] s[i])
}

/// How the counts and the number of a text are made of those of its parts.
pub proof fn lemma_numeral_concat(a: Seq<char>, b: Seq<char>)
    ensures
        count_dots(a + b) == count_dots(a) + count_dots(b),
        count_digits(a + b) == count_digits(a) + count_digits(b),
        numeral_value(a + b) == numeral_value(a) * pow10(count_digits(b)) + numeral_value(b),
        fraction_digits(a + b) == fraction_digits(a) + (if count_dots(a) > 0 {
            count_digits(b)
        } else {
            fraction_digits(b)
        }),
    decreases b.len(),
{
    if b.len() == 0 {
        assert(a + b == a);
        assert(pow10(0) == 1);
        assert(numeral_value(a) * 1 == numeral_value(a)) by (nonlinear_arith);
    } else {
        let head = b.drop_last();
        lemma_numeral_concat(a, head);
        assert((a + b).drop_last() == a + head);
        assert((a + b).last() == b.last());
        if is_dec_digit(b.last()) {
            assert(pow10(count_digits(b)) == 10 * pow10(count_digits(head)));
            assert(10 * (numeral_value(a) * pow10(count_digits(head)) + numeral_value(head))
                == numeral_value(a) * (10 * pow10(count_digits(head))) + 10 * numeral_value(head))
                by (nonlinear_arith);
        }
    }
}

/// A text of digits alone has no point and no fractional digit, and all
/// its characters count as digits.
pub proof fn lemma_digits_only(s: Seq<char>)
    requires
        all_digits(s),
    ensures
        all_numeral_chars(s),
        count_dots(s) == 0,
        count_digits(s) == s.len(),
        fraction_digits(s) == 0,
    decreases s.len(),
{
    if s.len() > 0 {
        assert(is_dec_digit(s.last()));
        lemma_digits_only(s.drop_last());
    }
}

/// The decimal numeral of `n` is made of digits that spell `n`, and is no
/// longer than the exponent of a power of ten above `n`.
pub proof fn lemma_decimal_text(n: nat, k: nat)
    requires
        k >= 1,
        n < pow10(k),
    ensures
        all_digits(decimal_text(n)),
        1 <= decimal_text(n).len() <= k,
        numeral_value(decimal_text(n)) == n,
    decreases n,
{
    let text = decimal_text(n);
    if n < 10 {
        assert(text.drop_last() =~= Seq::<char>::empty());
        assert(is_dec_digit(text.last()));
        assert(numeral_value(text.drop_last()) == 0);
    } else {
        if k == 1 {
            assert(pow10(1) == 10) by {
                reveal_with_fuel(pow10, 2);
            }
        }
        lemma_decimal_text(n / 10, (k - 1) as nat);
        assert(text.drop_last() =~= decimal_text(n / 10));
        assert(text.last() == digit_char(n % 10));
        assert(is_dec_digit(text.last()));
        assert(digit_value(text.last()) == n % 10);
        assert forall|i: int| 0 <= i < text.len() implies is_dec_digit(#[trigger] text[i]) by {
            if i < text.len() - 1 {
                assert(text[i] == decimal_text(n / 10)[i]);
            }
        }
    }
}

/// A numeral put behind zeros up to a width spells the same number, in
/// digits alone, and is exactly that wide if it was no wider.
pub proof fn lemma_zero_padded(s: Seq<char>, width: nat)
    requires
        all_digits(s),
        s.len() <= width,
    ensures
        all_digits(zero_padded(s, width)),
        zero_padded(s, width).len() == width,
        numeral_value(zero_padded(s, width)) == numeral_value(s),
{
    if s.len() < width {
        let zeros = Seq::new((width - s.len()) as nat, |i: int| '0');
        lemma_zeros_spell_zero(zeros);
        lemma_numeral_concat(zeros, s);
        assert(0 * pow10(count_digits(s)) == 0) by (nonlinear_arith);
    }
}

/// Zeros alone spell zero.
pub proof fn lemma_zeros_spell_zero(zeros: Seq<char>)
    requires
        forall|i: int| 0 <= i < zeros.len() ==> zeros[i] == '0',
    ensures
        numeral_value(zeros) == 0,
    decreases zeros.len(),
{
    if zeros.len() > 0 {
        lemma_zeros_spell_zero(zeros.drop_last());
        assert(zeros.last() == '0');
    }
}

/// Conversion can be undone: a quantity below `10^77`, written in the whole
/// unit with all 18 decimals, is an amount, and its value is that quantity.
pub proof fn lemma_amount_round_trip(n: nat)
    requires
        n < pow10(77),
    ensures
        is_amount_text(units_text(n, ETHER_DECIMALS as nat)),
        amount_value(units_text(n, ETHER_DECIMALS as nat)) == n,
{
    let unit = pow10(18);
    lemma_pow10_grows(0, 18);
    lemma_pow10_adds(59, 18);
    let whole = n / unit;
    let rest = n % unit;
    assert(whole < pow10(59)) by (nonlinear_arith)
        requires
            n < pow10(59) * unit,
            unit > 0,
            whole == n / unit,
    ;
    assert(n == whole * unit + rest) by (nonlinear_arith)
        requires
            unit > 0,
            whole == n / unit,
            rest == n % unit,
    ;
    assert(rest < unit) by (nonlinear_arith)
        requires
            unit > 0,
            rest == n % unit,
    ;
    let a = decimal_text(whole);
    let point = seq!['.'];
    let d = decimal_text(rest);
    let z = zero_padded(d, 18);
    lemma_decimal_text(whole, 59);
    lemma_decimal_text(rest, 18);
    lemma_zero_padded(d, 18);
    lemma_digits_only(a);
    lemma_digits_only(z);
    assert(point.drop_last() =~= Seq::<char>::empty());
    assert(count_dots(point) == 1 && count_digits(point) == 0 && numeral_value(point) == 0
        && fraction_digits(point) == 0) by {
        assert(point.last() == '.');
        assert(count_dots(point.drop_last()) == 0);
        assert(count_digits(point.drop_last()) == 0);
        assert(numeral_value(point.drop_last()) == 0);
        assert(fraction_digits(point.drop_last()) == 0);
    }
    lemma_numeral_concat(a, point);
    lemma_numeral_concat(a + point, z);
    let text = units_text(n, ETHER_DECIMALS as nat);
    assert(text == (a + point) + z);
    assert(pow10(0) == 1);
    assert(numeral_value(a + point) == whole) by (nonlinear_arith)
        requires
            numeral_value(a + point) == whole * 1 + 0,
    ;
    assert(numeral_value(text) == n);
    assert(fraction_digits(text) == 18);
    assert(amount_value(text) == n) by (nonlinear_arith)
        requires
            amount_value(text) == n * 1,
    ;
    assert forall|i: int| 0 <= i < text.len() implies is_numeral_char(#[trigger] text[i]) by {
        if i < a.len() {
            assert(text[i] == a[i]);
        } else if i == a.len() {
            assert(text[i] == '.');
        } else {
            assert(text[i] == z[i - a.len() - 1]);
        }
    }
}

/// `parse_ether` of `ethers`, on digits, separators and at most one point,
/// with at most 18 digits behind the point and a value below `2^256`. The
/// contract claims that it then succeeds with the digits' number scaled to
/// the smallest unit. (Outside these inputs the function truncates, wraps a
/// negative amount, or panics on overflow.)
#[verifier::external_body]
fn ether_to_wei(text: &str) -> (r: Option<Wei>)
    requires
        all_numeral_chars(text@),
        count_dots(text@) <= 1,
        fraction_digits(text@) <= ETHER_DECIMALS,
        amount_value(text@) < wei_limit(),
    ensures
        r is Some,
        r.unwrap()@ == amount_value(text@),
{
    parse_ether(text).ok().map(|v: U256| Wei { limbs: v.0 })
}

/// Converts an amount of the whole unit to the smallest unit, exactly:
/// a text that is no amount, or that has more than 18 fractional digits, is
/// refused and never rounded.
pub fn parse_amount(text: &str) -> (r: Result<Wei, TransferError>)
    ensures
        is_amount_text(text@) ==> (r matches Ok(value) && value@ == amount_value(text@)),
        !is_amount_text(text@) ==> (r matches Err(TransferError::AmountParseError { input })
            && input@ == text@),
        fraction_digits(text@) > ETHER_DECIMALS ==> r is Err,
{
    let total: usize = text.unicode_len();
    let mut chars = text.chars();
    let mut dots: usize = 0;
    let mut digits: usize = 0;
    let mut fraction: usize = 0;
    let ghost mut seen: Seq<char> = Seq::empty();
    loop
        invariant
            seen + chars.remaining() == text@,
            total == text@.len(),
            all_numeral_chars(seen),
            dots == count_dots(seen),
            digits == count_digits(seen),
            fraction == fraction_digits(seen),
            chars.obeys_prophetic_iter_laws(),
            chars.decrease() is Some,
        ensures
            seen == text@,
            all_numeral_chars(seen),
            dots == count_dots(seen),
            digits == count_digits(seen),
            fraction == fraction_digits(seen),
        decreases chars.decrease()->0,
    {
        proof {
            lemma_numeral_bounds(seen);
        }
        match chars.next() {
            Some(c) => {
                assert(text@[seen.len() as int] == c);
                let is_digit: bool = c >= '0' && c <= '9';
                if !(is_digit || c == '.' || c == '_') {
                    return Err(TransferError::AmountParseError { input: text.to_owned() });
                }
                proof {
                    let next = seen.push(c);
                    assert(next.drop_last() == seen);
                    assert(next + chars.remaining() == text@);
                    seen = next;
                }
                if is_digit {
                    digits = digits + 1;
                    if dots > 0 {
                        fraction = fraction + 1;
                    }
                }
                if c == '.' {
                    dots = dots + 1;
                }
            },
            None => {
                assert(seen == text@);
                break ;
            },
        }
    }
    proof {
        lemma_numeral_bounds(text@);
    }
    if dots > 1 || digits < 1 || fraction > 18 || digits - fraction > MAX_WHOLE_DIGITS {
        return Err(TransferError::AmountParseError { input: text.to_owned() });
    }
    proof {
        lemma_amount_fits(text@);
    }
    match ether_to_wei(text) {
        Some(value) => Ok(value),
        None => Err(TransferError::AmountParseError { input: text.to_owned() }),
    }
}

} // verus!

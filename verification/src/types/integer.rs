//! An integer held in the narrowest width that fits it, and decimal text.
use vstd::prelude::*;
use vstd::string::StrSliceExecFns;

use crate::utils::text::concat;

verus! {

/// An integer of one of four widths.
#[derive(Debug, PartialEq, Eq, Structural, Clone, Copy)]
pub enum Integer {
    Int8(i8),
    Int(i32),
    Int64(i64),
    Int128(i128),
}

/// Whether a character is an ASCII digit.
pub open spec fn is_digit(c: char) -> bool {
    '0' <= c && c <= '9'
}

/// The value of a digit character.
pub open spec fn digit_value(c: char) -> int {
    (c as int) - ('0' as int)
}

/// The number that a string of digits writes in decimal; the empty string writes zero.
pub open spec fn digits_value(s: Seq<char>) -> int
    decreases s.len(),
{
    if s.len() == 0 {
        0
    } else {
        10 * digits_value(s.drop_last()) + digit_value(s.last())
    }
}

/// The number of leading digit characters.
pub open spec fn leading_digits(s: Seq<char>) -> int
    decreases s.len(),
{
    if s.len() == 0 {
        0
    } else if !is_digit(s[0]) {
        0
    } else {
        1 + leading_digits(s.drop_first())
    }
}

/// Whether every character is a digit.
pub open spec fn all_digits(s: Seq<char>) -> bool {
    forall|i: int| 0 <= i < s.len() ==> #[trigger] is_digit(s[i])
}

/// The result of parsing a string of digits.
pub open spec fn spec_parse_large_integer(s: Seq<char>) -> Result<int, Seq<char>> {
    if all_digits(s) {
        Ok(digits_value(s))
    } else {
        Err("Invalid character in number string"@)
    }
}

proof fn lemma_leading_digits(s: Seq<char>)
    ensures
        0 <= leading_digits(s) <= s.len(),
        forall|i: int| 0 <= i < leading_digits(s) ==> is_digit(#[trigger] s[i]),
        leading_digits(s) < s.len() ==> !is_digit(s[leading_digits(s)]),
    decreases s.len(),
{
    if s.len() > 0 && is_digit(s[0]) {
        lemma_leading_digits(s.drop_first());
        assert forall|i: int| 0 <= i < leading_digits(s) implies is_digit(#[trigger] s[i]) by {
            if i > 0 {
                assert(s[i] == s.drop_first()[i - 1]);
            }
        }
    }
}

proof fn lemma_digits_value_nonneg(s: Seq<char>)
    requires
        all_digits(s),
    ensures
        digits_value(s) >= 0,
    decreases s.len(),
{
    if s.len() > 0 {
        assert(is_digit(s[s.len() - 1]));
        lemma_digits_value_nonneg(s.drop_last());
    }
}

/// A longer run of digits writes a number at least as large.
proof fn lemma_digits_value_mono(s: Seq<char>, k: int, m: int)
    requires
        0 <= k <= m <= s.len(),
        all_digits(s.take(m)),
    ensures
        digits_value(s.take(k)) <= digits_value(s.take(m)),
    decreases m - k,
{
    if k < m {
        assert(s.take(m).drop_last() =~= s.take(m - 1));
        assert(is_digit(s.take(m)[m - 1]));
        assert(all_digits(s.take(m - 1))) by {
            assert forall|i: int| 0 <= i < m - 1 implies #[trigger] is_digit(s.take(m - 1)[i]) by {
                assert(s.take(m - 1)[i] == s.take(m)[i]);
            }
        }
        lemma_digits_value_nonneg(s.take(m - 1));
        lemma_digits_value_mono(s, k, m - 1);
    }
}

/// Checked addition of two `i128`, which must not overflow.
pub fn checked_add(a: i128, b: i128) -> (r: i128)
    requires
        i128::MIN <= a + b <= i128::MAX,
    ensures
        r == a + b,
{
    a + b
}

/// Checked multiplication of two `i128`, which must not overflow.
pub fn checked_mul(a: i128, b: i128) -> (r: i128)
    requires
        i128::MIN <= a * b <= i128::MAX,
    ensures
        r == a * b,
{
    a * b
}

/// Parses a string of decimal digits into an `i128`. A character that is not a digit is
/// an error. The digits before the first other character must write a number that fits.
pub fn parse_large_integer(num_str: &str) -> (r: Result<i128, &'static str>)
    requires
        digits_value(num_str@.take(leading_digits(num_str@))) <= i128::MAX,
    ensures
        r matches Ok(v) ==> spec_parse_large_integer(num_str@) == Ok::<int, Seq<char>>(v as int),
        r matches Err(e) ==> spec_parse_large_integer(num_str@) == Err::<int, Seq<char>>(e@),
{
    proof {
        lemma_leading_digits(num_str@);
    }
    let ghost s = num_str@;
    let ghost lead = leading_digits(s);
    let n = num_str.unicode_len();
    let mut result: i128 = 0;
    let mut i: usize = 0;
    assert(s.take(0) =~= Seq::<char>::empty());
    while i < n
        invariant
            n == s.len(),
            s == num_str@,
            lead == leading_digits(s),
            0 <= lead <= s.len(),
            forall|j: int| 0 <= j < lead ==> is_digit(#[trigger] s[j]),
            lead < s.len() ==> !is_digit(s[lead]),
            digits_value(s.take(lead)) <= i128::MAX,
            i <= n,
            i <= lead,
            all_digits(s.take(i as int)),
            result == digits_value(s.take(i as int)),
        decreases n - i,
    {
        let ch = num_str.get_char(i);
        let digit: i128 = (ch as u32) as i128 - ('0' as u32) as i128;
        if digit < 0 || digit > 9 {
            proof {
                assert(!is_digit(s[i as int]));
                assert(!all_digits(s));
            }
            return Err("Invalid character in number string");
        }
        proof {
            assert(is_digit(s[i as int]));
            assert(s.take(i + 1).drop_last() =~= s.take(i as int));
            assert(all_digits(s.take(i + 1))) by {
                assert forall|j: int| 0 <= j < i + 1 implies #[trigger] is_digit(s.take(i + 1)[j]) by {
                    assert(s.take(i + 1)[j] == s[j]);
                }
            }
            if i < lead {
                assert(all_digits(s.take(lead))) by {
                    assert forall|j: int| 0 <= j < lead implies #[trigger] is_digit(s.take(lead)[j]) by {
                        assert(s.take(lead)[j] == s[j]);
                    }
                }
                lemma_digits_value_mono(s, i + 1, lead);
            } else {
                assert(is_digit(s[lead]));
            }
            lemma_digits_value_nonneg(s.take(i as int));
        }
        result = checked_mul(result, 10);
        result = checked_add(result, digit);
        i = i + 1;
    }
    proof {
        assert(s.take(n as int) =~= s);
    }
    Ok(result)
}

/// The value of a decimal digit as a character.
pub open spec fn digit_char(d: int) -> char {
    (('0' as int) + d) as char
}

/// The decimal text of a natural number, without leading zeros.
pub open spec fn nat_text(n: nat) -> Seq<char>
    decreases n,
{
    if n < 10 {
        seq![digit_char(n as int)]
    } else {
        nat_text(n / 10).push(digit_char((n % 10) as int))
    }
}

/// The decimal text of an integer: a minus sign before a negative one.
pub open spec fn decimal_text(n: int) -> Seq<char> {
    if n < 0 {
        seq!['-'] + nat_text((-n) as nat)
    } else {
        nat_text(n as nat)
    }
}

fn digit_str(d: u128) -> (r: &'static str)
    requires
        d < 10,
    ensures
        r@ == seq![digit_char(d as int)],
{
    proof {
        reveal_strlit("0");
        reveal_strlit("1");
        reveal_strlit("2");
        reveal_strlit("3");
        reveal_strlit("4");
        reveal_strlit("5");
        reveal_strlit("6");
        reveal_strlit("7");
        reveal_strlit("8");
        reveal_strlit("9");
    }
    if d == 0 {
        "0"
    } else if d == 1 {
        "1"
    } else if d == 2 {
        "2"
    } else if d == 3 {
        "3"
    } else if d == 4 {
        "4"
    } else if d == 5 {
        "5"
    } else if d == 6 {
        "6"
    } else if d == 7 {
        "7"
    } else if d == 8 {
        "8"
    } else {
        "9"
    }
}

/// The decimal text of a natural number.
fn format_nat(n: u128) -> (r: String)
    ensures
        r@ == nat_text(n as nat),
{
    let mut m: u128 = n;
    let mut acc = String::new();
    while m >= 10
        invariant
            nat_text(n as nat) == nat_text(m as nat) + acc@,
        decreases m,
    {
        let d = m % 10;
        let ds = digit_str(d);
        let ghost before = acc@;
        acc = concat(ds, acc.as_str());
        proof {
            assert(nat_text(m as nat) == nat_text((m / 10) as nat).push(digit_char((m % 10) as int)));
            assert(nat_text((m / 10) as nat).push(digit_char((m % 10) as int)) + before
                =~= nat_text((m / 10) as nat) + (seq![digit_char((m % 10) as int)] + before));
        }
        m = m / 10;
    }
    let ds = digit_str(m);
    let r = concat(ds, acc.as_str());
    r
}

/// The decimal text of an `i128`, with a minus sign when it is negative.
pub fn format_decimal(n: i128) -> (r: String)
    ensures
        r@ == decimal_text(n as int),
{
    if n < 0 {
        let m: u128 = ((-(n + 1)) as u128) + 1;
        assert(m == -n);
        let digits = format_nat(m);
        proof {
            reveal_strlit("-");
        }
        concat("-", digits.as_str())
    } else {
        format_nat(n as u128)
    }
}

proof fn lemma_digit_char(d: int)
    requires
        0 <= d < 10,
    ensures
        digit_value(digit_char(d)) == d,
        is_digit(digit_char(d)),
{
}

proof fn lemma_nat_text_digits(n: nat)
    ensures
        all_digits(nat_text(n)),
        digits_value(nat_text(n)) == n,
    decreases n,
{
    if n < 10 {
        lemma_digit_char(n as int);
        assert(nat_text(n).drop_last() =~= Seq::<char>::empty());
        assert(digits_value(Seq::<char>::empty()) == 0);
        assert(digits_value(nat_text(n)) == 10 * digits_value(nat_text(n).drop_last())
            + digit_value(nat_text(n).last()));
    } else {
        lemma_digit_char((n % 10) as int);
        lemma_nat_text_digits(n / 10);
        assert(10 * (n / 10) + n % 10 == n);
        let t = nat_text(n);
        assert(t.drop_last() =~= nat_text(n / 10));
        assert(t.last() == digit_char((n % 10) as int));
        assert(digits_value(t) == 10 * digits_value(t.drop_last()) + digit_value(t.last()));
        assert forall|i: int| 0 <= i < t.len() implies #[trigger] is_digit(t[i]) by {
            if i < t.len() - 1 {
                assert(t[i] == nat_text(n / 10)[i]);
            }
        }
    }
}

/// Parsing the decimal text of a non-negative number gives the number back.
pub proof fn law_parse_format_roundtrip(n: i128)
    requires
        n >= 0,
    ensures
        spec_parse_large_integer(decimal_text(n as int)) == Ok::<int, Seq<char>>(n as int),
{
    lemma_nat_text_digits(n as nat);
}

impl Integer {
    /// The number held, whatever its width.
    pub open spec fn value(self) -> int {
        match self {
            Integer::Int8(a) => a as int,
            Integer::Int(a) => a as int,
            Integer::Int64(a) => a as int,
            Integer::Int128(a) => a as int,
        }
    }

    /// Whether two integers have the same width.
    pub open spec fn same_width(self, other: Integer) -> bool {
        match (self, other) {
            (Integer::Int8(_), Integer::Int8(_)) => true,
            (Integer::Int(_), Integer::Int(_)) => true,
            (Integer::Int64(_), Integer::Int64(_)) => true,
            (Integer::Int128(_), Integer::Int128(_)) => true,
            _ => false,
        }
    }

    /// The bounds of a width.
    pub open spec fn fits_width_of(self, v: int) -> bool {
        match self {
            Integer::Int8(_) => i8::MIN <= v <= i8::MAX,
            Integer::Int(_) => i32::MIN <= v <= i32::MAX,
            Integer::Int64(_) => i64::MIN <= v <= i64::MAX,
            Integer::Int128(_) => i128::MIN <= v <= i128::MAX,
        }
    }

    /// A number held in the narrowest width that fits it.
    pub open spec fn spec_demote(v: int) -> Integer {
        if i8::MIN <= v <= i8::MAX {
            Integer::Int8(v as i8)
        } else if i32::MIN <= v <= i32::MAX {
            Integer::Int(v as i32)
        } else if i64::MIN <= v <= i64::MAX {
            Integer::Int64(v as i64)
        } else {
            Integer::Int128(v as i128)
        }
    }

    /// The same integer, and its value widened to `i128`.
    pub fn promote(self) -> (r: (Integer, i128))
        ensures
            r.0 == self,
            r.1 == self.value(),
    {
        match self {
            Integer::Int8(a) => (Integer::Int8(a), a as i128),
            Integer::Int(a) => (Integer::Int(a), a as i128),
            Integer::Int64(a) => (Integer::Int64(a), a as i128),
            Integer::Int128(a) => (Integer::Int128(a), a),
        }
    }

    /// The value held in the narrowest width that fits it.
    pub fn demote(val: i128) -> (r: Integer)
        ensures
            r == Integer::spec_demote(val as int),
    {
        if -128 <= val && val <= 127 {
            Integer::Int8(val as i8)
        } else if -2147483648 <= val && val <= 2147483647 {
            Integer::Int(val as i32)
        } else if -9223372036854775808 <= val && val <= 9223372036854775807 {
            Integer::Int64(val as i64)
        } else {
            Integer::Int128(val)
        }
    }

    /// Checked addition of two `i128`, which must not overflow.
    pub fn checked_add(a: i128, b: i128) -> (r: i128)
        requires
            i128::MIN <= a + b <= i128::MAX,
        ensures
            r == a + b,
    {
        a + b
    }

    /// The sum, held in the narrowest width that fits it. The sum must fit in `i128`.
    pub fn add(self, other: Integer) -> (r: Integer)
        requires
            i128::MIN <= self.value() + other.value() <= i128::MAX,
        ensures
            r == Integer::spec_demote(self.value() + other.value()),
    {
        let (_s1, val1) = self.promote();
        let (_s2, val2) = other.promote();
        let result = Integer::checked_add(val1, val2);
        Integer::demote(result)
    }

    /// The difference of two integers of one width, in that width, which it must fit.
    pub fn sub(self, rhs: Integer) -> (r: Integer)
        requires
            self.same_width(rhs),
            self.fits_width_of(self.value() - rhs.value()),
        ensures
            r.same_width(self),
            r.value() == self.value() - rhs.value(),
    {
        match (self, rhs) {
            (Integer::Int8(l), Integer::Int8(r)) => Integer::Int8(l - r),
            (Integer::Int(l), Integer::Int(r)) => Integer::Int(l - r),
            (Integer::Int64(l), Integer::Int64(r)) => Integer::Int64(l - r),
            (Integer::Int128(l), Integer::Int128(r)) => Integer::Int128(l - r),
            _ => Integer::Int8(0),
        }
    }

    /// The product of two integers of one width, in that width, which it must fit.
    pub fn mul(self, rhs: Integer) -> (r: Integer)
        requires
            self.same_width(rhs),
            self.fits_width_of(self.value() * rhs.value()),
        ensures
            r.same_width(self),
            r.value() == self.value() * rhs.value(),
    {
        match (self, rhs) {
            (Integer::Int8(l), Integer::Int8(r)) => Integer::Int8(l * r),
            (Integer::Int(l), Integer::Int(r)) => Integer::Int(l * r),
            (Integer::Int64(l), Integer::Int64(r)) => Integer::Int64(l * r),
            (Integer::Int128(l), Integer::Int128(r)) => Integer::Int128(l * r),
            _ => Integer::Int8(0),
        }
    }

    /// The quotient, rounded toward zero, of two integers of one width, in that width. The
    /// divisor must not be zero, and the quotient must fit.
    pub fn div(self, rhs: Integer) -> (r: Integer)
        requires
            self.same_width(rhs),
            rhs.value() != 0,
            self.fits_width_of(-self.value()) || rhs.value() != -1,
        ensures
            r.same_width(self),
            r.value() == truncated_div(self.value(), rhs.value()),
    {
        match (self, rhs) {
            (Integer::Int8(l), Integer::Int8(r)) => {
                let q = trunc_div(l as i128, r as i128);
                proof {
                    lemma_trunc_div_bound(l as int, r as int);
                }
                Integer::Int8(q as i8)
            },
            (Integer::Int(l), Integer::Int(r)) => {
                let q = trunc_div(l as i128, r as i128);
                proof {
                    lemma_trunc_div_bound(l as int, r as int);
                }
                Integer::Int(q as i32)
            },
            (Integer::Int64(l), Integer::Int64(r)) => {
                let q = trunc_div(l as i128, r as i128);
                proof {
                    lemma_trunc_div_bound(l as int, r as int);
                }
                Integer::Int64(q as i64)
            },
            (Integer::Int128(l), Integer::Int128(r)) => Integer::Int128(trunc_div(l, r)),
            _ => Integer::Int8(0),
        }
    }

    /// The decimal text of the number, with a minus sign when it is negative.
    pub fn to_string(&self) -> (r: String)
        ensures
            r@ == decimal_text(self.value()),
    {
        let (_s, v) = self.promote();
        format_decimal(v)
    }
}

/// Division rounded toward zero.
pub open spec fn truncated_div(a: int, b: int) -> int {
    if a >= 0 && b > 0 {
        a / b
    } else if a >= 0 && b < 0 {
        -(a / (-b))
    } else if a < 0 && b > 0 {
        -((-a) / b)
    } else {
        (-a) / (-b)
    }
}

/// The magnitude of a truncated quotient is at most that of the dividend.
proof fn lemma_trunc_div_bound(a: int, b: int)
    requires
        b != 0,
    ensures
        a >= 0 && b > 0 ==> 0 <= truncated_div(a, b) <= a,
        a >= 0 && b < 0 ==> -a <= truncated_div(a, b) <= 0,
        a < 0 && b > 0 ==> a <= truncated_div(a, b) <= 0,
        a < 0 && b < 0 ==> 0 <= truncated_div(a, b) <= -a,
        a < 0 && b < -1 ==> truncated_div(a, b) <= (-a) / 2,
{
    let ua = if a < 0 { -a } else { a };
    let ub = if b < 0 { -b } else { b };
    vstd::arithmetic::div_mod::lemma_div_is_ordered_by_denominator(ua, 1, ub);
    vstd::arithmetic::div_mod::lemma_div_pos_is_pos(ua, ub);
    if ub >= 2 {
        vstd::arithmetic::div_mod::lemma_div_is_ordered_by_denominator(ua, 2, ub);
    }
}

/// Division of two `i128` rounded toward zero; the divisor is not zero and the quotient fits.
fn trunc_div(a: i128, b: i128) -> (q: i128)
    requires
        b != 0,
        !(a == i128::MIN && b == -1),
    ensures
        q == truncated_div(a as int, b as int),
{
    let ua: u128 = if a < 0 {
        ((-(a + 1)) as u128) + 1
    } else {
        a as u128
    };
    let ub: u128 = if b < 0 {
        ((-(b + 1)) as u128) + 1
    } else {
        b as u128
    };
    let uq = ua / ub;
    proof {
        lemma_trunc_div_bound(a as int, b as int);
        vstd::arithmetic::div_mod::lemma_div_is_ordered_by_denominator(ua as int, 1, ub as int);
        if ub >= 2 {
            vstd::arithmetic::div_mod::lemma_div_is_ordered_by_denominator(ua as int, 2, ub as int);
        }
    }
    if (a < 0) != (b < 0) {
        if uq == 170141183460469231731687303715884105728u128 {
            -170141183460469231731687303715884105727i128 - 1
        } else {
            -(uq as i128)
        }
    } else {
        uq as i128
    }
}

impl From<i32> for Integer {
    fn from(item: i32) -> (r: Integer) {
        Integer::Int(item)
    }
}

impl vstd::std_specs::convert::FromSpecImpl<i32> for Integer {
    open spec fn obeys_from_spec() -> bool {
        true
    }

    open spec fn from_spec(item: i32) -> Integer {
        Integer::Int(item)
    }
}

/// A number held in the narrowest width that fits it keeps its value.
pub proof fn law_demote_keeps_value(v: i128)
    ensures
        Integer::spec_demote(v as int).value() == v,
{
}

/// Addition does not depend on the order of its operands.
pub proof fn law_add_commutes(a: Integer, b: Integer)
    ensures
        Integer::spec_demote(a.value() + b.value()) == Integer::spec_demote(b.value() + a.value()),
{
}

/// The narrowest width: a demoted number is a byte exactly when it fits one.
pub proof fn law_demote_narrowest(v: i128)
    ensures
        Integer::spec_demote(v as int) is Int8 <==> -128 <= v <= 127,
        Integer::spec_demote(v as int) is Int <==> (-2147483648 <= v <= 2147483647 && !(-128 <= v
            <= 127)),
        Integer::spec_demote(v as int) is Int128 <==> !(-9223372036854775808 <= v
            <= 9223372036854775807),
{
}

} // verus!

//! Decimal numerals of integers.
use vstd::prelude::*;

verus! {

/// The character of one decimal digit.
pub open spec fn digit_char(digit: nat) -> char
    recommends
        digit < 10,
{
    ('0' as nat + digit) as char
}

/// The decimal digits of a natural number, most significant first, without leading zeros.
pub open spec fn decimal_digits(n: nat) -> Seq<char>
    decreases n,
{
    if n < 10 {
        seq![digit_char(n)]
    } else {
        decimal_digits(n / 10).push(digit_char(n % 10))
    }
}

/// The decimal numeral of an integer: its digits, after a minus sign where it is negative.
pub open spec fn decimal(n: int) -> Seq<char> {
    if n < 0 {
        seq!['-'] + decimal_digits((-n) as nat)
    } else {
        decimal_digits(n as nat)
    }
}

/// The digits of a decimal numeral, read back as a number.
pub open spec fn digits_value(digits: Seq<char>) -> int
    decreases digits.len(),
{
    if digits.len() == 0 {
        0
    } else {
        10 * digits_value(digits.drop_last()) + (digits.last() as int - '0' as int)
    }
}

/// The digits of a number, read back, give the number, and each is one of the ten digits.
pub proof fn lemma_digits_value(n: nat)
    ensures
        decimal_digits(n).len() >= 1,
        digits_value(decimal_digits(n)) == n,
        forall|i: int|
            0 <= i < decimal_digits(n).len() ==> '0' <= #[trigger] decimal_digits(n)[i] <= '9',
    decreases n,
{
    reveal_with_fuel(digits_value, 2);
    let digits = decimal_digits(n);
    if n < 10 {
        assert(digits.drop_last() =~= Seq::empty());
    } else {
        lemma_digits_value(n / 10);
        assert(digits.drop_last() =~= decimal_digits(n / 10));
    }
}

/// The decimal numeral determines the number: two amounts, or two error codes, that are written
/// alike are the same.
pub proof fn decimal_is_injective(a: int, b: int)
    requires
        decimal(a) == decimal(b),
    ensures
        a == b,
{
    let magnitude_a: nat = if a < 0 { (-a) as nat } else { a as nat };
    let magnitude_b: nat = if b < 0 { (-b) as nat } else { b as nat };
    lemma_digits_value(magnitude_a);
    lemma_digits_value(magnitude_b);
    assert(decimal_digits(magnitude_a)[0] != '-');
    assert(decimal_digits(magnitude_b)[0] != '-');
    assert(decimal(a)[0] == decimal(b)[0]);
    if a < 0 {
        assert(decimal(a).skip(1) =~= decimal_digits(magnitude_a));
        assert(decimal(b).skip(1) =~= decimal_digits(magnitude_b));
    }
}

fn digit_text(digit: u64) -> (r: &'static str)
    requires
        digit < 10,
    ensures
        r@ == seq![digit_char(digit as nat)],
{
    proof {
        reveal_strlit("0");
        reveal_strlit("1");
        reveal_strlit("2");
        reveal_strlit("3");
        reveal_strlit("4");
        reveal_strlit("5");
        reveal_strlit("6");
        reveal_strlit("7");
        reveal_strlit("8");
        reveal_strlit("9");
    }
    match digit {
        0 => "0",
        1 => "1",
        2 => "2",
        3 => "3",
        4 => "4",
        5 => "5",
        6 => "6",
        7 => "7",
        8 => "8",
        _ => "9",
    }
}

fn digits_of(n: u64) -> (r: String)
    ensures
        r@ == decimal_digits(n as nat),
    decreases n,
{
    if n < 10 {
        digit_text(n).to_string()
    } else {
        digits_of(n / 10).concat(digit_text(n % 10))
    }
}

/// The decimal numeral of a 64-bit integer.
pub fn decimal_of(n: i64) -> (r: String)
    ensures
        r@ == decimal(n as int),
{
    if n < 0 {
        proof {
            reveal_strlit("-");
        }
        let magnitude: u64 = if n == i64::MIN {
            0x8000_0000_0000_0000u64
        } else {
            (-n) as u64
        };
        let r = "-".to_string().concat(digits_of(magnitude).as_str());
        assert("-"@ =~= seq!['-']);
        r
    } else {
        digits_of(n as u64)
    }
}

} // verus!

//! Numbers of up to 256 bits, and how they are written.
use vstd::arithmetic::div_mod::{
    lemma_div_decreases, lemma_fundamental_div_mod, lemma_fundamental_div_mod_converse,
};
use vstd::prelude::*;

verus! {

/// An element of the field that Cairo programs compute in: the integer that stands for it, as four
/// digits of 64 bits, the least significant one first.
#[derive(Clone, Copy, Debug, PartialEq, Eq)]
pub struct Felt252 {
    pub digits: [u64; 4],
}

/// The number that a digit of 64 bits and the number above it make up.
pub open spec fn above(low: u64, high: nat) -> nat {
    (low + 0x1_0000_0000_0000_0000 * high) as nat
}

impl Felt252 {
    /// The integer that stands for the element.
    pub open spec fn value(self) -> nat {
        above(
            self.digits@[0],
            above(self.digits@[1], above(self.digits@[2], above(self.digits@[3], 0))),
        )
    }
}

/// A digit, up to the last one of base 16.
pub open spec fn digit(d: nat) -> char {
    if d < 10 {
        (48 + d) as char
    } else {
        (87 + d) as char
    }
}

/// A number in a base, without leading zeros.
pub open spec fn written(n: nat, radix: nat) -> Seq<char>
    decreases n,
{
    if radix < 2 || n < radix {
        seq![digit(n)]
    } else {
        proof {
            lemma_div_decreases(n as int, radix as int);
        }
        written(n / radix, radix).push(digit(n % radix))
    }
}

/// A number in base 10.
pub open spec fn decimal(n: nat) -> Seq<char> {
    written(n, 10)
}

/// A number in base 16, marked as such.
pub open spec fn hexadecimal(n: nat) -> Seq<char> {
    "0x"@ + written(n, 16)
}

/// The text of a single digit.
fn digit_text(d: u64) -> (text: String)
    requires
        d < 16,
    ensures
        text@ == seq![digit(d as nat)],
{
    let text: &str = match d {
        0 => "0",
        1 => "1",
        2 => "2",
        3 => "3",
        4 => "4",
        5 => "5",
        6 => "6",
        7 => "7",
        8 => "8",
        9 => "9",
        10 => "a",
        11 => "b",
        12 => "c",
        13 => "d",
        14 => "e",
        _ => "f",
    };
    proof {
        reveal_strlit("0");
        reveal_strlit("1");
        reveal_strlit("2");
        reveal_strlit("3");
        reveal_strlit("4");
        reveal_strlit("5");
        reveal_strlit("6");
        reveal_strlit("7");
        reveal_strlit("8");
        reveal_strlit("9");
        reveal_strlit("a");
        reveal_strlit("b");
        reveal_strlit("c");
        reveal_strlit("d");
        reveal_strlit("e");
        reveal_strlit("f");
        assert(text@ =~= seq![digit(d as nat)]);
    }
    text.to_owned()
}

/// Divides one digit, with the remainder of those above it, by a small number.
fn divide_digit(remainder: u64, low: u64, radix: u64) -> (r: (u64, u64))
    requires
        2 <= radix <= 16,
        remainder < radix,
    ensures
        remainder * 0x1_0000_0000_0000_0000 + low == r.0 * radix + r.1,
        r.1 < radix,
{
    let whole: u128 = remainder as u128 * 0x1_0000_0000_0000_0000u128 + low as u128;
    let divisor: u128 = radix as u128;
    let quotient: u128 = whole / divisor;
    let rest: u128 = whole % divisor;
    proof {
        lemma_fundamental_div_mod(whole as int, divisor as int);
        assert(quotient < 0x1_0000_0000_0000_0000) by (nonlinear_arith)
            requires
                whole < divisor * 0x1_0000_0000_0000_0000,
                whole == divisor * quotient + rest,
                divisor > 0,
                rest >= 0,
        ;
        assert(divisor * quotient == quotient * divisor) by (nonlinear_arith);
    }
    (quotient as u64, rest as u64)
}

/// Divides a number by a small one.
fn divide(n: &Felt252, radix: u64) -> (r: (Felt252, u64))
    requires
        2 <= radix <= 16,
    ensures
        n.value() == r.0.value() * radix + r.1,
        r.1 < radix,
{
    let (q3, r3) = divide_digit(0, n.digits[3], radix);
    let (q2, r2) = divide_digit(r3, n.digits[2], radix);
    let (q1, r1) = divide_digit(r2, n.digits[1], radix);
    let (q0, r0) = divide_digit(r1, n.digits[0], radix);
    let quotient = Felt252 { digits: [q0, q1, q2, q3] };
    proof {
        let b: int = 0x1_0000_0000_0000_0000;
        let v3 = q3 as int;
        let v2 = q2 + b * v3;
        let v1 = q1 + b * v2;
        let v0 = q0 + b * v1;
        assert(quotient.value() == v0);
        let x = radix as int;
        assert(b * (v3 * x + r3) == (b * v3) * x + r3 * b) by (nonlinear_arith);
        assert(q2 * x + (b * v3) * x == v2 * x) by (nonlinear_arith)
            requires
                v2 == q2 + b * v3,
        ;
        assert(b * (v2 * x + r2) == (b * v2) * x + r2 * b) by (nonlinear_arith);
        assert(q1 * x + (b * v2) * x == v1 * x) by (nonlinear_arith)
            requires
                v1 == q1 + b * v2,
        ;
        assert(b * (v1 * x + r1) == (b * v1) * x + r1 * b) by (nonlinear_arith);
        assert(q0 * x + (b * v1) * x == v0 * x) by (nonlinear_arith)
            requires
                v0 == q0 + b * v1,
        ;
    }
    (quotient, r0)
}

/// Writes a number in a base.
fn write(n: &Felt252, radix: u64) -> (text: String)
    requires
        2 <= radix <= 16,
    ensures
        text@ == written(n.value(), radix as nat),
{
    let (mut rest, last) = divide(n, radix);
    let mut text = digit_text(last);
    proof {
        lemma_step(n.value(), rest.value(), last as nat, radix as nat);
        assert(rest.value() != 0 ==> written(n.value(), radix as nat) =~= written(
            rest.value(),
            radix as nat,
        ) + text@);
    }
    while rest.digits[0] != 0 || rest.digits[1] != 0 || rest.digits[2] != 0 || rest.digits[3] != 0
        invariant
            2 <= radix <= 16,
            rest.value() == 0 ==> text@ == written(n.value(), radix as nat),
            rest.value() != 0 ==> written(n.value(), radix as nat) == written(
                rest.value(),
                radix as nat,
            ) + text@,
        decreases rest.value(),
    {
        let (next, d) = divide(&rest, radix);
        let ghost tail = text@;
        let mut longer = digit_text(d);
        longer.append(text.as_str());
        proof {
            let x = radix as int;
            lemma_step(rest.value(), next.value(), d as nat, radix as nat);
            assert(next.value() < rest.value()) by (nonlinear_arith)
                requires
                    rest.value() == next.value() * x + d,
                    rest.value() > 0,
                    x >= 2,
                    d >= 0,
                    next.value() >= 0,
            ;
            if next.value() == 0 {
                assert(written(rest.value(), radix as nat) + tail =~= longer@);
            } else {
                assert(written(rest.value(), radix as nat) + tail =~= written(
                    next.value(),
                    radix as nat,
                ) + longer@);
            }
        }
        text = longer;
        rest = next;
    }
    text
}

/// How a number is written follows from its last digit and the number before it.
proof fn lemma_step(n: nat, rest: nat, last: nat, radix: nat)
    requires
        radix >= 2,
        n == rest * radix + last,
        last < radix,
    ensures
        rest == 0 ==> written(n, radix) == seq![digit(last)],
        rest != 0 ==> written(n, radix) == written(rest, radix).push(digit(last)),
{
    lemma_fundamental_div_mod_converse(n as int, radix as int, rest as int, last as int);
    if rest != 0 {
        assert(n >= radix) by (nonlinear_arith)
            requires
                n == rest * radix + last,
                rest >= 1,
                radix >= 2,
        ;
    }
}

impl Felt252 {
    /// The element as an integer in base 10.
    pub fn to_decimal(&self) -> (text: String)
        ensures
            text@ == decimal(self.value()),
    {
        write(self, 10)
    }

    /// The element as an integer in base 16.
    pub fn to_hexadecimal(&self) -> (text: String)
        ensures
            text@ == hexadecimal(self.value()),
    {
        let mut text = "0x".to_owned();
        let digits = write(self, 16);
        text.append(digits.as_str());
        text
    }
}

/// A count in base 10.
pub fn count_text(n: usize) -> (text: String)
    ensures
        text@ == decimal(n as nat),
{
    let number = Felt252 { digits: [n as u64, 0, 0, 0] };
    number.to_decimal()
}

} // verus!

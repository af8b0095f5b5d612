//! Numbers and bytes as text: decimal and hexadecimal digits.

use vstd::prelude::*;
use vstd::string::*;

verus! {

/// The lower-case digit of a value below sixteen.
pub open spec fn hex_digit(n: int) -> char {
    seq!['0', '1', '2', '3', '4', '5', '6', '7', '8', '9', 'a', 'b', 'c', 'd', 'e', 'f'][n]
}

/// Two lower-case hexadecimal digits for each byte, the high half first.
pub open spec fn hex_text(bytes: Seq<u8>) -> Seq<char> {
    Seq::new(
        2 * bytes.len(),
        |i: int|
            if i % 2 == 0 {
                hex_digit(bytes[i / 2] as int / 16)
            } else {
                hex_digit(bytes[i / 2] as int % 16)
            },
    )
}

/// The digits of `n` in the given radix, most significant first, without
/// leading zeros; zero is written as `0`.
pub open spec fn radix_text(n: nat, radix: nat) -> Seq<char>
    recommends
        2 <= radix <= 16,
    decreases n,
    via radix_text_terminates
{
    if n < radix || radix < 2 {
        seq![hex_digit(n as int)]
    } else {
        radix_text(n / radix, radix).push(hex_digit((n % radix) as int))
    }
}

#[via_fn]
proof fn radix_text_terminates(n: nat, radix: nat) {
    assert(2 <= radix <= n ==> n / radix < n) by (nonlinear_arith);
}

/// Calls `hex::encode`, which writes each byte as two digits out of
/// `0123456789abcdef`, the high half first.
#[verifier::external_body]
fn hex_encode(bytes: &[u8]) -> (r: String)
    ensures
        r@ == hex_text(bytes@),
{
    hex::encode(bytes)
}

/// The digit of a value below sixteen, as a string of one character.
fn digit_str(digit: u64) -> (r: &'static str)
    requires
        digit < 16,
    ensures
        r@ == seq![hex_digit(digit as int)],
{
    proof {
        reveal_strlit("0");
        reveal_strlit("1");
        reveal_strlit("2");
        reveal_strlit("3");
        reveal_strlit("4");
        reveal_strlit("5");
        reveal_strlit("6");
        reveal_strlit("7");
        reveal_strlit("8");
        reveal_strlit("9");
        reveal_strlit("a");
        reveal_strlit("b");
        reveal_strlit("c");
        reveal_strlit("d");
        reveal_strlit("e");
        reveal_strlit("f");
    }
    let text = if digit == 0 {
        "0"
    } else if digit == 1 {
        "1"
    } else if digit == 2 {
        "2"
    } else if digit == 3 {
        "3"
    } else if digit == 4 {
        "4"
    } else if digit == 5 {
        "5"
    } else if digit == 6 {
        "6"
    } else if digit == 7 {
        "7"
    } else if digit == 8 {
        "8"
    } else if digit == 9 {
        "9"
    } else if digit == 10 {
        "a"
    } else if digit == 11 {
        "b"
    } else if digit == 12 {
        "c"
    } else if digit == 13 {
        "d"
    } else if digit == 14 {
        "e"
    } else {
        "f"
    };
    assert(text@ =~= seq![hex_digit(digit as int)]);
    text
}

/// Appends the digits of `n` in the given radix to `out`.
fn push_radix(n: u64, radix: u64, out: &mut String)
    requires
        2 <= radix <= 16,
    ensures
        final(out)@ == old(out)@ + radix_text(n as nat, radix as nat),
    decreases n,
{
    if n >= radix {
        assert(n / radix < n) by (nonlinear_arith)
            requires
                2 <= radix <= n,
        ;
        push_radix(n / radix, radix, out);
        out.append(digit_str(n % radix));
        assert(out@ =~= old(out)@ + radix_text(n as nat, radix as nat));
    } else {
        out.append(digit_str(n));
    }
}

/// Writes a number in decimal.
pub fn to_decimal(n: u64) -> (r: String)
    ensures
        r@ == radix_text(n as nat, 10),
{
    let mut out = String::new();
    push_radix(n, 10, &mut out);
    assert(out@ =~= radix_text(n as nat, 10));
    out
}

/// Writes a number in lower-case hexadecimal after the prefix `0x`.
pub fn to_prefixed_hex(n: u64) -> (r: String)
    ensures
        r@ == seq!['0', 'x'] + radix_text(n as nat, 16),
{
    let mut out = "0x".to_owned();
    proof {
        reveal_strlit("0x");
    }
    push_radix(n, 16, &mut out);
    assert(out@ =~= seq!['0', 'x'] + radix_text(n as nat, 16));
    out
}

/// Writes bytes in lower-case hexadecimal after the prefix `0x`.
pub fn bytes_to_prefixed_hex(bytes: &[u8]) -> (r: String)
    ensures
        r@ == seq!['0', 'x'] + hex_text(bytes@),
{
    let mut out = "0x".to_owned();
    proof {
        reveal_strlit("0x");
    }
    let digits = hex_encode(bytes);
    out.append(digits.as_str());
    assert(out@ =~= seq!['0', 'x'] + hex_text(bytes@));
    out
}

} // verus!

//! The textual forms that symbolic operands are made of. Text is a sequence
//! of bytes, as the names and descriptors of a constant pool are.

use vstd::prelude::*;

verus! {

/// The decimal digits of a natural number, most significant first.
pub open spec fn digits(n: nat) -> Seq<u8>
    decreases n,
{
    if n < 10 {
        seq![(48 + n) as u8]
    } else {
        digits(n / 10).push((48 + n % 10) as u8)
    }
}

/// The decimal form of an integer: a minus sign where it is negative, then
/// its digits without leading zeros.
pub open spec fn decimal(n: int) -> Seq<u8> {
    if n < 0 {
        seq![45u8] + digits((-n) as nat)
    } else {
        digits(n as nat)
    }
}

/// The digit of a value below sixteen, in lower case.
pub open spec fn hex_digit(v: int) -> u8 {
    if v < 10 {
        (48 + v) as u8
    } else {
        (87 + v) as u8
    }
}

/// How one byte of a string constant is written: a quote or a backslash
/// behind a backslash; line feed, carriage return and tab by their letter
/// behind a backslash; any other control character as `\u00` and two
/// hexadecimal digits; every other byte as itself.
pub open spec fn escaped_byte(b: u8) -> Seq<u8> {
    if b == 34 || b == 92 {
        seq![92u8, b]
    } else if b == 10 {
        seq![92u8, 110u8]
    } else if b == 13 {
        seq![92u8, 114u8]
    } else if b == 9 {
        seq![92u8, 116u8]
    } else if b < 32 || b == 127 {
        seq![92u8, 117u8, 48u8, 48u8, hex_digit(b as int / 16), hex_digit(b as int % 16)]
    } else {
        seq![b]
    }
}

/// The bytes of a string with each of them escaped.
pub open spec fn escaped(s: Seq<u8>) -> Seq<u8>
    decreases s.len(),
{
    if s.len() == 0 {
        Seq::empty()
    } else {
        escaped(s.drop_last()) + escaped_byte(s.last())
    }
}

/// A string constant as a literal: escaped, between double quotes.
pub open spec fn quoted(s: Seq<u8>) -> Seq<u8> {
    seq![34u8] + escaped(s) + seq![34u8]
}

/// A class name with dots in place of its slashes.
pub open spec fn dotted(s: Seq<u8>) -> Seq<u8> {
    Seq::new(
        s.len(),
        |i: int|
            if s[i] == 47 {
                46u8
            } else {
                s[i]
            },
    )
}

/// Appends the digits of `n`.
fn push_digits(out: &mut Vec<u8>, n: u64)
    ensures
        final(out)@ == old(out)@ + digits(n as nat),
    decreases n,
{
    if n >= 10 {
        push_digits(out, n / 10);
    }
    let d: u8 = (n % 10) as u8;
    out.push(48 + d);
    assert(final(out)@ =~= old(out)@ + digits(n as nat));
}

/// Appends the decimal form of `n`.
pub fn push_decimal(out: &mut Vec<u8>, n: i64)
    ensures
        final(out)@ == old(out)@ + decimal(n as int),
{
    if n < 0 {
        out.push(45);
        let magnitude: u64 = (-(n + 1)) as u64 + 1;
        push_digits(out, magnitude);
        assert(final(out)@ =~= old(out)@ + decimal(n as int));
    } else {
        push_digits(out, n as u64);
    }
}

/// The decimal form of `n`.
pub fn decimal_text(n: i64) -> (text: Vec<u8>)
    ensures
        text@ == decimal(n as int),
{
    let mut text: Vec<u8> = Vec::new();
    push_decimal(&mut text, n);
    assert(text@ =~= decimal(n as int));
    text
}

/// Appends the bytes of `s`.
pub fn push_bytes(out: &mut Vec<u8>, s: &[u8])
    ensures
        final(out)@ == old(out)@ + s@,
{
    let mut i: usize = 0;
    while i < s.len()
        invariant
            i <= s.len(),
            out@ == old(out)@ + s@.take(i as int),
        decreases s.len() - i,
    {
        out.push(s[i]);
        i += 1;
        assert(out@ =~= old(out)@ + s@.take(i as int));
    }
    assert(s@.take(s.len() as int) =~= s@);
}

fn hex_digit_of(v: u8) -> (d: u8)
    requires
        v < 16,
    ensures
        d == hex_digit(v as int),
{
    if v < 10 {
        48 + v
    } else {
        87 + v
    }
}

/// Appends the escaped form of one byte.
fn push_escaped_byte(out: &mut Vec<u8>, b: u8)
    ensures
        final(out)@ == old(out)@ + escaped_byte(b),
{
    if b == 34 || b == 92 {
        out.push(92);
        out.push(b);
    } else if b == 10 {
        out.push(92);
        out.push(110);
    } else if b == 13 {
        out.push(92);
        out.push(114);
    } else if b == 9 {
        out.push(92);
        out.push(116);
    } else if b < 32 || b == 127 {
        out.push(92);
        out.push(117);
        out.push(48);
        out.push(48);
        out.push(hex_digit_of(b / 16));
        out.push(hex_digit_of(b % 16));
    } else {
        out.push(b);
    }
    assert(final(out)@ =~= old(out)@ + escaped_byte(b));
}

/// A string constant as a literal: escaped, between double quotes.
pub fn quoted_text(s: &[u8]) -> (text: Vec<u8>)
    ensures
        text@ == quoted(s@),
{
    let mut text: Vec<u8> = Vec::new();
    text.push(34);
    let mut i: usize = 0;
    assert(escaped(s@.take(0)) =~= Seq::<u8>::empty());
    while i < s.len()
        invariant
            i <= s.len(),
            text@ == seq![34u8] + escaped(s@.take(i as int)),
        decreases s.len() - i,
    {
        push_escaped_byte(&mut text, s[i]);
        proof {
            let next = s@.take(i + 1);
            assert(next.drop_last() =~= s@.take(i as int));
            assert(next.last() == s@[i as int]);
            assert(text@ =~= seq![34u8] + escaped(next));
        }
        i += 1;
    }
    assert(s@.take(s.len() as int) =~= s@);
    text.push(34);
    text
}

/// A class name with dots in place of its slashes.
pub fn dotted_text(s: &[u8]) -> (text: Vec<u8>)
    ensures
        text@ == dotted(s@),
{
    let mut text: Vec<u8> = Vec::new();
    let mut i: usize = 0;
    while i < s.len()
        invariant
            i <= s.len(),
            text@.len() == i,
            forall|k: int| 0 <= k < i ==> text@[k] == #[trigger] dotted(s@)[k],
        decreases s.len() - i,
    {
        let b: u8 = s[i];
        text.push(
            if b == 47 {
                46
            } else {
                b
            },
        );
        i += 1;
    }
    assert(text@ =~= dotted(s@));
    text
}

} // verus!

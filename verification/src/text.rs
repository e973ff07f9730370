//! Rendering of the confirmation text: decimal and hexadecimal digits, and
//! the status line written back to the caller on success.

use vstd::prelude::*;

use crate::ioctl::Operation;
use vstd::arithmetic::div_mod::lemma_div_is_strictly_smaller;
use vstd::string::StringExecFns;

verus! {

/// The character for one digit value, lower case above nine.
pub open spec fn digit_char(d: nat) -> char
    recommends
        d < 16,
{
    if d == 0 {
        '0'
    } else if d == 1 {
        '1'
    } else if d == 2 {
        '2'
    } else if d == 3 {
        '3'
    } else if d == 4 {
        '4'
    } else if d == 5 {
        '5'
    } else if d == 6 {
        '6'
    } else if d == 7 {
        '7'
    } else if d == 8 {
        '8'
    } else if d == 9 {
        '9'
    } else if d == 10 {
        'a'
    } else if d == 11 {
        'b'
    } else if d == 12 {
        'c'
    } else if d == 13 {
        'd'
    } else if d == 14 {
        'e'
    } else {
        'f'
    }
}

/// The digits of `n` in the given base, most significant first, a single
/// '0' for zero.
pub open spec fn digits_rep(n: nat, base: nat) -> Seq<char>
    recommends
        2 <= base <= 16,
    decreases n,
        when 2 <= base via digits_rep_decreases
{
    if n < base {
        seq![digit_char(n)]
    } else {
        digits_rep(n / base, base).push(digit_char(n % base))
    }
}

#[via_fn]
proof fn digits_rep_decreases(n: nat, base: nat) {
    if n >= base {
        lemma_div_is_strictly_smaller(n as int, base as int);
    }
}

/// The one-character string for a digit value.
fn digit_str(d: u64) -> (s: &'static str)
    requires
        d < 16,
    ensures
        s@ == seq![digit_char(d as nat)],
{
    let s: &'static str = if d == 0 {
        "0"
    } else if d == 1 {
        "1"
    } else if d == 2 {
        "2"
    } else if d == 3 {
        "3"
    } else if d == 4 {
        "4"
    } else if d == 5 {
        "5"
    } else if d == 6 {
        "6"
    } else if d == 7 {
        "7"
    } else if d == 8 {
        "8"
    } else if d == 9 {
        "9"
    } else if d == 10 {
        "a"
    } else if d == 11 {
        "b"
    } else if d == 12 {
        "c"
    } else if d == 13 {
        "d"
    } else if d == 14 {
        "e"
    } else {
        "f"
    };
    proof {
        reveal_strlit("0");
        reveal_strlit("1");
        reveal_strlit("2");
        reveal_strlit("3");
        reveal_strlit("4");
        reveal_strlit("5");
        reveal_strlit("6");
        reveal_strlit("7");
        reveal_strlit("8");
        reveal_strlit("9");
        reveal_strlit("a");
        reveal_strlit("b");
        reveal_strlit("c");
        reveal_strlit("d");
        reveal_strlit("e");
        reveal_strlit("f");
        assert(s@ =~= seq![digit_char(d as nat)]);
    }
    s
}

/// Appends the digits of `n` in the given base to `out`.
fn append_digits(n: u64, base: u64, out: &mut String)
    requires
        base == 10 || base == 16,
    ensures
        final(out)@ == old(out)@ + digits_rep(n as nat, base as nat),
    decreases n,
{
    if n < base {
        out.append(digit_str(n));
    } else {
        proof {
            lemma_div_is_strictly_smaller(n as int, base as int);
        }
        append_digits(n / base, base, out);
        out.append(digit_str(n % base));
        proof {
            assert(out@ =~= old(out)@ + digits_rep(n as nat, base as nat));
        }
    }
}

/// Renders `n` in decimal.
pub fn u64_to_decimal(n: u64) -> (s: String)
    ensures
        s@ == digits_rep(n as nat, 10),
{
    let mut s = String::new();
    append_digits(n, 10, &mut s);
    s
}

/// Renders `n` in lower-case hexadecimal, without a prefix.
pub fn u64_to_hex(n: u64) -> (s: String)
    ensures
        s@ == digits_rep(n as nat, 16),
{
    let mut s = String::new();
    append_digits(n, 16, &mut s);
    s
}

/// The confirmation line for a completed copy: the literal byte count in
/// decimal and the target address in hexadecimal.
pub open spec fn confirmation_rep(operation: Operation, bytes_copied: u64, address: u64) -> Seq<
    char,
> {
    "Copied "@ + digits_rep(bytes_copied as nat, 10) + (match operation {
        Operation::Read => " bytes from 0x"@,
        Operation::Write => " bytes to 0x"@,
    }) + digits_rep(address as nat, 16) + "!"@
}

/// Builds the confirmation line written into the response buffer after a
/// successful copy.
pub fn confirmation_message(operation: Operation, bytes_copied: u64, address: u64) -> (m: String)
    ensures
        m@ == confirmation_rep(operation, bytes_copied, address),
{
    let mut m = String::from_str("Copied ");
    let count = u64_to_decimal(bytes_copied);
    m.append(count.as_str());
    match operation {
        Operation::Read => m.append(" bytes from 0x"),
        Operation::Write => m.append(" bytes to 0x"),
    }
    let target = u64_to_hex(address);
    m.append(target.as_str());
    m.append("!");
    proof {
        assert(m@ =~= confirmation_rep(operation, bytes_copied, address));
    }
    m
}

} // verus!

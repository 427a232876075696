//! Rendering of numbers and lists as text.

use vstd::prelude::*;
use vstd::string::StringExecFns;

verus! {

/// The character that writes a digit.
pub open spec fn digit_char(digit: nat) -> char
    recommends
        digit < 10,
{
    if digit == 0 {
        '0'
    } else if digit == 1 {
        '1'
    } else if digit == 2 {
        '2'
    } else if digit == 3 {
        '3'
    } else if digit == 4 {
        '4'
    } else if digit == 5 {
        '5'
    } else if digit == 6 {
        '6'
    } else if digit == 7 {
        '7'
    } else if digit == 8 {
        '8'
    } else {
        '9'
    }
}

/// A number in decimal, without sign or leading zeros.
pub open spec fn decimal(n: nat) -> Seq<char>
    decreases n,
{
    if n < 10 {
        seq![digit_char(n)]
    } else {
        decimal(n / 10).push(digit_char(n % 10))
    }
}

/// A number that may be unknown: `None`, or the number inside `Some(..)`.
pub open spec fn debug_option(value: Option<u64>) -> Seq<char> {
    match value {
        Some(n) => "Some("@ + decimal(n as nat) + ")"@,
        None => "None"@,
    }
}

/// Numbers in decimal, in order, with a comma and a space between each two.
pub open spec fn comma_separated(items: Seq<usize>) -> Seq<char>
    decreases items.len(),
{
    if items.len() == 0 {
        Seq::empty()
    } else if items.len() == 1 {
        decimal(items[0] as nat)
    } else {
        comma_separated(items.drop_last()) + ", "@ + decimal(items.last() as nat)
    }
}

/// A list of numbers in square brackets.
pub open spec fn debug_list(items: Seq<usize>) -> Seq<char> {
    "["@ + comma_separated(items) + "]"@
}

fn digit_str(digit: u64) -> (s: &'static str)
    requires
        digit < 10,
    ensures
        s@ == seq![digit_char(digit as nat)],
{
    proof {
        reveal_strlit("0");
        reveal_strlit("1");
        reveal_strlit("2");
        reveal_strlit("3");
        reveal_strlit("4");
        reveal_strlit("5");
        reveal_strlit("6");
        reveal_strlit("7");
        reveal_strlit("8");
        reveal_strlit("9");
    }
    if digit == 0 {
        "0"
    } else if digit == 1 {
        "1"
    } else if digit == 2 {
        "2"
    } else if digit == 3 {
        "3"
    } else if digit == 4 {
        "4"
    } else if digit == 5 {
        "5"
    } else if digit == 6 {
        "6"
    } else if digit == 7 {
        "7"
    } else if digit == 8 {
        "8"
    } else {
        "9"
    }
}

/// Appends a number in decimal.
pub(crate) fn push_decimal(out: &mut String, n: u64)
    ensures
        final(out)@ == old(out)@ + decimal(n as nat),
    decreases n,
{
    if n >= 10 {
        push_decimal(out, n / 10);
    }
    out.append(digit_str(n % 10));
}

/// Appends a number that may be unknown.
pub(crate) fn push_debug_option(out: &mut String, value: Option<u64>)
    ensures
        final(out)@ == old(out)@ + debug_option(value),
{
    match value {
        Some(n) => {
            out.append("Some(");
            push_decimal(out, n);
            out.append(")");
        },
        None => {
            out.append("None");
        },
    }
}

/// Appends a list of numbers in square brackets.
pub(crate) fn push_debug_list(out: &mut String, items: &Vec<usize>)
    ensures
        final(out)@ == old(out)@ + debug_list(items@),
{
    out.append("[");
    let ghost start = out@;
    let mut i: usize = 0;
    while i < items.len()
        invariant
            i <= items.len(),
            out@ == start + comma_separated(items@.take(i as int)),
        decreases items.len() - i,
    {
        proof {
            assert(items@.take(i + 1).drop_last() =~= items@.take(i as int));
        }
        if i > 0 {
            out.append(", ");
        }
        push_decimal(out, items[i] as u64);
        i += 1;
    }
    out.append("]");
    proof {
        assert(items@.take(i as int) =~= items@);
    }
}

} // verus!

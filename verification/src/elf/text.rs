//! Small pieces of text shared by the printable forms of the flag types:
//! lower-case hexadecimal numbers and lists joined by `" | "`.
use vstd::prelude::*;
use vstd::string::StringExecFns;

verus! {

/// The lower-case hexadecimal digit for `d` (taken below 16).
pub open spec fn hex_digit(d: u64) -> char {
    seq!['0', '1', '2', '3', '4', '5', '6', '7', '8', '9', 'a', 'b', 'c', 'd', 'e', 'f'][d as int]
}

/// `v` written in lower-case hexadecimal without leading zeros
/// (`0` is written as a single digit).
pub open spec fn hex_digits(v: u64) -> Seq<char>
    decreases v,
{
    if v < 16 {
        seq![hex_digit(v)]
    } else {
        hex_digits(v / 16).push(hex_digit(v % 16))
    }
}

/// The parts written one after the other with `" | "` between two
/// neighbours.
pub open spec fn join_with_bars(parts: Seq<Seq<char>>) -> Seq<char>
    decreases parts.len(),
{
    if parts.len() == 0 {
        Seq::empty()
    } else if parts.len() == 1 {
        parts[0]
    } else {
        join_with_bars(parts.drop_last()) + " | "@ + parts.last()
    }
}

/// Joining one more part onto a list.
pub proof fn lemma_join_push(parts: Seq<Seq<char>>, x: Seq<char>)
    ensures
        join_with_bars(parts.push(x)) == if parts.len() == 0 {
            x
        } else {
            join_with_bars(parts) + " | "@ + x
        },
{
    assert(parts.push(x).drop_last() =~= parts);
}

fn hex_digit_str(d: u64) -> (s: &'static str)
    requires
        d < 16,
    ensures
        s@ == seq![hex_digit(d)],
{
    proof {
        reveal_strlit("0");
        reveal_strlit("1");
        reveal_strlit("2");
        reveal_strlit("3");
        reveal_strlit("4");
        reveal_strlit("5");
        reveal_strlit("6");
        reveal_strlit("7");
        reveal_strlit("8");
        reveal_strlit("9");
        reveal_strlit("a");
        reveal_strlit("b");
        reveal_strlit("c");
        reveal_strlit("d");
        reveal_strlit("e");
        reveal_strlit("f");
    }
    match d {
        0 => "0",
        1 => "1",
        2 => "2",
        3 => "3",
        4 => "4",
        5 => "5",
        6 => "6",
        7 => "7",
        8 => "8",
        9 => "9",
        10 => "a",
        11 => "b",
        12 => "c",
        13 => "d",
        14 => "e",
        _ => "f",
    }
}

/// Appends `v` in lower-case hexadecimal to `out`.
pub fn push_hex(out: &mut String, v: u64)
    ensures
        final(out)@ == old(out)@ + hex_digits(v),
    decreases v,
{
    if v >= 16 {
        push_hex(out, v / 16);
    }
    let digit = hex_digit_str(v % 16);
    out.append(digit);
    proof {
        if v >= 16 {
            assert(hex_digits(v) == hex_digits(v / 16).push(hex_digit(v % 16)));
        }
    }
    assert(out@ =~= old(out)@ + hex_digits(v));
}

} // verus!

//! Text for what the library shows of itself: numbers in decimal and dumps of bytes.

use vstd::prelude::*;
use vstd::string::StringExecFns;

verus! {

/// The digit that stands for `d`, for `d` below ten.
pub open spec fn spec_digit(d: nat) -> char {
    if d == 0 {
        '0'
    } else if d == 1 {
        '1'
    } else if d == 2 {
        '2'
    } else if d == 3 {
        '3'
    } else if d == 4 {
        '4'
    } else if d == 5 {
        '5'
    } else if d == 6 {
        '6'
    } else if d == 7 {
        '7'
    } else if d == 8 {
        '8'
    } else {
        '9'
    }
}

/// `value` in decimal, without leading zeros.
pub open spec fn spec_decimal(value: nat) -> Seq<char>
    decreases value,
{
    if value < 10 {
        seq![spec_digit(value)]
    } else {
        spec_decimal(value / 10).push(spec_digit(value % 10))
    }
}

/// The bytes from index `from` on, in decimal, with a comma and a space before each.
pub open spec fn spec_dump_tail(bytes: Seq<u8>, from: nat) -> Seq<char>
    decreases bytes.len() - from,
{
    if from >= bytes.len() {
        Seq::empty()
    } else {
        seq![',', ' '] + spec_decimal(bytes[from as int] as nat) + spec_dump_tail(bytes, from + 1)
    }
}

/// A dump of `bytes`: the bytes in decimal, separated by a comma and a space, in square
/// brackets.
pub open spec fn spec_dump(bytes: Seq<u8>) -> Seq<char> {
    if bytes.len() == 0 {
        seq!['[', ']']
    } else {
        seq!['['] + spec_decimal(bytes[0] as nat) + spec_dump_tail(bytes, 1) + seq![']']
    }
}

fn digit(d: u8) -> (text: &'static str)
    requires
        d < 10,
    ensures
        text@ == seq![spec_digit(d as nat)],
{
    proof {
        reveal_strlit("0");
        reveal_strlit("1");
        reveal_strlit("2");
        reveal_strlit("3");
        reveal_strlit("4");
        reveal_strlit("5");
        reveal_strlit("6");
        reveal_strlit("7");
        reveal_strlit("8");
        reveal_strlit("9");
    }
    let text = if d == 0 {
        "0"
    } else if d == 1 {
        "1"
    } else if d == 2 {
        "2"
    } else if d == 3 {
        "3"
    } else if d == 4 {
        "4"
    } else if d == 5 {
        "5"
    } else if d == 6 {
        "6"
    } else if d == 7 {
        "7"
    } else if d == 8 {
        "8"
    } else {
        "9"
    };
    assert(text@ =~= seq![spec_digit(d as nat)]);
    text
}

/// Appends `value` in decimal to `out`.
pub(crate) fn append_decimal(out: &mut String, value: u8)
    ensures
        final(out)@ == old(out)@ + spec_decimal(value as nat),
{
    let ghost before = out@;
    proof {
        reveal_with_fuel(spec_decimal, 3);
    }
    if value >= 100 {
        out.append(digit(value / 100));
        out.append(digit(value / 10 % 10));
        out.append(digit(value % 10));
        assert(out@ =~= before + spec_decimal(value as nat));
    } else if value >= 10 {
        out.append(digit(value / 10));
        out.append(digit(value % 10));
        assert(out@ =~= before + spec_decimal(value as nat));
    } else {
        out.append(digit(value));
    }
}

/// A dump of `bytes`, as [`spec_dump`] says.
pub(crate) fn dump(bytes: &[u8]) -> (text: String)
    ensures
        text@ == spec_dump(bytes@),
{
    proof {
        reveal_strlit("[");
        reveal_strlit("]");
        reveal_strlit(", ");
    }
    let mut text = String::from_str("[");
    if bytes.len() == 0 {
        text.append("]");
        assert(text@ =~= spec_dump(bytes@));
        return text;
    }
    append_decimal(&mut text, bytes[0]);
    let mut i: usize = 1;
    while i < bytes.len()
        invariant
            1 <= i <= bytes@.len(),
            text@ + spec_dump_tail(bytes@, i as nat) == seq!['['] + spec_decimal(
                bytes@[0] as nat,
            ) + spec_dump_tail(bytes@, 1),
        decreases bytes@.len() - i,
    {
        let ghost before = text@;
        let ghost number = spec_decimal(bytes@[i as int] as nat);
        let ghost rest = spec_dump_tail(bytes@, (i + 1) as nat);
        text.append(", ");
        append_decimal(&mut text, bytes[i]);
        proof {
            reveal_strlit(", ");
            assert(", "@ =~= seq![',', ' ']);
            assert(spec_dump_tail(bytes@, i as nat) == seq![',', ' '] + number + rest);
            assert((before + seq![',', ' '] + number) + rest =~= before + (seq![',', ' ']
                + number + rest));
        }
        i += 1;
    }
    assert(text@ =~= text@ + spec_dump_tail(bytes@, i as nat));
    text.append("]");
    text
}

} // verus!

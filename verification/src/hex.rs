//! Packets as readable text.

use vstd::prelude::*;
use vstd::string::*;

verus! {

/// The upper-case hexadecimal digit of `value`.
pub open spec fn hex_digit(value: int) -> char
    recommends
        0 <= value < 16,
{
    if value < 10 {
        (48 + value) as char
    } else {
        (55 + value) as char
    }
}

/// Two digits for every byte, the more significant one first.
pub open spec fn hex_text(packet: Seq<u8>) -> Seq<char> {
    Seq::new(
        2 * packet.len(),
        |i: int|
            if i % 2 == 0 {
                hex_digit(packet[i / 2] as int / 16)
            } else {
                hex_digit(packet[i / 2] as int % 16)
            },
    )
}

/// Append the upper-case hexadecimal digit of `value`.
fn append_digit(text: &mut String, value: u8)
    requires
        value < 16,
    ensures
        final(text)@ == old(text)@.push(hex_digit(value as int)),
{
    let digit: &str = match value {
        0 => "0",
        1 => "1",
        2 => "2",
        3 => "3",
        4 => "4",
        5 => "5",
        6 => "6",
        7 => "7",
        8 => "8",
        9 => "9",
        10 => "A",
        11 => "B",
        12 => "C",
        13 => "D",
        14 => "E",
        _ => "F",
    };
    proof {
        reveal_strlit("0");
        reveal_strlit("1");
        reveal_strlit("2");
        reveal_strlit("3");
        reveal_strlit("4");
        reveal_strlit("5");
        reveal_strlit("6");
        reveal_strlit("7");
        reveal_strlit("8");
        reveal_strlit("9");
        reveal_strlit("A");
        reveal_strlit("B");
        reveal_strlit("C");
        reveal_strlit("D");
        reveal_strlit("E");
        reveal_strlit("F");
    }
    assert(digit@ =~= seq![hex_digit(value as int)]);
    text.append(digit);
    assert(text@ =~= old(text)@.push(hex_digit(value as int)));
}

/// Write a packet in hexadecimal digits.
pub fn hex_bytes(packet: &[u8]) -> (text: String)
    ensures
        text@ == hex_text(packet@),
{
    let mut text = String::new();
    let mut index: usize = 0;
    while index < packet.len()
        invariant
            index <= packet@.len(),
            text@ == hex_text(packet@.take(index as int)),
        decreases packet@.len() - index,
    {
        append_digit(&mut text, packet[index] / 16);
        append_digit(&mut text, packet[index] % 16);
        index = index + 1;
        assert(text@ =~= hex_text(packet@.take(index as int)));
    }
    assert(packet@.take(index as int) =~= packet@);
    text
}

} // verus!

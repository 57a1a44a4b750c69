//! Hexadecimal text: binary data as lower-case digits, and unsigned numbers
//! written and read in base sixteen.

use vstd::prelude::*;
use vstd::string::*;

verus! {

/// The lower-case hexadecimal digit for a value below sixteen.
pub open spec fn hex_char(nibble: u8) -> char {
    if nibble == 0 { '0' } else if nibble == 1 { '1' } else if nibble == 2 { '2' }
    else if nibble == 3 { '3' } else if nibble == 4 { '4' } else if nibble == 5 { '5' }
    else if nibble == 6 { '6' } else if nibble == 7 { '7' } else if nibble == 8 { '8' }
    else if nibble == 9 { '9' } else if nibble == 10 { 'a' } else if nibble == 11 { 'b' }
    else if nibble == 12 { 'c' } else if nibble == 13 { 'd' } else if nibble == 14 { 'e' }
    else { 'f' }
}

/// The hexadecimal text of a byte sequence: two digits per byte, high nibble
/// first, in the order of the bytes.
pub open spec fn lower_hex(bytes: Seq<u8>) -> Seq<char> {
    Seq::new(
        2 * bytes.len(),
        |i: int| if i % 2 == 0 { hex_char(bytes[i / 2] / 16) } else { hex_char(bytes[i / 2] % 16) },
    )
}

fn digit_str(nibble: u8) -> (r: &'static str)
    requires
        nibble < 16,
    ensures
        r@ == seq![hex_char(nibble)],
{
    proof {
        reveal_strlit("0"); reveal_strlit("1"); reveal_strlit("2"); reveal_strlit("3");
        reveal_strlit("4"); reveal_strlit("5"); reveal_strlit("6"); reveal_strlit("7");
        reveal_strlit("8"); reveal_strlit("9"); reveal_strlit("a"); reveal_strlit("b");
        reveal_strlit("c"); reveal_strlit("d"); reveal_strlit("e"); reveal_strlit("f");
    }
    let r = match nibble {
        0 => "0", 1 => "1", 2 => "2", 3 => "3", 4 => "4", 5 => "5", 6 => "6", 7 => "7",
        8 => "8", 9 => "9", 10 => "a", 11 => "b", 12 => "c", 13 => "d", 14 => "e",
        _ => "f",
    };
    assert(r@ =~= seq![hex_char(nibble)]);
    r
}

/// Binary data that is to be shown as hexadecimal text.
pub struct ByteBuf<'a>(pub &'a [u8]);

impl<'a> ByteBuf<'a> {
    /// The data as lower-case hexadecimal text.
    pub fn lower_hex(&self) -> (text: String)
        ensures
            text@ == lower_hex(self.0@),
    {
        let mut text = String::new();
        let mut i: usize = 0;
        while i < self.0.len()
            invariant
                i <= self.0@.len(),
                text@ == lower_hex(self.0@.subrange(0, i as int)),
            decreases self.0@.len() - i,
        {
            let byte = self.0[i];
            text.append(digit_str(byte / 16));
            text.append(digit_str(byte % 16));
            i += 1;
            assert(text@ =~= lower_hex(self.0@.subrange(0, i as int)));
        }
        assert(self.0@.subrange(0, i as int) =~= self.0@);
        text
    }
}

/// The lower-case hexadecimal digit for a value below sixteen, as a byte.
pub open spec fn hex_digit(nibble: nat) -> u8 {
    if nibble < 10 {
        (0x30 + nibble) as u8
    } else {
        (0x57 + nibble) as u8
    }
}

/// The digit as a byte is the digit as a character.
pub proof fn lemma_hex_digit_is_hex_char(nibble: u8)
    requires
        nibble < 16,
    ensures
        hex_digit(nibble as nat) == hex_char(nibble) as u8,
{
}

/// A number in hexadecimal text: lower-case digits, no prefix, no leading
/// zero but for zero itself.
pub open spec fn hex_number(n: nat) -> Seq<u8>
    decreases n,
{
    if n < 16 {
        seq![hex_digit(n)]
    } else {
        hex_number(n / 16).push(hex_digit(n % 16))
    }
}

/// The value of a hexadecimal digit of either case, or `None` for any other
/// byte.
pub open spec fn hex_digit_value(byte: u8) -> Option<nat> {
    if 0x30 <= byte <= 0x39 {
        Some((byte - 0x30) as nat)
    } else if 0x61 <= byte <= 0x66 {
        Some((byte - 0x57) as nat)
    } else if 0x41 <= byte <= 0x46 {
        Some((byte - 0x37) as nat)
    } else {
        None
    }
}

/// Whether `text` is a number in hexadecimal: one digit or more, nothing
/// else.
pub open spec fn is_hex(text: Seq<u8>) -> bool {
    text.len() > 0 && forall|i: int|
        0 <= i < text.len() ==> (#[trigger] hex_digit_value(text[i])).is_some()
}

/// The number that hexadecimal text stands for; leading zeros do not count.
pub open spec fn hex_value(text: Seq<u8>) -> nat
    decreases text.len(),
{
    if text.len() == 0 {
        0
    } else {
        hex_value(text.drop_last()) * 16 + hex_digit_value(text.last()).unwrap_or(0)
    }
}

/// Hexadecimal text is made of digits and reads back as the number it was
/// made from.
pub proof fn lemma_hex_round_trip(n: nat)
    ensures
        is_hex(hex_number(n)),
        hex_value(hex_number(n)) == n,
    decreases n,
{
    if n < 16 {
        let text = hex_number(n);
        assert(text.drop_last() =~= Seq::<u8>::empty());
        assert(hex_value(text.drop_last()) == 0);
        assert(hex_digit_value(hex_digit(n)) == Some(n));
    } else {
        lemma_hex_round_trip(n / 16);
        let head = hex_number(n / 16);
        let text = head.push(hex_digit(n % 16));
        assert(text.drop_last() =~= head);
        assert(text.last() == hex_digit(n % 16));
        assert(hex_digit_value(hex_digit(n % 16)) == Some(n % 16));
        assert forall|i: int| 0 <= i < text.len() implies (#[trigger] hex_digit_value(
            text[i],
        )).is_some() by {
            if i < head.len() {
                assert(text[i] == head[i]);
            }
        }
    }
}

/// The value of hexadecimal text never falls below that of a part from its
/// start.
pub proof fn lemma_hex_value_grows(text: Seq<u8>, len: int)
    requires
        0 <= len <= text.len(),
    ensures
        hex_value(text.subrange(0, len)) <= hex_value(text),
    decreases text.len(),
{
    if len == text.len() {
        assert(text.subrange(0, len) =~= text);
    } else {
        let shorter = text.drop_last();
        lemma_hex_value_grows(shorter, len);
        assert(shorter.subrange(0, len) =~= text.subrange(0, len));
    }
}

/// Appends `n` in hexadecimal text to `out`.
pub fn push_hex(out: &mut Vec<u8>, n: u64)
    ensures
        final(out)@ == old(out)@ + hex_number(n as nat),
    decreases n,
{
    if n >= 16 {
        push_hex(out, n / 16);
    }
    let nibble: u8 = (n % 16) as u8;
    if nibble < 10 {
        out.push(0x30u8 + nibble);
    } else {
        out.push(0x57u8 + nibble);
    }
    assert(out@ =~= old(out)@ + hex_number(n as nat));
}

/// What `parse_hex` returns for `text`.
pub open spec fn parsed_hex(text: Seq<u8>) -> Option<u32> {
    if is_hex(text) && hex_value(text) <= u32::MAX {
        Some(hex_value(text) as u32)
    } else {
        None
    }
}

/// Reads hexadecimal text of either case as a number. Text that is empty,
/// holds anything but digits, or stands for more than 32 bits can hold is
/// refused.
pub fn parse_hex(text: &[u8]) -> (value: Option<u32>)
    ensures
        value == parsed_hex(text@),
{
    if text.len() == 0 {
        return None;
    }
    let mut acc: u64 = 0;
    let mut i: usize = 0;
    while i < text.len()
        invariant
            i <= text@.len(),
            forall|j: int| 0 <= j < i ==> (#[trigger] hex_digit_value(text@[j])).is_some(),
            acc == hex_value(text@.subrange(0, i as int)),
            acc <= u32::MAX,
        decreases text@.len() - i,
    {
        let byte = text[i];
        let digit: u64 = if 0x30 <= byte && byte <= 0x39 {
            (byte - 0x30) as u64
        } else if 0x61 <= byte && byte <= 0x66 {
            (byte - 0x57) as u64
        } else if 0x41 <= byte && byte <= 0x46 {
            (byte - 0x37) as u64
        } else {
            assert(hex_digit_value(text@[i as int]).is_none());
            return None;
        };
        let ghost before = text@.subrange(0, i as int);
        let ghost after = text@.subrange(0, i + 1);
        assert(after.drop_last() =~= before);
        assert(after.last() == byte);
        let next: u64 = acc * 16 + digit;
        if next > 0xffff_ffff {
            proof {
                lemma_hex_value_grows(text@, i + 1);
            }
            return None;
        }
        acc = next;
        i += 1;
    }
    assert(text@.subrange(0, i as int) =~= text@);
    Some(acc as u32)
}

} // verus!

//! Byte strings: comparison, search, and unsigned numbers in decimal text.

use vstd::prelude::*;
use vstd::string::*;

verus! {

/// The bytes of ASCII text: each character as its code.
pub open spec fn ascii_bytes(text: Seq<char>) -> Seq<u8> {
    Seq::new(text.len(), |i: int| text[i] as u8)
}

/// Whether `prefix` opens `bytes`.
pub open spec fn has_prefix(bytes: Seq<u8>, prefix: Seq<u8>) -> bool {
    prefix.len() <= bytes.len() && bytes.subrange(0, prefix.len() as int) == prefix
}

/// The first position of `byte` in `bytes`, if it occurs.
pub open spec fn first_index(bytes: Seq<u8>, byte: u8) -> Option<int> {
    if bytes.contains(byte) {
        Some(bytes.index_of_first(byte)->0)
    } else {
        None
    }
}

/// What `first_index` finds: the byte stands there and nowhere before.
pub proof fn lemma_first_index(bytes: Seq<u8>, byte: u8)
    ensures
        match first_index(bytes, byte) {
            Some(i) => 0 <= i < bytes.len() && bytes[i] == byte && forall|j: int|
                0 <= j < i ==> bytes[j] != byte,
            None => forall|j: int| 0 <= j < bytes.len() ==> bytes[j] != byte,
        },
{
    bytes.index_of_first_ensures(byte);
}

/// The only position that holds `byte` with none before it is the first one.
pub proof fn lemma_first_index_unique(bytes: Seq<u8>, byte: u8, i: int)
    requires
        0 <= i < bytes.len(),
        bytes[i] == byte,
        forall|j: int| 0 <= j < i ==> bytes[j] != byte,
    ensures
        first_index(bytes, byte) == Some(i),
{
    lemma_first_index(bytes, byte);
    let k = first_index(bytes, byte)->0;
    if k < i {
        assert(bytes[k] != byte);
    }
}

/// Appends `bytes` to `out`.
pub fn push_bytes(out: &mut Vec<u8>, bytes: &[u8])
    ensures
        final(out)@ == old(out)@ + bytes@,
{
    let mut i: usize = 0;
    while i < bytes.len()
        invariant
            i <= bytes@.len(),
            out@ == old(out)@ + bytes@.subrange(0, i as int),
        decreases bytes@.len() - i,
    {
        out.push(bytes[i]);
        i += 1;
        assert(out@ =~= old(out)@ + bytes@.subrange(0, i as int));
    }
    assert(bytes@.subrange(0, i as int) =~= bytes@);
}

/// A copy of `bytes` that owns its storage.
pub fn to_vec(bytes: &[u8]) -> (copy: Vec<u8>)
    ensures
        copy@ == bytes@,
{
    let mut copy: Vec<u8> = Vec::new();
    push_bytes(&mut copy, bytes);
    copy
}

/// Appends ASCII text to `out`, one byte per character.
pub(crate) fn push_ascii(out: &mut Vec<u8>, text: &str)
    requires
        text.is_ascii(),
    ensures
        final(out)@ == old(out)@ + ascii_bytes(text@),
{
    broadcast use is_ascii_spec_bytes;

    let bytes = text.as_bytes();
    assert(bytes@ =~= ascii_bytes(text@));
    push_bytes(out, bytes);
}

/// Whether two byte strings hold the same bytes.
pub fn bytes_equal(a: &[u8], b: &[u8]) -> (same: bool)
    ensures
        same == (a@ == b@),
{
    if a.len() != b.len() {
        return false;
    }
    let mut i: usize = 0;
    while i < a.len()
        invariant
            i <= a@.len(),
            a@.len() == b@.len(),
            forall|j: int| 0 <= j < i ==> a@[j] == b@[j],
        decreases a@.len() - i,
    {
        if a[i] != b[i] {
            return false;
        }
        i += 1;
    }
    assert(a@ =~= b@);
    true
}

/// Whether `bytes` equals the ASCII text `text`.
pub(crate) fn equals_ascii(bytes: &[u8], text: &str) -> (same: bool)
    requires
        text.is_ascii(),
    ensures
        same == (bytes@ == ascii_bytes(text@)),
{
    broadcast use is_ascii_spec_bytes;

    let other = text.as_bytes();
    assert(other@ =~= ascii_bytes(text@));
    bytes_equal(bytes, other)
}

/// Whether `prefix` opens `bytes`.
pub fn starts_with(bytes: &[u8], prefix: &[u8]) -> (found: bool)
    ensures
        found == has_prefix(bytes@, prefix@),
{
    if prefix.len() > bytes.len() {
        return false;
    }
    let mut i: usize = 0;
    while i < prefix.len()
        invariant
            i <= prefix@.len(),
            prefix@.len() <= bytes@.len(),
            forall|j: int| 0 <= j < i ==> bytes@[j] == prefix@[j],
        decreases prefix@.len() - i,
    {
        if bytes[i] != prefix[i] {
            assert(bytes@.subrange(0, prefix@.len() as int)[i as int] != prefix@[i as int]);
            return false;
        }
        i += 1;
    }
    assert(bytes@.subrange(0, prefix@.len() as int) =~= prefix@);
    true
}

/// The first position of `byte` in `bytes`, if it occurs.
pub fn find_byte(bytes: &[u8], byte: u8) -> (found: Option<usize>)
    ensures
        match found {
            Some(i) => first_index(bytes@, byte) == Some(i as int) && i < bytes@.len(),
            None => first_index(bytes@, byte).is_none(),
        },
{
    let mut i: usize = 0;
    while i < bytes.len()
        invariant
            i <= bytes@.len(),
            forall|j: int| 0 <= j < i ==> bytes@[j] != byte,
        decreases bytes@.len() - i,
    {
        if bytes[i] == byte {
            proof {
                lemma_first_index_unique(bytes@, byte, i as int);
            }
            return Some(i);
        }
        i += 1;
    }
    proof {
        lemma_first_index(bytes@, byte);
    }
    None
}

/// Whether `byte` occurs in `bytes`.
pub fn contains_byte(bytes: &[u8], byte: u8) -> (found: bool)
    ensures
        found == bytes@.contains(byte),
{
    find_byte(bytes, byte).is_some()
}

/// A copy of the bytes from position `from` up to, not including, `to`.
pub(crate) fn copy_range(bytes: &[u8], from: usize, to: usize) -> (part: Vec<u8>)
    requires
        from <= to <= bytes@.len(),
    ensures
        part@ == bytes@.subrange(from as int, to as int),
{
    let mut part: Vec<u8> = Vec::new();
    let mut i: usize = from;
    while i < to
        invariant
            from <= i <= to <= bytes@.len(),
            part@ == bytes@.subrange(from as int, i as int),
        decreases to - i,
    {
        part.push(bytes[i]);
        i += 1;
        assert(part@ =~= bytes@.subrange(from as int, i as int));
    }
    part
}

/// Whether `bytes` can stand as one word of a command: it is not empty and
/// holds no space, no tab and no NUL.
pub open spec fn is_token(bytes: Seq<u8>) -> bool {
    bytes.len() > 0 && forall|i: int|
        0 <= i < bytes.len() ==> {
            let b = #[trigger] bytes[i];
            b != 0x20 && b != 0x09 && b != 0
        }
}

/// Whether `bytes` can stand as one word of a command.
pub fn check_token(bytes: &[u8]) -> (token: bool)
    ensures
        token == is_token(bytes@),
{
    if bytes.len() == 0 {
        return false;
    }
    let mut i: usize = 0;
    while i < bytes.len()
        invariant
            i <= bytes@.len(),
            forall|j: int|
                0 <= j < i ==> {
                    let b = #[trigger] bytes@[j];
                    b != 0x20 && b != 0x09 && b != 0
                },
        decreases bytes@.len() - i,
    {
        let b = bytes[i];
        if b == 0x20 || b == 0x09 || b == 0 {
            return false;
        }
        i += 1;
    }
    true
}

/// Whether `byte` is one of the ASCII digits `0` to `9`.
pub open spec fn is_digit(byte: u8) -> bool {
    0x30 <= byte <= 0x39
}

/// A number in decimal text: no sign, no leading zero but for zero itself.
pub open spec fn decimal(n: nat) -> Seq<u8>
    decreases n,
{
    if n < 10 {
        seq![(0x30 + n) as u8]
    } else {
        decimal(n / 10).push((0x30 + n % 10) as u8)
    }
}

/// Whether `text` is a number in decimal: one digit or more, nothing else.
pub open spec fn is_decimal(text: Seq<u8>) -> bool {
    text.len() > 0 && forall|i: int| 0 <= i < text.len() ==> is_digit(#[trigger] text[i])
}

/// The number that decimal text stands for; leading zeros do not count.
pub open spec fn decimal_value(text: Seq<u8>) -> nat
    decreases text.len(),
{
    if text.len() == 0 {
        0
    } else {
        decimal_value(text.drop_last()) * 10 + (text.last() - 0x30) as nat
    }
}

/// Decimal text is made of digits and reads back as the number it was made
/// from.
pub proof fn lemma_decimal_round_trip(n: nat)
    ensures
        is_decimal(decimal(n)),
        decimal_value(decimal(n)) == n,
    decreases n,
{
    if n < 10 {
        let text = decimal(n);
        assert(text.drop_last() =~= Seq::<u8>::empty());
        assert(decimal_value(text.drop_last()) == 0);
    } else {
        lemma_decimal_round_trip(n / 10);
        let head = decimal(n / 10);
        let text = head.push((0x30 + n % 10) as u8);
        assert(text.drop_last() =~= head);
        assert(text.last() == (0x30 + n % 10) as u8);
    }
}

/// The value of decimal text never falls below that of a part from its start.
pub proof fn lemma_decimal_value_grows(text: Seq<u8>, len: int)
    requires
        0 <= len <= text.len(),
        forall|i: int| 0 <= i < text.len() ==> is_digit(#[trigger] text[i]),
    ensures
        decimal_value(text.subrange(0, len)) <= decimal_value(text),
    decreases text.len(),
{
    if len == text.len() {
        assert(text.subrange(0, len) =~= text);
    } else {
        let shorter = text.drop_last();
        lemma_decimal_value_grows(shorter, len);
        assert(shorter.subrange(0, len) =~= text.subrange(0, len));
    }
}

/// Appends `n` in decimal text to `out`.
pub fn push_decimal(out: &mut Vec<u8>, n: u64)
    ensures
        final(out)@ == old(out)@ + decimal(n as nat),
    decreases n,
{
    if n < 10 {
        out.push(0x30u8 + n as u8);
        assert(out@ =~= old(out)@ + decimal(n as nat));
    } else {
        push_decimal(out, n / 10);
        out.push(0x30u8 + (n % 10) as u8);
        assert(out@ =~= old(out)@ + decimal(n as nat));
    }
}

/// What `parse_decimal` returns for `text`.
pub open spec fn parsed_decimal(text: Seq<u8>) -> Option<u32> {
    if is_decimal(text) && decimal_value(text) <= u32::MAX {
        Some(decimal_value(text) as u32)
    } else {
        None
    }
}

/// Reads decimal text as a number. Text that is empty, holds anything but
/// digits, or stands for more than 32 bits can hold is refused.
pub fn parse_decimal(text: &[u8]) -> (value: Option<u32>)
    ensures
        value == parsed_decimal(text@),
{
    if text.len() == 0 {
        return None;
    }
    let mut acc: u64 = 0;
    let mut i: usize = 0;
    while i < text.len()
        invariant
            i <= text@.len(),
            forall|j: int| 0 <= j < i ==> is_digit(#[trigger] text@[j]),
            acc == decimal_value(text@.subrange(0, i as int)),
            acc <= u32::MAX,
        decreases text@.len() - i,
    {
        let byte = text[i];
        if byte < 0x30 || byte > 0x39 {
            return None;
        }
        let ghost before = text@.subrange(0, i as int);
        let ghost after = text@.subrange(0, i + 1);
        assert(after.drop_last() =~= before);
        assert(after.last() == byte);
        let next: u64 = acc * 10 + (byte - 0x30) as u64;
        if next > 0xffff_ffff {
            proof {
                if is_decimal(text@) {
                    lemma_decimal_value_grows(text@, i + 1);
                }
            }
            return None;
        }
        acc = next;
        i += 1;
    }
    assert(text@.subrange(0, i as int) =~= text@);
    Some(acc as u32)
}

} // verus!

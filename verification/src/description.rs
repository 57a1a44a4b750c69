//! What the kernel tells of a key: its type, its owner, its permissions
//! and its description. The kernel gives them as one line of text, the
//! fields parted by semicolons: the type's name, the user and the group in
//! decimal, the permissions in hexadecimal, then the description, which may
//! hold semicolons of its own.

use vstd::prelude::*;
use crate::hex::{hex_digit_value, hex_number, lemma_hex_round_trip, parse_hex, parsed_hex};
use crate::keytype::KeyKind;
use crate::text::{copy_range, find_byte, first_index, lemma_first_index, lemma_first_index_unique};
use crate::text::{decimal, is_digit, lemma_decimal_round_trip, parse_decimal, parsed_decimal};

verus! {

/// The byte that parts the fields.
pub const SEPARATOR: u8 = 0x3b;

/// What the kernel tells of a key. It is the state at the time of the
/// call: another process may change it at any moment.
#[derive(Clone, Debug, PartialEq, Eq, Hash)]
pub struct KeyDescription {
    /// The name of the key's type.
    pub key_type: Vec<u8>,
    /// The user that owns the key.
    pub uid: u32,
    /// The group of the key.
    pub gid: u32,
    /// The permission bits.
    pub perm: u32,
    /// The description of the key.
    pub description: Vec<u8>,
}

/// What the kernel tells of a key, as plain values.
pub struct KeyDescriptionView {
    pub key_type: Seq<u8>,
    pub uid: u32,
    pub gid: u32,
    pub perm: u32,
    pub description: Seq<u8>,
}

impl View for KeyDescription {
    type V = KeyDescriptionView;

    open spec fn view(&self) -> KeyDescriptionView {
        KeyDescriptionView {
            key_type: self.key_type@,
            uid: self.uid,
            gid: self.gid,
            perm: self.perm,
            description: self.description@,
        }
    }
}

impl KeyDescription {
    /// The key's type, where it is one that this crate knows.
    pub fn kind(&self) -> (kind: Option<KeyKind>)
        ensures
            kind == KeyKind::named(self.key_type@),
    {
        KeyKind::from_name(self.key_type.as_slice())
    }
}

/// The text without the NUL that closes it, where it is closed by one.
pub open spec fn without_terminator(text: Seq<u8>) -> Seq<u8> {
    if text.len() > 0 && text.last() == 0 {
        text.drop_last()
    } else {
        text
    }
}

/// The first field of `text` and what follows its separator, or `None`
/// where `text` holds no separator.
pub open spec fn split_field(text: Seq<u8>) -> Option<(Seq<u8>, Seq<u8>)> {
    match first_index(text, SEPARATOR) {
        Some(i) => Some((text.subrange(0, i), text.skip(i + 1))),
        None => None,
    }
}

/// What a line of the kernel says of a key, or `None` where the line is
/// not of the kernel's form: it has fewer than five fields, the type's name
/// is empty, or a number is not one.
pub open spec fn parsed_description(text: Seq<u8>) -> Option<KeyDescriptionView> {
    match split_field(text) {
        None => None,
        Some((key_type, after_type)) => match split_field(after_type) {
            None => None,
            Some((uid, after_uid)) => match split_field(after_uid) {
                None => None,
                Some((gid, after_gid)) => match split_field(after_gid) {
                    None => None,
                    Some((perm, description)) => if key_type.len() > 0 && parsed_decimal(
                        uid,
                    ).is_some() && parsed_decimal(gid).is_some() && parsed_hex(perm).is_some() {
                        Some(
                            KeyDescriptionView {
                                key_type,
                                uid: parsed_decimal(uid)->0,
                                gid: parsed_decimal(gid)->0,
                                perm: parsed_hex(perm)->0,
                                description,
                            },
                        )
                    } else {
                        None
                    },
                },
            },
        },
    }
}

/// The line that says `what` of a key, numbers without padding.
pub open spec fn description_text(what: KeyDescriptionView) -> Seq<u8> {
    what.key_type + seq![SEPARATOR] + decimal(what.uid as nat) + seq![SEPARATOR] + decimal(
        what.gid as nat,
    ) + seq![SEPARATOR] + hex_number(what.perm as nat) + seq![SEPARATOR] + what.description
}

fn take_field(text: &[u8]) -> (parts: Option<(Vec<u8>, Vec<u8>)>)
    ensures
        match parts {
            Some((field, rest)) => split_field(text@) == Some((field@, rest@)),
            None => split_field(text@).is_none(),
        },
{
    match find_byte(text, SEPARATOR) {
        Some(i) => {
            let len = text.len();
            assert(i < len);
            let field = copy_range(text, 0, i);
            let rest = copy_range(text, i + 1, len);
            assert(rest@ =~= text@.skip(i + 1));
            Some((field, rest))
        },
        None => None,
    }
}

/// Reads a line of the kernel. A NUL that closes the line is not part of
/// it.
pub fn parse_description(text: &[u8]) -> (what: Option<KeyDescription>)
    ensures
        match what {
            Some(w) => parsed_description(without_terminator(text@)) == Some(w@),
            None => parsed_description(without_terminator(text@)).is_none(),
        },
{
    let len = text.len();
    let line = if len > 0 && text[len - 1] == 0 {
        copy_range(text, 0, len - 1)
    } else {
        copy_range(text, 0, len)
    };
    assert(line@ =~= without_terminator(text@));
    let (key_type, after_type) = match take_field(line.as_slice()) {
        Some(parts) => parts,
        None => { return None; },
    };
    let (uid_text, after_uid) = match take_field(after_type.as_slice()) {
        Some(parts) => parts,
        None => { return None; },
    };
    let (gid_text, after_gid) = match take_field(after_uid.as_slice()) {
        Some(parts) => parts,
        None => { return None; },
    };
    let (perm_text, description) = match take_field(after_gid.as_slice()) {
        Some(parts) => parts,
        None => { return None; },
    };
    if key_type.len() == 0 {
        return None;
    }
    let uid = match parse_decimal(uid_text.as_slice()) {
        Some(n) => n,
        None => { return None; },
    };
    let gid = match parse_decimal(gid_text.as_slice()) {
        Some(n) => n,
        None => { return None; },
    };
    let perm = match parse_hex(perm_text.as_slice()) {
        Some(n) => n,
        None => { return None; },
    };
    Some(KeyDescription { key_type, uid, gid, perm, description })
}

/// A field that holds no separator is split off whole from what follows
/// it.
pub proof fn lemma_split_field(field: Seq<u8>, rest: Seq<u8>)
    requires
        !field.contains(SEPARATOR),
    ensures
        split_field(field + seq![SEPARATOR] + rest) == Some((field, rest)),
{
    let text = field + seq![SEPARATOR] + rest;
    let i = field.len() as int;
    assert(text[i] == SEPARATOR);
    assert forall|j: int| 0 <= j < i implies text[j] != SEPARATOR by {
        assert(text[j] == field[j]);
        assert(field.contains(field[j]));
    }
    lemma_first_index_unique(text, SEPARATOR, i);
    assert(text.subrange(0, i) =~= field);
    assert(text.skip(i + 1) =~= rest);
}

/// What is split off as a field holds no separator, and the text is the
/// field, one separator and the rest.
pub proof fn lemma_split_field_is_exact(text: Seq<u8>)
    requires
        split_field(text).is_some(),
    ensures
        match split_field(text) {
            Some((field, rest)) => !field.contains(SEPARATOR) && text == field + seq![SEPARATOR]
                + rest,
            None => false,
        },
{
    lemma_first_index(text, SEPARATOR);
    let i = first_index(text, SEPARATOR)->0;
    let field = text.subrange(0, i);
    let rest = text.skip(i + 1);
    assert(text =~= field + seq![SEPARATOR] + rest);
    if field.contains(SEPARATOR) {
        let j = choose|j: int| 0 <= j < field.len() && field[j] == SEPARATOR;
        assert(text[j] == field[j]);
    }
}

/// A line that says something of a key reads back as what it says,
/// whatever the description holds, provided the type's name is not empty
/// and holds no semicolon.
pub proof fn lemma_description_round_trip(what: KeyDescriptionView)
    requires
        what.key_type.len() > 0,
        !what.key_type.contains(SEPARATOR),
    ensures
        parsed_description(description_text(what)) == Some(what),
{
    let uid = decimal(what.uid as nat);
    let gid = decimal(what.gid as nat);
    let perm = hex_number(what.perm as nat);
    lemma_decimal_round_trip(what.uid as nat);
    lemma_decimal_round_trip(what.gid as nat);
    lemma_hex_round_trip(what.perm as nat);
    assert(!uid.contains(SEPARATOR)) by {
        if uid.contains(SEPARATOR) {
            let i = choose|i: int| 0 <= i < uid.len() && uid[i] == SEPARATOR;
            assert(is_digit(uid[i]));
        }
    }
    assert(!gid.contains(SEPARATOR)) by {
        if gid.contains(SEPARATOR) {
            let i = choose|i: int| 0 <= i < gid.len() && gid[i] == SEPARATOR;
            assert(is_digit(gid[i]));
        }
    }
    assert(!perm.contains(SEPARATOR)) by {
        if perm.contains(SEPARATOR) {
            let i = choose|i: int| 0 <= i < perm.len() && perm[i] == SEPARATOR;
            assert(hex_digit_value(perm[i]).is_some());
        }
    }
    let after_gid = perm + seq![SEPARATOR] + what.description;
    let after_uid = gid + seq![SEPARATOR] + after_gid;
    let after_type = uid + seq![SEPARATOR] + after_uid;
    let text = what.key_type + seq![SEPARATOR] + after_type;
    assert(text =~= description_text(what));
    lemma_split_field(what.key_type, after_type);
    lemma_split_field(uid, after_uid);
    lemma_split_field(gid, after_gid);
    lemma_split_field(perm, what.description);
}

} // verus!

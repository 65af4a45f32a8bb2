//! Identifiers of patterns, steps and users, and how they are written.
//!
//! An identifier is a UUID held as its 128 bits. It is written as 32
//! lower-case hexadecimal digits in groups of 8, 4, 4, 4 and 12, with a
//! hyphen between the groups.

use crate::store::rows::Timestamp;
use vstd::prelude::*;
use vstd::string::*;

verus! {

/// The character that writes a single hexadecimal digit, in lower case.
pub open spec fn hex_char(d: nat) -> char {
    if d == 0 {
        '0'
    } else if d == 1 {
        '1'
    } else if d == 2 {
        '2'
    } else if d == 3 {
        '3'
    } else if d == 4 {
        '4'
    } else if d == 5 {
        '5'
    } else if d == 6 {
        '6'
    } else if d == 7 {
        '7'
    } else if d == 8 {
        '8'
    } else if d == 9 {
        '9'
    } else if d == 10 {
        'a'
    } else if d == 11 {
        'b'
    } else if d == 12 {
        'c'
    } else if d == 13 {
        'd'
    } else if d == 14 {
        'e'
    } else {
        'f'
    }
}

/// The last `width` hexadecimal digits of `n`, most significant first.
pub open spec fn hex_padded(n: nat, width: nat) -> Seq<char>
    decreases width,
{
    if width == 0 {
        Seq::empty()
    } else {
        hex_padded(n / 16, (width - 1) as nat).push(hex_char(n % 16))
    }
}

/// The text of an identifier: its digits in groups of 8, 4, 4, 4 and 12.
pub open spec fn id_text(id: u128) -> Seq<char> {
    hex_padded((id / 0x1_0000_0000_0000_0000_0000_0000) as nat, 8) + seq!['-'] + hex_padded(
        (id / 0x1_0000_0000_0000_0000_0000) as nat,
        4,
    ) + seq!['-'] + hex_padded((id / 0x1_0000_0000_0000_0000) as nat, 4) + seq!['-'] + hex_padded(
        (id / 0x1_0000_0000_0000) as nat,
        4,
    ) + seq!['-'] + hex_padded(id as nat, 12)
}

fn hex_text(d: u128) -> (t: &'static str)
    requires
        d < 16,
    ensures
        t@ == seq![hex_char(d as nat)],
{
    proof {
        reveal_strlit("0");
        reveal_strlit("1");
        reveal_strlit("2");
        reveal_strlit("3");
        reveal_strlit("4");
        reveal_strlit("5");
        reveal_strlit("6");
        reveal_strlit("7");
        reveal_strlit("8");
        reveal_strlit("9");
        reveal_strlit("a");
        reveal_strlit("b");
        reveal_strlit("c");
        reveal_strlit("d");
        reveal_strlit("e");
        reveal_strlit("f");
    }
    let t = if d == 0 {
        "0"
    } else if d == 1 {
        "1"
    } else if d == 2 {
        "2"
    } else if d == 3 {
        "3"
    } else if d == 4 {
        "4"
    } else if d == 5 {
        "5"
    } else if d == 6 {
        "6"
    } else if d == 7 {
        "7"
    } else if d == 8 {
        "8"
    } else if d == 9 {
        "9"
    } else if d == 10 {
        "a"
    } else if d == 11 {
        "b"
    } else if d == 12 {
        "c"
    } else if d == 13 {
        "d"
    } else if d == 14 {
        "e"
    } else {
        "f"
    };
    t
}

fn push_hex(out: &mut String, n: u128, width: u8)
    ensures
        final(out)@ == old(out)@ + hex_padded(n as nat, width as nat),
    decreases width,
{
    if width > 0 {
        push_hex(out, n / 16, width - 1);
        out.append(hex_text(n % 16));
    }
}

fn push_hyphen(out: &mut String)
    ensures
        final(out)@ == old(out)@ + seq!['-'],
{
    proof {
        reveal_strlit("-");
    }
    out.append("-");
}

/// Appends the text of an identifier to `out`.
pub fn push_id(out: &mut String, id: u128)
    ensures
        final(out)@ == old(out)@ + id_text(id),
{
    push_hex(out, id / 0x1_0000_0000_0000_0000_0000_0000, 8);
    push_hyphen(out);
    push_hex(out, id / 0x1_0000_0000_0000_0000_0000, 4);
    push_hyphen(out);
    push_hex(out, id / 0x1_0000_0000_0000_0000, 4);
    push_hyphen(out);
    push_hex(out, id / 0x1_0000_0000_0000, 4);
    push_hyphen(out);
    push_hex(out, id, 12);
}

/// Writes an identifier as text.
pub fn id_to_string(id: u128) -> (text: String)
    ensures
        text@ == id_text(id),
{
    let mut text = String::new();
    push_id(&mut text, id);
    text
}

/// Draws a fresh identifier with `Uuid::new_v4` of the `uuid` crate. The bits
/// are random, so nothing is claimed about them.
#[verifier::external_body]
pub(crate) fn fresh_id() -> u128 {
    uuid::Uuid::new_v4().as_u128()
}

/// Reads the clock with `Utc::now` of the `chrono` crate, to the microsecond.
/// Nothing is claimed about the time read.
#[verifier::external_body]
pub(crate) fn now() -> Timestamp {
    Timestamp { micros: chrono::Utc::now().timestamp_micros() }
}

} // verus!

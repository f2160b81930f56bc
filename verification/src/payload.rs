//! JSON framing of the notification payload.
//!
//! The payload delivered to a push endpoint is one JSON document with the
//! notification's title and body as its two string members. The framing —
//! escaping included — is the library's own logic, defined here over the
//! UTF-8 bytes of the two strings and proved against that definition.

use vstd::prelude::*;
use vstd::string::StringSliceAdditionalSpecFns;
use vstd::utf8::encode_utf8;

verus! {

/// The byte of the lower-case hexadecimal digit for `i`.
pub open spec fn hex_digit_byte(i: int) -> u8 {
    if i == 0 {
        0x30
    } else if i == 1 {
        0x31
    } else if i == 2 {
        0x32
    } else if i == 3 {
        0x33
    } else if i == 4 {
        0x34
    } else if i == 5 {
        0x35
    } else if i == 6 {
        0x36
    } else if i == 7 {
        0x37
    } else if i == 8 {
        0x38
    } else if i == 9 {
        0x39
    } else if i == 10 {
        0x61
    } else if i == 11 {
        0x62
    } else if i == 12 {
        0x63
    } else if i == 13 {
        0x64
    } else if i == 14 {
        0x65
    } else {
        0x66
    }
}

/// How one byte of a string member appears inside the JSON document: the
/// quote and the backslash carry a backslash escape, the five control
/// bytes with short escapes use them, every other control byte is written
/// as a four-digit escape, and all remaining bytes — every byte of a
/// multi-byte UTF-8 character among them — stand as themselves.
pub open spec fn escape_byte(b: u8) -> Seq<u8> {
    if b == 0x22 {
        seq![0x5cu8, 0x22u8]
    } else if b == 0x5c {
        seq![0x5cu8, 0x5cu8]
    } else if b == 0x08 {
        seq![0x5cu8, 0x62u8]
    } else if b == 0x09 {
        seq![0x5cu8, 0x74u8]
    } else if b == 0x0a {
        seq![0x5cu8, 0x6eu8]
    } else if b == 0x0c {
        seq![0x5cu8, 0x66u8]
    } else if b == 0x0d {
        seq![0x5cu8, 0x72u8]
    } else if b < 0x20 {
        seq![
            0x5cu8,
            0x75u8,
            0x30u8,
            0x30u8,
            hex_digit_byte(b as int / 16),
            hex_digit_byte(b as int % 16),
        ]
    } else {
        seq![b]
    }
}

/// The JSON escaping of a whole string, byte for byte.
pub open spec fn escape_bytes(s: Seq<u8>) -> Seq<u8>
    decreases s.len(),
{
    if s.len() == 0 {
        Seq::empty()
    } else {
        escape_byte(s[0]) + escape_bytes(s.drop_first())
    }
}

/// Escaping one more byte extends the escaped string by that byte's
/// escape.
pub proof fn lemma_escape_bytes_push(s: Seq<u8>, b: u8)
    ensures
        escape_bytes(s.push(b)) == escape_bytes(s) + escape_byte(b),
    decreases s.len(),
{
    if s.len() == 0 {
        assert(s.push(b).drop_first() =~= s);
        assert(s.push(b)[0] == b);
        assert(escape_bytes(s.push(b)) =~= escape_bytes(s) + escape_byte(b));
    } else {
        assert(s.push(b).drop_first() =~= s.drop_first().push(b));
        assert(s.push(b)[0] == s[0]);
        lemma_escape_bytes_push(s.drop_first(), b);
        assert(escape_bytes(s.push(b)) =~= escape_bytes(s) + escape_byte(b));
    }
}

/// The JSON document carrying a notification: its title and body as the
/// two string members, in this order.
pub open spec fn notification_json(title: Seq<char>, body: Seq<char>) -> Seq<u8> {
    "{\"title\":\"".spec_bytes() + escape_bytes(encode_utf8(title)) + "\",\"body\":\"".spec_bytes()
        + escape_bytes(encode_utf8(body)) + "\"}".spec_bytes()
}

/// Appends `bytes` to `out`, unchanged.
fn append_bytes(out: &mut Vec<u8>, bytes: &[u8])
    ensures
        final(out)@ == old(out)@ + bytes@,
{
    let mut i: usize = 0;
    while i < bytes.len()
        invariant
            i <= bytes@.len(),
            out@ == old(out)@ + bytes@.take(i as int),
        decreases bytes@.len() - i,
    {
        out.push(bytes[i]);
        i += 1;
        proof {
            assert(bytes@.take(i as int) =~= bytes@.take(i - 1).push(bytes@[i - 1]));
        }
    }
    proof {
        assert(bytes@.take(bytes@.len() as int) =~= bytes@);
    }
}

/// The byte of the lower-case hexadecimal digit for `v`.
fn hex_digit(v: u8) -> (r: u8)
    requires
        v < 16,
    ensures
        r == hex_digit_byte(v as int),
{
    if v < 10 {
        0x30 + v
    } else {
        0x57 + v
    }
}

/// Appends the JSON escaping of `s` to `out`.
fn escape_into(out: &mut Vec<u8>, s: &[u8])
    ensures
        final(out)@ == old(out)@ + escape_bytes(s@),
{
    let mut i: usize = 0;
    while i < s.len()
        invariant
            i <= s@.len(),
            out@ == old(out)@ + escape_bytes(s@.take(i as int)),
        decreases s@.len() - i,
    {
        let b = s[i];
        if b == 0x22 || b == 0x5c {
            out.push(0x5c);
            out.push(b);
        } else if b == 0x08 {
            out.push(0x5c);
            out.push(0x62);
        } else if b == 0x09 {
            out.push(0x5c);
            out.push(0x74);
        } else if b == 0x0a {
            out.push(0x5c);
            out.push(0x6e);
        } else if b == 0x0c {
            out.push(0x5c);
            out.push(0x66);
        } else if b == 0x0d {
            out.push(0x5c);
            out.push(0x72);
        } else if b < 0x20 {
            out.push(0x5c);
            out.push(0x75);
            out.push(0x30);
            out.push(0x30);
            out.push(hex_digit(b / 16));
            out.push(hex_digit(b % 16));
        } else {
            out.push(b);
        }
        i += 1;
        proof {
            lemma_escape_bytes_push(s@.take(i - 1), s@[i - 1]);
            assert(s@.take(i as int) =~= s@.take(i - 1).push(s@[i - 1]));
            assert(out@ =~= old(out)@ + escape_bytes(s@.take(i as int)));
        }
    }
    proof {
        assert(s@.take(s@.len() as int) =~= s@);
    }
}

/// Frames the JSON payload carrying a notification with this title and
/// body.
pub fn encode_notification_json(title: &str, body: &str) -> (r: Vec<u8>)
    ensures
        r@ == notification_json(title@, body@),
{
    let mut out: Vec<u8> = Vec::new();
    append_bytes(&mut out, "{\"title\":\"".as_bytes());
    escape_into(&mut out, title.as_bytes());
    append_bytes(&mut out, "\",\"body\":\"".as_bytes());
    escape_into(&mut out, body.as_bytes());
    append_bytes(&mut out, "\"}".as_bytes());
    proof {
        assert(out@ =~= notification_json(title@, body@));
    }
    out
}

} // verus!

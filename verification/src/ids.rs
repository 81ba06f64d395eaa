//! User identifiers: generation of fresh 128-bit identifiers and their
//! renderings as hyphenated hexadecimal text and as big-endian bytes.

use vstd::prelude::*;

verus! {

/// The lowercase hexadecimal digit for a value below sixteen.
pub open spec fn hex_char(d: nat) -> char {
    if d == 0 {
        '0'
    } else if d == 1 {
        '1'
    } else if d == 2 {
        '2'
    } else if d == 3 {
        '3'
    } else if d == 4 {
        '4'
    } else if d == 5 {
        '5'
    } else if d == 6 {
        '6'
    } else if d == 7 {
        '7'
    } else if d == 8 {
        '8'
    } else if d == 9 {
        '9'
    } else if d == 10 {
        'a'
    } else if d == 11 {
        'b'
    } else if d == 12 {
        'c'
    } else if d == 13 {
        'd'
    } else if d == 14 {
        'e'
    } else {
        'f'
    }
}

/// `n` written with exactly `digits` lowercase hexadecimal digits,
/// most significant first.
pub open spec fn hex_of(n: nat, digits: nat) -> Seq<char>
    decreases digits,
{
    if digits == 0 {
        Seq::empty()
    } else {
        hex_of(n / 16, (digits - 1) as nat).push(hex_char(n % 16))
    }
}

/// The canonical hyphenated rendering of a 128-bit identifier:
/// five lowercase hexadecimal groups of 8, 4, 4, 4 and 12 digits.
pub open spec fn uuid_str(id: nat) -> Seq<char> {
    hex_of(id / 0x1000000000000000000000000, 8) + seq!['-'] + hex_of(
        (id / 0x100000000000000000000) % 0x10000,
        4,
    ) + seq!['-'] + hex_of((id / 0x10000000000000000) % 0x10000, 4) + seq!['-'] + hex_of(
        (id / 0x1000000000000) % 0x10000,
        4,
    ) + seq!['-'] + hex_of(id % 0x1000000000000, 12)
}

/// `n` written with exactly `len` big-endian bytes.
pub open spec fn be_bytes_of(n: nat, len: nat) -> Seq<u8>
    decreases len,
{
    if len == 0 {
        Seq::empty()
    } else {
        be_bytes_of(n / 256, (len - 1) as nat).push((n % 256) as u8)
    }
}

/// Relies on uuid's `Uuid::new_v4`: a random identifier whose version-4
/// and variant bits are forced on, so the value is never the nil UUID.
#[verifier::external_body]
pub(crate) fn fresh_user_id() -> (r: u128)
    ensures
        r != 0,
{
    uuid::Uuid::new_v4().as_u128()
}

fn push_hex_digit(s: &mut String, d: u8)
    requires
        d < 16,
    ensures
        final(s)@ == old(s)@.push(hex_char(d as nat)),
{
    proof {
        reveal_strlit("0");
        reveal_strlit("1");
        reveal_strlit("2");
        reveal_strlit("3");
        reveal_strlit("4");
        reveal_strlit("5");
        reveal_strlit("6");
        reveal_strlit("7");
        reveal_strlit("8");
        reveal_strlit("9");
        reveal_strlit("a");
        reveal_strlit("b");
        reveal_strlit("c");
        reveal_strlit("d");
        reveal_strlit("e");
        reveal_strlit("f");
    }
    if d == 0 {
        s.append("0");
    } else if d == 1 {
        s.append("1");
    } else if d == 2 {
        s.append("2");
    } else if d == 3 {
        s.append("3");
    } else if d == 4 {
        s.append("4");
    } else if d == 5 {
        s.append("5");
    } else if d == 6 {
        s.append("6");
    } else if d == 7 {
        s.append("7");
    } else if d == 8 {
        s.append("8");
    } else if d == 9 {
        s.append("9");
    } else if d == 10 {
        s.append("a");
    } else if d == 11 {
        s.append("b");
    } else if d == 12 {
        s.append("c");
    } else if d == 13 {
        s.append("d");
    } else if d == 14 {
        s.append("e");
    } else {
        s.append("f");
    }
    proof {
        assert(s@ =~= old(s)@.push(hex_char(d as nat)));
    }
}

fn hex_digits(n: u128, digits: usize) -> (r: String)
    ensures
        r@ == hex_of(n as nat, digits as nat),
    decreases digits,
{
    if digits == 0 {
        String::new()
    } else {
        let mut s = hex_digits(n / 16, digits - 1);
        push_hex_digit(&mut s, (n % 16) as u8);
        s
    }
}

/// Writes a 128-bit identifier in its canonical hyphenated form.
pub fn uuid_hyphenated(id: u128) -> (r: String)
    ensures
        r@ == uuid_str(id as nat),
{
    proof {
        reveal_strlit("-");
    }
    let mut s = hex_digits(id / 0x1000000000000000000000000, 8);
    s.append("-");
    let g2 = hex_digits((id / 0x100000000000000000000) % 0x10000, 4);
    s.append(g2.as_str());
    s.append("-");
    let g3 = hex_digits((id / 0x10000000000000000) % 0x10000, 4);
    s.append(g3.as_str());
    s.append("-");
    let g4 = hex_digits((id / 0x1000000000000) % 0x10000, 4);
    s.append(g4.as_str());
    s.append("-");
    let g5 = hex_digits(id % 0x1000000000000, 12);
    s.append(g5.as_str());
    proof {
        assert(s@ =~= uuid_str(id as nat));
    }
    s
}

fn be_bytes_rec(n: u128, len: usize) -> (r: Vec<u8>)
    ensures
        r@ == be_bytes_of(n as nat, len as nat),
    decreases len,
{
    if len == 0 {
        Vec::new()
    } else {
        let mut v = be_bytes_rec(n / 256, len - 1);
        v.push((n % 256) as u8);
        v
    }
}

/// The sixteen big-endian bytes of a 128-bit identifier, the layout in
/// which identifiers are stored.
pub fn u128_be_bytes(id: u128) -> (r: Vec<u8>)
    ensures
        r@ == be_bytes_of(id as nat, 16),
{
    be_bytes_rec(id, 16)
}

} // verus!

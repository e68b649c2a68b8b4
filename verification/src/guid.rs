//! 128-bit globally unique identifiers, and the fixed set of class and
//! interface identifiers this module knows: three activatable classes, the
//! one interface each class exposes, the universal reference-counting
//! interface, and the identifier of the single advertised codec.

use vstd::prelude::*;
use vstd::string::StringExecFns;

verus! {

/// A 128-bit globally unique identifier, laid out as one 32-bit group, two
/// 16-bit groups and eight trailing bytes.
#[derive(Clone, Copy, PartialEq, Eq, Debug)]
pub struct Guid {
    pub data1: u32,
    pub data2: u16,
    pub data3: u16,
    pub data4: [u8; 8],
}

/// Class identifier of the client session class.
pub open spec fn spec_clsid_client() -> Guid {
    Guid {
        data1: 0xB9F3EB85,
        data2: 0xB781,
        data3: 0x4AC1,
        data4: [0x8D, 0x90, 0x93, 0xA0, 0x5E, 0xE3, 0x7D, 0x7D],
    }
}

/// Class identifier of the server session class.
pub open spec fn spec_clsid_server() -> Guid {
    Guid {
        data1: 0xD3F5B8E6,
        data2: 0x9B78,
        data3: 0x4A4C,
        data4: [0x94, 0xEA, 0xCA, 0x23, 0x97, 0xB6, 0x63, 0xD3],
    }
}

/// Class identifier of the capability-probe class.
pub open spec fn spec_clsid_test() -> Guid {
    Guid {
        data1: 0x0F0F094B,
        data2: 0xB01C,
        data3: 0x4091,
        data4: [0xA1, 0x4D, 0xDD, 0x0C, 0xD8, 0x07, 0x71, 0x1A],
    }
}

/// Interface identifier of the client session interface.
pub open spec fn spec_iid_client() -> Guid {
    Guid {
        data1: 0x1DFDC8EA,
        data2: 0xBCF7,
        data3: 0x41D6,
        data4: [0xB2, 0x95, 0xAB, 0x64, 0xB3, 0xB2, 0x33, 0x06],
    }
}

/// Interface identifier of the server session interface.
pub open spec fn spec_iid_server() -> Guid {
    Guid {
        data1: 0xFAA1C173,
        data2: 0x0468,
        data3: 0x43B6,
        data4: [0x8A, 0x2A, 0xEA, 0x8A, 0x4F, 0x20, 0x76, 0xC9],
    }
}

/// Interface identifier of the capability-probe interface.
pub open spec fn spec_iid_test() -> Guid {
    Guid {
        data1: 0xD26AF734,
        data2: 0x208B,
        data3: 0x41DA,
        data4: [0x82, 0x24, 0xE0, 0xCE, 0x79, 0x81, 0x0B, 0xE1],
    }
}

/// Interface identifier of the universal reference-counting and
/// interface-negotiation capability every object supports.
pub open spec fn spec_iid_unknown() -> Guid {
    Guid {
        data1: 0x00000000,
        data2: 0x0000,
        data3: 0x0000,
        data4: [0xC0, 0x00, 0x00, 0x00, 0x00, 0x00, 0x00, 0x46],
    }
}

/// Identifier of the single advertised codec, a PCM encoding.
pub open spec fn spec_pcm_codec_type() -> Guid {
    Guid {
        data1: 0x8DE12FD4,
        data2: 0x7CB3,
        data3: 0x48CE,
        data4: [0xA7, 0xE8, 0x9C, 0x47, 0xA2, 0x2E, 0x8A, 0xC5],
    }
}

/// Builds the class identifier of the client session class.
pub fn clsid_client() -> (g: Guid)
    ensures
        g == spec_clsid_client(),
{
    Guid {
        data1: 0xB9F3EB85,
        data2: 0xB781,
        data3: 0x4AC1,
        data4: [0x8D, 0x90, 0x93, 0xA0, 0x5E, 0xE3, 0x7D, 0x7D],
    }
}

/// Builds the class identifier of the server session class.
pub fn clsid_server() -> (g: Guid)
    ensures
        g == spec_clsid_server(),
{
    Guid {
        data1: 0xD3F5B8E6,
        data2: 0x9B78,
        data3: 0x4A4C,
        data4: [0x94, 0xEA, 0xCA, 0x23, 0x97, 0xB6, 0x63, 0xD3],
    }
}

/// Builds the class identifier of the capability-probe class.
pub fn clsid_test() -> (g: Guid)
    ensures
        g == spec_clsid_test(),
{
    Guid {
        data1: 0x0F0F094B,
        data2: 0xB01C,
        data3: 0x4091,
        data4: [0xA1, 0x4D, 0xDD, 0x0C, 0xD8, 0x07, 0x71, 0x1A],
    }
}

/// Builds the interface identifier of the client session interface.
pub fn iid_client() -> (g: Guid)
    ensures
        g == spec_iid_client(),
{
    Guid {
        data1: 0x1DFDC8EA,
        data2: 0xBCF7,
        data3: 0x41D6,
        data4: [0xB2, 0x95, 0xAB, 0x64, 0xB3, 0xB2, 0x33, 0x06],
    }
}

/// Builds the interface identifier of the server session interface.
pub fn iid_server() -> (g: Guid)
    ensures
        g == spec_iid_server(),
{
    Guid {
        data1: 0xFAA1C173,
        data2: 0x0468,
        data3: 0x43B6,
        data4: [0x8A, 0x2A, 0xEA, 0x8A, 0x4F, 0x20, 0x76, 0xC9],
    }
}

/// Builds the interface identifier of the capability-probe interface.
pub fn iid_test() -> (g: Guid)
    ensures
        g == spec_iid_test(),
{
    Guid {
        data1: 0xD26AF734,
        data2: 0x208B,
        data3: 0x41DA,
        data4: [0x82, 0x24, 0xE0, 0xCE, 0x79, 0x81, 0x0B, 0xE1],
    }
}

/// Builds the interface identifier of the universal reference-counting
/// capability.
pub fn iid_unknown() -> (g: Guid)
    ensures
        g == spec_iid_unknown(),
{
    Guid {
        data1: 0x00000000,
        data2: 0x0000,
        data3: 0x0000,
        data4: [0xC0, 0x00, 0x00, 0x00, 0x00, 0x00, 0x00, 0x46],
    }
}

/// Builds the identifier of the single advertised codec.
pub fn pcm_codec_type() -> (g: Guid)
    ensures
        g == spec_pcm_codec_type(),
{
    Guid {
        data1: 0x8DE12FD4,
        data2: 0x7CB3,
        data3: 0x48CE,
        data4: [0xA7, 0xE8, 0x9C, 0x47, 0xA2, 0x2E, 0x8A, 0xC5],
    }
}

/// The character for one hexadecimal digit, upper case.
pub open spec fn spec_hex_char(d: u8) -> char {
    if d == 0 {
        '0'
    } else if d == 1 {
        '1'
    } else if d == 2 {
        '2'
    } else if d == 3 {
        '3'
    } else if d == 4 {
        '4'
    } else if d == 5 {
        '5'
    } else if d == 6 {
        '6'
    } else if d == 7 {
        '7'
    } else if d == 8 {
        '8'
    } else if d == 9 {
        '9'
    } else if d == 10 {
        'A'
    } else if d == 11 {
        'B'
    } else if d == 12 {
        'C'
    } else if d == 13 {
        'D'
    } else if d == 14 {
        'E'
    } else {
        'F'
    }
}

/// Two hexadecimal digits of a byte, high digit first.
pub open spec fn spec_hex_byte(b: u8) -> Seq<char> {
    seq![spec_hex_char(b >> 4), spec_hex_char(b & 0xF)]
}

/// Four hexadecimal digits of a 16-bit group, most significant first.
pub open spec fn spec_hex_u16(x: u16) -> Seq<char> {
    spec_hex_byte((x >> 8) as u8) + spec_hex_byte(x as u8)
}

/// Eight hexadecimal digits of a 32-bit group, most significant first.
pub open spec fn spec_hex_u32(x: u32) -> Seq<char> {
    spec_hex_byte((x >> 24) as u8) + spec_hex_byte((x >> 16) as u8) + spec_hex_byte(
        (x >> 8) as u8,
    ) + spec_hex_byte(x as u8)
}

/// The canonical text of an identifier: five dash-separated groups of upper
/// case hexadecimal digits, the trailing eight bytes split two and six.
pub open spec fn spec_guid_text(g: Guid) -> Seq<char> {
    spec_hex_u32(g.data1) + "-"@ + spec_hex_u16(g.data2) + "-"@ + spec_hex_u16(g.data3) + "-"@
        + spec_hex_byte(g.data4[0]) + spec_hex_byte(g.data4[1]) + "-"@ + spec_hex_byte(g.data4[2])
        + spec_hex_byte(g.data4[3]) + spec_hex_byte(g.data4[4]) + spec_hex_byte(g.data4[5])
        + spec_hex_byte(g.data4[6]) + spec_hex_byte(g.data4[7])
}

/// The text of one hexadecimal digit, upper case.
fn hex_char_str(d: u8) -> (r: &'static str)
    requires
        d < 16,
    ensures
        r@ == seq![spec_hex_char(d)],
{
    let r: &'static str = match d {
        0 => "0",
        1 => "1",
        2 => "2",
        3 => "3",
        4 => "4",
        5 => "5",
        6 => "6",
        7 => "7",
        8 => "8",
        9 => "9",
        10 => "A",
        11 => "B",
        12 => "C",
        13 => "D",
        14 => "E",
        _ => "F",
    };
    proof {
        reveal_strlit("0");
        reveal_strlit("1");
        reveal_strlit("2");
        reveal_strlit("3");
        reveal_strlit("4");
        reveal_strlit("5");
        reveal_strlit("6");
        reveal_strlit("7");
        reveal_strlit("8");
        reveal_strlit("9");
        reveal_strlit("A");
        reveal_strlit("B");
        reveal_strlit("C");
        reveal_strlit("D");
        reveal_strlit("E");
        reveal_strlit("F");
        assert(r@ =~= seq![spec_hex_char(d)]);
    }
    r
}

/// Appends the two hexadecimal digits of a byte.
fn push_hex_byte(out: &mut String, b: u8)
    ensures
        final(out)@ == old(out)@ + spec_hex_byte(b),
{
    proof {
        assert(b >> 4 < 16 && b & 0xF < 16) by (bit_vector);
    }
    out.append(hex_char_str(b >> 4));
    out.append(hex_char_str(b & 0xF));
    assert(out@ =~= old(out)@ + spec_hex_byte(b));
}

/// Appends the four hexadecimal digits of a 16-bit group.
fn push_hex_u16(out: &mut String, x: u16)
    ensures
        final(out)@ == old(out)@ + spec_hex_u16(x),
{
    push_hex_byte(out, (x >> 8) as u8);
    push_hex_byte(out, x as u8);
    assert(out@ =~= old(out)@ + spec_hex_u16(x));
}

/// Appends the eight hexadecimal digits of a 32-bit group.
fn push_hex_u32(out: &mut String, x: u32)
    ensures
        final(out)@ == old(out)@ + spec_hex_u32(x),
{
    push_hex_byte(out, (x >> 24) as u8);
    push_hex_byte(out, (x >> 16) as u8);
    push_hex_byte(out, (x >> 8) as u8);
    push_hex_byte(out, x as u8);
    assert(out@ =~= old(out)@ + spec_hex_u32(x));
}

/// Renders an identifier as its canonical dash-separated text.
pub fn guid_text(g: &Guid) -> (s: String)
    ensures
        s@ == spec_guid_text(*g),
{
    let mut out = String::new();
    push_hex_u32(&mut out, g.data1);
    out.append("-");
    push_hex_u16(&mut out, g.data2);
    out.append("-");
    push_hex_u16(&mut out, g.data3);
    out.append("-");
    push_hex_byte(&mut out, g.data4[0]);
    push_hex_byte(&mut out, g.data4[1]);
    out.append("-");
    push_hex_byte(&mut out, g.data4[2]);
    push_hex_byte(&mut out, g.data4[3]);
    push_hex_byte(&mut out, g.data4[4]);
    push_hex_byte(&mut out, g.data4[5]);
    push_hex_byte(&mut out, g.data4[6]);
    push_hex_byte(&mut out, g.data4[7]);
    assert(out@ =~= spec_guid_text(*g));
    out
}

/// Compares two identifiers for equality, field by field.
pub fn guid_eq(a: &Guid, b: &Guid) -> (r: bool)
    ensures
        r == (*a == *b),
{
    let mut bytes_equal = true;
    let mut i: usize = 0;
    while i < 8
        invariant
            i <= 8,
            bytes_equal == forall|j: int| 0 <= j < i ==> a.data4[j] == b.data4[j],
        decreases 8 - i,
    {
        if a.data4[i] != b.data4[i] {
            bytes_equal = false;
        }
        i = i + 1;
    }
    let r = a.data1 == b.data1 && a.data2 == b.data2 && a.data3 == b.data3 && bytes_equal;
    proof {
        broadcast use vstd::array::group_array_axioms;

        if r {
            assert(a.data4 =~= b.data4);
        }
    }
    r
}

} // verus!

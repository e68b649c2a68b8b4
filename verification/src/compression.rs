//! The compression-type enumeration protocol. The module advertises exactly
//! one codec: a PCM encoding at a fixed bit rate. The enumeration call writes
//! the codec descriptor followed by the codec's display name, as UTF-16 text,
//! into a caller-owned byte buffer, using a two-call size negotiation: a call
//! with too small a declared size reports the required size and writes
//! nothing; a call with a sufficient size writes the descriptor with its name
//! and description fields both set to the in-buffer offset of the text.

use vstd::prelude::*;
use crate::descriptors::{
    DVCOMPRESSIONINFO, DVCOMPRESSIONINFO_SIZE,
};
use crate::guid::{Guid, spec_pcm_codec_type, pcm_codec_type};
use crate::hresult::{HRESULT, DV_OK, DVERR_BUFFERTOOSMALL};

verus! {

/// Number of UTF-16 units in the codec name, terminating zero included.
pub const PCM_NAME_UNITS: u32 = 17;

/// Number of bytes of the codec name's UTF-16 encoding.
pub const PCM_NAME_BYTES: u32 = 34;

/// Byte size the enumeration requires of the caller's buffer: the descriptor
/// record followed by the name text.
pub const PCM_REQUIRED_SIZE: u32 = DVCOMPRESSIONINFO_SIZE + PCM_NAME_BYTES;

/// Peak bit rate of the advertised codec, in bits per second.
pub const PCM_MAX_BITS_PER_SECOND: u32 = 64000;

/// The UTF-16 units of the codec's display name, "MS-PCM 64 kbit/s", with a
/// terminating zero unit. The description is the same text.
pub open spec fn spec_pcm_name_units() -> Seq<u16> {
    seq![
        0x004Du16, 0x0053, 0x002D, 0x0050, 0x0043, 0x004D, 0x0020, 0x0036, 0x0034,
        0x0020, 0x006B, 0x0062, 0x0069, 0x0074, 0x002F, 0x0073, 0x0000,
    ]
}

/// The advertised codec descriptor as the module holds it, before its name
/// and description offsets are redirected into a caller's buffer.
pub open spec fn spec_pcm_info() -> DVCOMPRESSIONINFO {
    DVCOMPRESSIONINFO {
        dwSize: PCM_REQUIRED_SIZE,
        guidType: spec_pcm_codec_type(),
        lpszName: 0,
        lpszDescription: 0,
        dwFlags: 0,
        dwMaxBitsPerSecond: PCM_MAX_BITS_PER_SECOND,
    }
}

/// The codec descriptor as the enumeration writes it: name and description
/// both point at the text that follows the record in the caller's buffer.
pub open spec fn spec_written_pcm_info() -> DVCOMPRESSIONINFO {
    DVCOMPRESSIONINFO {
        lpszName: DVCOMPRESSIONINFO_SIZE as u64,
        lpszDescription: DVCOMPRESSIONINFO_SIZE as u64,
        ..spec_pcm_info()
    }
}

/// Little-endian bytes of a 16-bit value.
pub open spec fn spec_u16_le(x: u16) -> Seq<u8> {
    seq![(x & 0xFF) as u8, ((x >> 8) & 0xFF) as u8]
}

/// Little-endian bytes of a 32-bit value.
pub open spec fn spec_u32_le(x: u32) -> Seq<u8> {
    seq![
        (x & 0xFF) as u8,
        ((x >> 8) & 0xFF) as u8,
        ((x >> 16) & 0xFF) as u8,
        ((x >> 24) & 0xFF) as u8,
    ]
}

/// Little-endian bytes of a 64-bit value.
pub open spec fn spec_u64_le(x: u64) -> Seq<u8> {
    seq![
        (x & 0xFF) as u8,
        ((x >> 8) & 0xFF) as u8,
        ((x >> 16) & 0xFF) as u8,
        ((x >> 24) & 0xFF) as u8,
        ((x >> 32) & 0xFF) as u8,
        ((x >> 40) & 0xFF) as u8,
        ((x >> 48) & 0xFF) as u8,
        ((x >> 56) & 0xFF) as u8,
    ]
}

/// Bytes of an identifier in its C layout: the three groups little-endian,
/// the trailing eight bytes in order.
pub open spec fn spec_guid_bytes(g: Guid) -> Seq<u8> {
    spec_u32_le(g.data1) + spec_u16_le(g.data2) + spec_u16_le(g.data3) + g.data4@
}

/// UTF-16 little-endian bytes of a sequence of units.
pub open spec fn spec_utf16_le_bytes(s: Seq<u16>) -> Seq<u8>
    decreases s.len(),
{
    if s.len() == 0 {
        Seq::empty()
    } else {
        spec_utf16_le_bytes(s.drop_last()) + spec_u16_le(s.last())
    }
}

/// Bytes of a codec descriptor record in its C layout: the declared size,
/// the codec identifier, four bytes of padding that align the two pointer
/// fields, the name and description fields, the flags and the bit rate.
pub open spec fn spec_compression_info_bytes(info: DVCOMPRESSIONINFO) -> Seq<u8> {
    spec_u32_le(info.dwSize) + spec_guid_bytes(info.guidType) + seq![0u8, 0u8, 0u8, 0u8]
        + spec_u64_le(info.lpszName) + spec_u64_le(info.lpszDescription)
        + spec_u32_le(info.dwFlags) + spec_u32_le(info.dwMaxBitsPerSecond)
}

/// The full payload a successful enumeration writes at the start of the
/// caller's buffer: the redirected descriptor, then the name text.
pub open spec fn spec_enum_payload() -> Seq<u8> {
    spec_compression_info_bytes(spec_written_pcm_info()) + spec_utf16_le_bytes(
        spec_pcm_name_units(),
    )
}

/// The UTF-16 encoding of a sequence of units takes two bytes per unit.
pub proof fn lemma_utf16_le_bytes_len(s: Seq<u16>)
    ensures
        spec_utf16_le_bytes(s).len() == 2 * s.len(),
    decreases s.len(),
{
    if s.len() != 0 {
        lemma_utf16_le_bytes_len(s.drop_last());
    }
}

/// Law: the two-call enumeration round trip. A call with too small a
/// declared size reports a positive required size and writes nothing; a call
/// with exactly that size writes a payload of exactly that many bytes, whose
/// descriptor records the name and description at one in-buffer offset, and
/// the bytes at that offset are the UTF-16 text "MS-PCM 64 kbit/s" with a
/// terminating zero unit.
pub proof fn lemma_enumeration_round_trip()
    ensures
        PCM_REQUIRED_SIZE > 0,
        spec_enum_payload().len() == PCM_REQUIRED_SIZE,
        spec_written_pcm_info().lpszName == DVCOMPRESSIONINFO_SIZE as u64,
        spec_written_pcm_info().lpszDescription == DVCOMPRESSIONINFO_SIZE as u64,
        spec_enum_payload().subrange(DVCOMPRESSIONINFO_SIZE as int, PCM_REQUIRED_SIZE as int)
            == spec_utf16_le_bytes(spec_pcm_name_units()),
        spec_pcm_name_units().len() == PCM_NAME_UNITS,
        spec_pcm_name_units()[PCM_NAME_UNITS as int - 1] == 0,
        forall|i: int|
            0 <= i < PCM_NAME_UNITS - 1 ==> spec_pcm_name_units()[i] == (
            "MS-PCM 64 kbit/s"@[i] as u16),
{
    lemma_utf16_le_bytes_len(spec_pcm_name_units());
    assert(spec_enum_payload().subrange(
        DVCOMPRESSIONINFO_SIZE as int,
        PCM_REQUIRED_SIZE as int,
    ) =~= spec_utf16_le_bytes(spec_pcm_name_units()));
    reveal_strlit("MS-PCM 64 kbit/s");
}

/// Appends the little-endian bytes of a 16-bit value.
fn push_u16_le(out: &mut Vec<u8>, x: u16)
    ensures
        final(out)@ == old(out)@ + spec_u16_le(x),
{
    out.push((x & 0xFF) as u8);
    out.push(((x >> 8) & 0xFF) as u8);
    assert(out@ =~= old(out)@ + spec_u16_le(x));
}

/// Appends the little-endian bytes of a 32-bit value.
fn push_u32_le(out: &mut Vec<u8>, x: u32)
    ensures
        final(out)@ == old(out)@ + spec_u32_le(x),
{
    out.push((x & 0xFF) as u8);
    out.push(((x >> 8) & 0xFF) as u8);
    out.push(((x >> 16) & 0xFF) as u8);
    out.push(((x >> 24) & 0xFF) as u8);
    assert(out@ =~= old(out)@ + spec_u32_le(x));
}

/// Appends the little-endian bytes of a 64-bit value.
fn push_u64_le(out: &mut Vec<u8>, x: u64)
    ensures
        final(out)@ == old(out)@ + spec_u64_le(x),
{
    out.push((x & 0xFF) as u8);
    out.push(((x >> 8) & 0xFF) as u8);
    out.push(((x >> 16) & 0xFF) as u8);
    out.push(((x >> 24) & 0xFF) as u8);
    out.push(((x >> 32) & 0xFF) as u8);
    out.push(((x >> 40) & 0xFF) as u8);
    out.push(((x >> 48) & 0xFF) as u8);
    out.push(((x >> 56) & 0xFF) as u8);
    assert(out@ =~= old(out)@ + spec_u64_le(x));
}

/// Appends the C-layout bytes of an identifier.
fn push_guid_bytes(out: &mut Vec<u8>, g: &Guid)
    ensures
        final(out)@ == old(out)@ + spec_guid_bytes(*g),
{
    push_u32_le(out, g.data1);
    push_u16_le(out, g.data2);
    push_u16_le(out, g.data3);
    proof {
        assert(out@ =~= old(out)@ + spec_u32_le(g.data1) + spec_u16_le(g.data2) + spec_u16_le(
            g.data3,
        ) + g.data4@.take(0));
    }
    let mut i: usize = 0;
    while i < 8
        invariant
            i <= 8,
            out@ == old(out)@ + spec_u32_le(g.data1) + spec_u16_le(g.data2) + spec_u16_le(
                g.data3,
            ) + g.data4@.take(i as int),
        decreases 8 - i,
    {
        let b = g.data4[i];
        out.push(b);
        proof {
            broadcast use vstd::array::group_array_axioms;

            assert(out@ =~= old(out)@ + spec_u32_le(g.data1) + spec_u16_le(g.data2)
                + spec_u16_le(g.data3) + g.data4@.take(i + 1));
        }
        i = i + 1;
    }
    proof {
        broadcast use vstd::array::group_array_axioms;

        assert(g.data4@.take(8) =~= g.data4@);
        assert(out@ =~= old(out)@ + spec_guid_bytes(*g));
    }
}

/// Encodes the codec name as UTF-16 little-endian bytes.
fn encode_pcm_name() -> (out: Vec<u8>)
    ensures
        out@ == spec_utf16_le_bytes(spec_pcm_name_units()),
{
    let units: Vec<u16> = vec![
        0x004Du16, 0x0053, 0x002D, 0x0050, 0x0043, 0x004D, 0x0020, 0x0036, 0x0034,
        0x0020, 0x006B, 0x0062, 0x0069, 0x0074, 0x002F, 0x0073, 0x0000,
    ];
    proof {
        assert(units@ =~= spec_pcm_name_units());
    }
    let mut out: Vec<u8> = Vec::new();
    let mut i: usize = 0;
    while i < units.len()
        invariant
            i <= units@.len(),
            units@ == spec_pcm_name_units(),
            out@ == spec_utf16_le_bytes(units@.take(i as int)),
        decreases units@.len() - i,
    {
        push_u16_le(&mut out, units[i]);
        proof {
            assert(units@.take(i + 1).drop_last() =~= units@.take(i as int));
            assert(units@.take(i + 1).last() == units@[i as int]);
        }
        i = i + 1;
    }
    proof {
        assert(units@.take(units@.len() as int) =~= units@);
    }
    out
}

/// Encodes a codec descriptor record into its C-layout bytes.
fn encode_compression_info(info: &DVCOMPRESSIONINFO) -> (out: Vec<u8>)
    ensures
        out@ == spec_compression_info_bytes(*info),
{
    let mut out: Vec<u8> = Vec::new();
    push_u32_le(&mut out, info.dwSize);
    push_guid_bytes(&mut out, &info.guidType);
    out.push(0);
    out.push(0);
    out.push(0);
    out.push(0);
    push_u64_le(&mut out, info.lpszName);
    push_u64_le(&mut out, info.lpszDescription);
    push_u32_le(&mut out, info.dwFlags);
    push_u32_le(&mut out, info.dwMaxBitsPerSecond);
    proof {
        assert(out@ =~= spec_compression_info_bytes(*info));
    }
    out
}

/// Copies a whole source into a destination at an offset, leaving the bytes
/// around the copied region unchanged.
fn copy_into(dst: &mut Vec<u8>, off: usize, src: &Vec<u8>)
    requires
        off + src@.len() <= old(dst)@.len(),
    ensures
        final(dst)@ =~= old(dst)@.take(off as int) + src@ + old(dst)@.skip(
            off as int + src@.len(),
        ),
{
    let n = dst.len();
    assert(off + src@.len() <= n);
    let mut i: usize = 0;
    while i < src.len()
        invariant
            i <= src@.len(),
            off + src@.len() <= usize::MAX,
            off + src@.len() <= old(dst)@.len(),
            dst@.len() == old(dst)@.len(),
            forall|k: int|
                off <= k < off + i ==> dst@[k] == src@[k - off],
            forall|k: int|
                0 <= k < old(dst)@.len() && !(off <= k < off + i) ==> dst@[k] == old(dst)@[k],
        decreases src@.len() - i,
    {
        let b = src[i];
        dst[off + i] = b;
        i = i + 1;
    }
}

/// Enumerates the advertised compression types into a caller-owned buffer.
///
/// The element count is always reported as one. If the declared buffer size
/// is smaller than the required size, the declared size is overwritten with
/// the required size, nothing else is written, and the call fails asking for
/// a larger buffer; the caller retries with the reported size. Otherwise the
/// descriptor and the name text are written at the start of the buffer, with
/// the descriptor's name and description fields set to the in-buffer offset
/// of the text, and the call succeeds.
pub fn GetCompressionTypes(
    data: &mut Vec<u8>,
    data_size: &mut u32,
    num_elements: &mut u32,
    flags: u32,
) -> (r: HRESULT)
    requires
        *old(data_size) <= old(data)@.len(),
    ensures
        *final(num_elements) == 1,
        final(data)@.len() == old(data)@.len(),
        *old(data_size) < PCM_REQUIRED_SIZE ==> {
            &&& r == DVERR_BUFFERTOOSMALL
            &&& *final(data_size) == PCM_REQUIRED_SIZE
            &&& final(data)@ == old(data)@
        },
        *old(data_size) >= PCM_REQUIRED_SIZE ==> {
            &&& r == DV_OK
            &&& *final(data_size) == *old(data_size)
            &&& final(data)@ == spec_enum_payload() + old(data)@.skip(PCM_REQUIRED_SIZE as int)
        },
{
    *num_elements = 1;

    if *data_size < PCM_REQUIRED_SIZE {
        *data_size = PCM_REQUIRED_SIZE;
        return DVERR_BUFFERTOOSMALL;
    }

    let info = DVCOMPRESSIONINFO {
        dwSize: PCM_REQUIRED_SIZE,
        guidType: pcm_codec_type(),
        lpszName: DVCOMPRESSIONINFO_SIZE as u64,
        lpszDescription: DVCOMPRESSIONINFO_SIZE as u64,
        dwFlags: 0,
        dwMaxBitsPerSecond: PCM_MAX_BITS_PER_SECOND,
    };
    let mut payload = encode_compression_info(&info);
    let mut name_bytes = encode_pcm_name();
    payload.append(&mut name_bytes);
    proof {
        lemma_utf16_le_bytes_len(spec_pcm_name_units());
        assert(info == spec_written_pcm_info());
        assert(payload@ == spec_enum_payload());
        assert(spec_enum_payload().len() == PCM_REQUIRED_SIZE);
    }
    copy_into(data, 0, &payload);
    proof {
        assert(data@ =~= spec_enum_payload() + old(data)@.skip(PCM_REQUIRED_SIZE as int));
    }
    DV_OK
}

} // verus!

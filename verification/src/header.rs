//! The header codec: the first 20 bytes of an EDID base block as a
//! fixed-layout record, decoded from and encoded back to raw bytes
//! field by field, multi-byte fields little-endian. The layout is a
//! wire format, so it never depends on how the host lays structs out
//! in memory. Field values are not validated here: the codec is a
//! layout transform, not a conformance checker.

use vstd::prelude::*;

verus! {

/// A buffer handed to the codec was too short to hold the layout.
#[derive(Debug, Clone, Copy, PartialEq, Eq, Structural)]
pub enum EdidError {
    MalformedInput,
}

/// The 16-bit value stored little-endian in the two bytes `b0`, `b1`.
pub open spec fn spec_u16_of_le(b0: u8, b1: u8) -> u16 {
    (b0 as u16) | ((b1 as u16) << 8)
}

/// The two little-endian bytes of a 16-bit value, lowest first.
pub open spec fn spec_u16_le_bytes(x: u16) -> Seq<u8> {
    seq![(x & 0xff) as u8, ((x >> 8) & 0xff) as u8]
}

/// The 32-bit value stored little-endian in the four bytes `b0`..`b3`.
pub open spec fn spec_u32_of_le(b0: u8, b1: u8, b2: u8, b3: u8) -> u32 {
    (b0 as u32) | ((b1 as u32) << 8) | ((b2 as u32) << 16) | ((b3 as u32) << 24)
}

/// The four little-endian bytes of a 32-bit value, lowest first.
pub open spec fn spec_u32_le_bytes(x: u32) -> Seq<u8> {
    seq![
        (x & 0xff) as u8,
        ((x >> 8) & 0xff) as u8,
        ((x >> 16) & 0xff) as u8,
        ((x >> 24) & 0xff) as u8,
    ]
}

/// Reading two little-endian bytes back from a 16-bit value yields the
/// bytes the value was assembled from.
pub proof fn lemma_u16_le_round_trip(b0: u8, b1: u8)
    ensures
        spec_u16_le_bytes(spec_u16_of_le(b0, b1)) =~= seq![b0, b1],
{
    let x = spec_u16_of_le(b0, b1);
    assert((x & 0xff) as u8 == b0 && ((x >> 8) & 0xff) as u8 == b1) by (bit_vector)
        requires
            x == (b0 as u16) | ((b1 as u16) << 8),
    ;
}

/// Reading four little-endian bytes back from a 32-bit value yields the
/// bytes the value was assembled from.
pub proof fn lemma_u32_le_round_trip(b0: u8, b1: u8, b2: u8, b3: u8)
    ensures
        spec_u32_le_bytes(spec_u32_of_le(b0, b1, b2, b3)) =~= seq![b0, b1, b2, b3],
{
    let x = spec_u32_of_le(b0, b1, b2, b3);
    assert((x & 0xff) as u8 == b0 && ((x >> 8) & 0xff) as u8 == b1 && ((x >> 16) & 0xff) as u8 == b2
        && ((x >> 24) & 0xff) as u8 == b3) by (bit_vector)
        requires
            x == (b0 as u32) | ((b1 as u32) << 8) | ((b2 as u32) << 16) | ((b3 as u32) << 24),
    ;
}

/// Reassembling a 32-bit value from its four little-endian bytes gives
/// the value back.
pub proof fn lemma_u32_of_le_bytes(x: u32)
    ensures
        spec_u32_of_le(
            spec_u32_le_bytes(x)[0],
            spec_u32_le_bytes(x)[1],
            spec_u32_le_bytes(x)[2],
            spec_u32_le_bytes(x)[3],
        ) == x,
{
    assert(((x & 0xff) as u8 as u32) | (((x >> 8) & 0xff) as u8 as u32) << 8 | (((x >> 16)
        & 0xff) as u8 as u32) << 16 | (((x >> 24) & 0xff) as u8 as u32) << 24 == x) by (bit_vector);
}

/// The first 20 bytes of an EDID base block, as named fields.
#[derive(Debug, Clone, Copy)]
pub struct EdidBlob {
    pub header: [u8; 8],
    pub manufacturer_id: [u8; 2],
    pub product_code: u16,
    pub serial_number: u32,
    pub manufacture_week: u8,
    pub manufacture_year: u8,
    pub version: u8,
    pub revision: u8,
}

impl EdidBlob {
    /// The 20 bytes this header lays out on the wire: fields in order,
    /// multi-byte integer fields little-endian.
    pub open spec fn spec_bytes(self) -> Seq<u8> {
        self.header@ + self.manufacturer_id@ + spec_u16_le_bytes(self.product_code)
            + spec_u32_le_bytes(self.serial_number)
            + seq![self.manufacture_week, self.manufacture_year, self.version, self.revision]
    }

    /// Whether this header is the one read off the first 20 bytes of `b`.
    pub open spec fn decodes_from(self, b: Seq<u8>) -> bool
        recommends
            b.len() >= 20,
    {
        &&& self.header@ == b.subrange(0, 8)
        &&& self.manufacturer_id@ == b.subrange(8, 10)
        &&& self.product_code == spec_u16_of_le(b[10], b[11])
        &&& self.serial_number == spec_u32_of_le(b[12], b[13], b[14], b[15])
        &&& self.manufacture_week == b[16]
        &&& self.manufacture_year == b[17]
        &&& self.version == b[18]
        &&& self.revision == b[19]
    }
}

/// Read the fixed header layout off the first 20 bytes of `buffer`.
/// A buffer shorter than 20 bytes is rejected as malformed.
pub fn decode_header(buffer: &[u8]) -> (r: Result<EdidBlob, EdidError>)
    ensures
        buffer@.len() >= 20 ==> (r matches Ok(h) && h.decodes_from(buffer@)),
        buffer@.len() < 20 ==> r == Err::<EdidBlob, EdidError>(EdidError::MalformedInput),
{
    if buffer.len() < 20 {
        return Err(EdidError::MalformedInput);
    }
    let header: [u8; 8] = [
        buffer[0],
        buffer[1],
        buffer[2],
        buffer[3],
        buffer[4],
        buffer[5],
        buffer[6],
        buffer[7],
    ];
    let manufacturer_id: [u8; 2] = [buffer[8], buffer[9]];
    let product_code: u16 = (buffer[10] as u16) | ((buffer[11] as u16) << 8);
    let serial_number: u32 = (buffer[12] as u32) | ((buffer[13] as u32) << 8) | ((
    buffer[14] as u32) << 16) | ((buffer[15] as u32) << 24);
    let blob = EdidBlob {
        header,
        manufacturer_id,
        product_code,
        serial_number,
        manufacture_week: buffer[16],
        manufacture_year: buffer[17],
        version: buffer[18],
        revision: buffer[19],
    };
    proof {
        assert(blob.header@ =~= buffer@.subrange(0, 8));
        assert(blob.manufacturer_id@ =~= buffer@.subrange(8, 10));
    }
    Ok(blob)
}

/// Serialize the header back to exactly 20 bytes, field order and
/// widths identical to `decode_header`, little-endian throughout.
pub fn encode_header(header: &EdidBlob) -> (r: Vec<u8>)
    ensures
        r@ == header.spec_bytes(),
        r@.len() == 20,
{
    let mut out: Vec<u8> = Vec::new();
    let mut i: usize = 0;
    while i < 8
        invariant
            i <= 8,
            out@ =~= header.header@.subrange(0, i as int),
        decreases 8 - i,
    {
        out.push(header.header[i]);
        i = i + 1;
    }
    out.push(header.manufacturer_id[0]);
    out.push(header.manufacturer_id[1]);
    let pc = header.product_code;
    proof {
        assert((pc & 0xff) < 256 && ((pc >> 8) & 0xff) < 256) by (bit_vector);
    }
    out.push((pc & 0xff) as u8);
    out.push(((pc >> 8) & 0xff) as u8);
    let sn = header.serial_number;
    proof {
        assert((sn & 0xff) < 256 && ((sn >> 8) & 0xff) < 256 && ((sn >> 16) & 0xff) < 256 && ((sn
            >> 24) & 0xff) < 256) by (bit_vector);
    }
    out.push((sn & 0xff) as u8);
    out.push(((sn >> 8) & 0xff) as u8);
    out.push(((sn >> 16) & 0xff) as u8);
    out.push(((sn >> 24) & 0xff) as u8);
    out.push(header.manufacture_week);
    out.push(header.manufacture_year);
    out.push(header.version);
    out.push(header.revision);
    proof {
        assert(out@ =~= header.spec_bytes());
    }
    out
}

/// Round-trip law of the codec: a header read off a well-formed buffer
/// writes back exactly the first 20 bytes of that buffer.
pub proof fn lemma_codec_round_trip(h: EdidBlob, b: Seq<u8>)
    requires
        b.len() >= 20,
        h.decodes_from(b),
    ensures
        h.spec_bytes() == b.subrange(0, 20),
{
    lemma_u16_le_round_trip(b[10], b[11]);
    lemma_u32_le_round_trip(b[12], b[13], b[14], b[15]);
    assert(h.spec_bytes() =~= b.subrange(0, 20));
}

} // verus!

//! Generation and inspection of EDID base blocks for a virtual monitor.
//!
//! An EDID (Extended Display Identification Data) base block is the
//! 128-byte descriptor a display hands to a video source. This crate
//! starts from a fixed, spec-conformant template, overwrites the serial
//! number field, recomputes the mandatory checksum byte, and returns a
//! block any EDID consumer will accept. The inverse direction, reading
//! the serial number back out of such a block, is provided as well.

use vstd::prelude::*;
use vstd::array::array_as_slice;
use vstd::pervasive::unreached;
use vstd::slice::slice_to_vec;

mod checksum;
mod header;
mod template;

pub use checksum::byte_sum;
pub use checksum::checksum_byte;
pub use checksum::gen_checksum;
pub use checksum::lemma_byte_sum_nonneg;
pub use checksum::lemma_checksum_balances;
pub use header::EdidBlob;
pub use header::EdidError;
pub use header::decode_header;
pub use header::encode_header;
pub use header::lemma_codec_round_trip;
pub use header::lemma_u16_le_round_trip;
pub use header::lemma_u32_le_round_trip;
pub use header::lemma_u32_of_le_bytes;
pub use header::spec_u16_le_bytes;
pub use header::spec_u16_of_le;
pub use header::spec_u32_le_bytes;
pub use header::spec_u32_of_le;
pub use template::MONITOR_EDID;

verus! {

/// The generated block, as a sequence: the template with the serial
/// number field (bytes 12..16) replaced by `serial` in little-endian
/// order, and the checksum byte (byte 127) rebalanced.
pub open spec fn spec_generate(serial: u32) -> Seq<u8> {
    let sb = spec_u32_le_bytes(serial);
    let body = MONITOR_EDID@.update(12, sb[0]).update(13, sb[1]).update(14, sb[2]).update(
        15,
        sb[3],
    );
    body.update(127, checksum_byte(body))
}

/// Produce a fresh EDID base block for the virtual monitor: the
/// template with its serial number field overwritten by `serial` and
/// its checksum byte rebalanced. The block is always 128 bytes long
/// and its bytes sum to a multiple of 256.
pub fn generate_edid_with(serial: u32) -> (r: Vec<u8>)
    ensures
        r@ == spec_generate(serial),
        r@.len() == 128,
        byte_sum(r@) % 256 == 0,
{
    let mut edid: Vec<u8> = slice_to_vec(array_as_slice(&MONITOR_EDID));
    // change the serial number in the header
    let mut header = match decode_header(edid.as_slice()) {
        Ok(h) => h,
        Err(_) => unreached(),
    };
    let ghost decoded = header;
    header.serial_number = serial;
    let header_bytes = encode_header(&header);

    // splice the re-encoded header onto the unchanged template tail
    let mut i: usize = 0;
    while i < 20
        invariant
            edid@.len() == 128,
            header_bytes@.len() == 20,
            i <= 20,
            forall|j: int| 0 <= j < i ==> edid@[j] == header_bytes@[j],
            forall|j: int| i <= j < 128 ==> edid@[j] == MONITOR_EDID@[j],
        decreases 20 - i,
    {
        edid[i] = header_bytes[i];
        i = i + 1;
    }

    proof {
        let sb = spec_u32_le_bytes(serial);
        let body = MONITOR_EDID@.update(12, sb[0]).update(13, sb[1]).update(14, sb[2]).update(
            15,
            sb[3],
        );
        lemma_codec_round_trip(decoded, MONITOR_EDID@);
        assert(header.spec_bytes() =~= decoded.spec_bytes().update(12, sb[0]).update(
            13,
            sb[1],
        ).update(14, sb[2]).update(15, sb[3]));
        assert(edid@ =~= body);
        lemma_checksum_balances(body);
    }

    // regenerate the checksum
    gen_checksum(&mut edid);

    edid
}

/// Read the serial number out of an EDID-shaped buffer; the buffer is
/// rejected as malformed when it is too short to hold the header.
pub fn get_edid_serial(edid: &[u8]) -> (r: Result<u32, EdidError>)
    ensures
        edid@.len() >= 20 ==> r == Ok::<u32, EdidError>(
            spec_u32_of_le(edid@[12], edid@[13], edid@[14], edid@[15]),
        ),
        edid@.len() < 20 ==> r == Err::<u32, EdidError>(EdidError::MalformedInput),
{
    match decode_header(edid) {
        Ok(header) => Ok(header.serial_number),
        Err(e) => Err(e),
    }
}

/// Round-trip law: the serial number read back out of a generated
/// block is the serial number it was generated with. Together with the
/// contract of `get_edid_serial`, whose result on a 128-byte block is
/// the little-endian value of bytes 12..16, this pins
/// `get_edid_serial(&generate_edid_with(serial)) == Ok(serial)`.
pub proof fn lemma_serial_round_trip(serial: u32)
    ensures
        spec_u32_of_le(
            spec_generate(serial)[12],
            spec_generate(serial)[13],
            spec_generate(serial)[14],
            spec_generate(serial)[15],
        ) == serial,
{
    lemma_u32_of_le_bytes(serial);
}

/// Template immutability: blocks generated for two serial numbers
/// agree everywhere outside the serial number field (bytes 12..16) and
/// the checksum byte (byte 127); those bytes come verbatim from the
/// template.
pub proof fn lemma_template_immutable(s1: u32, s2: u32)
    ensures
        spec_generate(s1).len() == 128,
        spec_generate(s2).len() == 128,
        forall|i: int|
            0 <= i < 128 && !(12 <= i < 16) && i != 127 ==> spec_generate(s1)[i] == spec_generate(
                s2,
            )[i] && spec_generate(s1)[i] == MONITOR_EDID@[i],
{
}

} // verus!

use edid_gen::EdidBlob;
use edid_gen::EdidError;
use edid_gen::MONITOR_EDID;
use edid_gen::decode_header;
use edid_gen::encode_header;
use edid_gen::gen_checksum;
use edid_gen::generate_edid_with;
use edid_gen::get_edid_serial;

fn sum_mod_256(bytes: &[u8]) -> u32 {
    bytes.iter().copied().map(u32::from).sum::<u32>() % 256
}

#[test]
fn generated_block_is_128_bytes() {
    for s in [0u32, 1, 42, 0xDEAD_BEEF, u32::MAX] {
        assert_eq!(generate_edid_with(s).len(), 128);
    }
}

#[test]
fn generated_block_checksum_balances() {
    for s in [0u32, 1, 42, 0x0102_0304, u32::MAX] {
        assert_eq!(sum_mod_256(&generate_edid_with(s)), 0);
    }
}

#[test]
fn serial_survives_round_trip() {
    for s in [0u32, 1, 7, 0x0000_FFFF, 0xDEAD_BEEF, u32::MAX] {
        assert_eq!(get_edid_serial(&generate_edid_with(s)), Ok(s));
    }
}

#[test]
fn blocks_agree_outside_serial_and_checksum() {
    let b1 = generate_edid_with(5);
    let b2 = generate_edid_with(0xFFFF_0001);
    for i in 0..128 {
        if !(12..16).contains(&i) && i != 127 {
            assert_eq!(b1[i], b2[i]);
            assert_eq!(b1[i], MONITOR_EDID[i]);
        }
    }
}

#[test]
fn checksum_is_zero_when_prefix_already_balances() {
    // 127 zeros sum to 0, a multiple of 256: the checksum byte must be
    // written as 0, not 256.
    let mut buf = vec![0u8; 128];
    buf[127] = 0xAB; // stale checksum, must be overwritten
    gen_checksum(&mut buf);
    assert_eq!(buf[127], 0);

    // a nonzero prefix that sums to 512 balances as well
    let mut buf2 = vec![0u8; 128];
    buf2[0] = 255;
    buf2[1] = 255;
    buf2[2] = 2;
    gen_checksum(&mut buf2);
    assert_eq!(buf2[127], 0);
}

#[test]
fn gen_checksum_touches_only_byte_127() {
    let mut buf: Vec<u8> = (0..130u32).map(|i| (i * 7 % 251) as u8).collect();
    let before = buf.clone();
    gen_checksum(&mut buf);
    assert_eq!(buf.len(), before.len());
    for i in 0..buf.len() {
        if i != 127 {
            assert_eq!(buf[i], before[i]);
        }
    }
    assert_eq!(sum_mod_256(&buf[..128]), 0);
}

#[test]
fn serial_one_lands_little_endian() {
    let b = generate_edid_with(0x0000_0001);
    assert_eq!(&b[12..16], &[0x01, 0x00, 0x00, 0x00]);
    assert_eq!(&b[20..127], &MONITOR_EDID[20..127]);
    assert_eq!(sum_mod_256(&b), 0);
}

#[test]
fn short_buffer_is_malformed() {
    let buf = [0u8; 10];
    assert_eq!(get_edid_serial(&buf), Err(EdidError::MalformedInput));
    assert!(matches!(decode_header(&buf), Err(EdidError::MalformedInput)));
}

#[test]
fn template_header_decodes_to_known_fields() {
    let h = match decode_header(&MONITOR_EDID) {
        Ok(h) => h,
        Err(_) => panic!("the template is longer than the header"),
    };
    assert_eq!(h.header, [0x00, 0xFF, 0xFF, 0xFF, 0xFF, 0xFF, 0xFF, 0x00]);
    assert_eq!(h.manufacturer_id, [0x0D, 0x19]);
    assert_eq!(h.product_code, 0);
    assert_eq!(h.serial_number, 0);
    assert_eq!(h.manufacture_week, 0xFF);
    assert_eq!(h.manufacture_year, 0x21);
    assert_eq!(h.version, 0x01);
    assert_eq!(h.revision, 0x03);
}

#[test]
fn decode_reads_multibyte_fields_little_endian() {
    let mut buf = [0u8; 20];
    buf[10] = 0x34;
    buf[11] = 0x12;
    buf[12] = 0xD4;
    buf[13] = 0xC3;
    buf[14] = 0xB2;
    buf[15] = 0xA1;
    let h = match decode_header(&buf) {
        Ok(h) => h,
        Err(_) => panic!("20 bytes hold a full header"),
    };
    assert_eq!(h.product_code, 0x1234);
    assert_eq!(h.serial_number, 0xA1B2_C3D4);
    assert_eq!(get_edid_serial(&buf), Ok(0xA1B2_C3D4));
}

#[test]
fn encode_writes_multibyte_fields_little_endian() {
    let h = EdidBlob {
        header: [0, 1, 2, 3, 4, 5, 6, 7],
        manufacturer_id: [8, 9],
        product_code: 0x1234,
        serial_number: 0xA1B2_C3D4,
        manufacture_week: 10,
        manufacture_year: 11,
        version: 12,
        revision: 13,
    };
    let bytes = encode_header(&h);
    assert_eq!(
        bytes,
        vec![0, 1, 2, 3, 4, 5, 6, 7, 8, 9, 0x34, 0x12, 0xD4, 0xC3, 0xB2, 0xA1, 10, 11, 12, 13]
    );
}

#[test]
fn codec_round_trips_the_template_header() {
    let h = match decode_header(&MONITOR_EDID) {
        Ok(h) => h,
        Err(_) => panic!("the template is longer than the header"),
    };
    let bytes = encode_header(&h);
    assert_eq!(&bytes[..], &MONITOR_EDID[..20]);
}

use nio::wasm::binary::Emitter;

/// Decode an unsigned LEB128 byte sequence.
fn decode_uleb(bytes: &[u8]) -> u64 {
    let mut value: u64 = 0;
    let mut shift = 0;
    for b in bytes {
        value |= ((b & 0x7f) as u64) << shift;
        shift += 7;
    }
    value
}

/// Decode a signed LEB128 byte sequence.
fn decode_sleb(bytes: &[u8]) -> i64 {
    let mut value: i64 = 0;
    let mut shift = 0;
    for b in bytes {
        value |= ((b & 0x7f) as i64) << shift;
        shift += 7;
    }
    let last = bytes[bytes.len() - 1];
    if last & 0x40 != 0 && shift < 64 {
        value |= -1i64 << shift;
    }
    value
}

#[test]
fn test_write_u32() {
    let mut emitter = Emitter::new();
    let result = emitter.write_u32(624485);
    assert!(result.is_ok());
    assert_eq!(emitter.out, &[0xe5, 0x8e, 0x26]);
}

#[test]
fn test_write_s32() {
    let mut emitter = Emitter::new();
    let result = emitter.write_s32(-123456);
    assert!(result.is_ok());
    assert_eq!(emitter.out, &[0xc0, 0xbb, 0x78]);
}

#[test]
fn test_write_i32_reinterprets() {
    // The all-ones pattern reads as -1 and encodes in one byte.
    let mut emitter = Emitter::new();
    let result = emitter.write_i32(0xffff_ffff);
    assert!(result.is_ok());
    assert_eq!(emitter.out, &[0x7f]);
}

#[test]
fn test_uleb_round_trip_boundaries() {
    for v in [0u32, 1, 127, 128, 16383, 16384, 4294967295] {
        let mut emitter = Emitter::new();
        assert!(emitter.write_u32(v).is_ok());
        assert_eq!(decode_uleb(&emitter.out), v as u64);
    }
}

#[test]
fn test_uleb_boundary_encodings() {
    let cases: [(u32, &[u8]); 6] = [
        (0, &[0x00]),
        (127, &[0x7f]),
        (128, &[0x80, 0x01]),
        (16383, &[0xff, 0x7f]),
        (16384, &[0x80, 0x80, 0x01]),
        (4294967295, &[0xff, 0xff, 0xff, 0xff, 0x0f]),
    ];
    for (v, expected) in cases {
        let mut emitter = Emitter::new();
        assert!(emitter.write_u32(v).is_ok());
        assert_eq!(emitter.out, expected);
    }
}

#[test]
fn test_sleb_round_trip_boundaries() {
    for v in [0i32, 1, -1, 63, -64, 64, -65, 2147483647, -2147483648] {
        let mut emitter = Emitter::new();
        assert!(emitter.write_s32(v).is_ok());
        assert_eq!(decode_sleb(&emitter.out), v as i64);
    }
}

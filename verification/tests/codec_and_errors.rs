use wipi_kernel::{decode_i32, encode_i32, WIPICErrorCode, WIPICTimer};

#[test]
fn word_codec_round_trips_every_word() {
    for w in [0u32, 1, 0x7fff_ffff, 0x8000_0000, 0xffff_ffff, 0xdead_beef] {
        assert_eq!(encode_i32(decode_i32(w)), w);
    }
}

#[test]
fn i32_codec_round_trips_every_value() {
    for v in [0i32, -1, 1, i32::MIN, i32::MAX, -88] {
        assert_eq!(decode_i32(encode_i32(v)), v);
    }
}

#[test]
fn error_code_from_raw_and_back() {
    for i in -88i32..=0 {
        let code = WIPICErrorCode::from(i);
        assert!(!matches!(code, WIPICErrorCode::UnknownValue));
        assert_eq!(i32::from(code), i);
    }
}

#[test]
fn error_code_out_of_range_is_sentinel() {
    for i in [1i32, -89, 12345, i32::MIN, i32::MAX] {
        assert!(matches!(WIPICErrorCode::from(i), WIPICErrorCode::UnknownValue));
    }
}

#[test]
fn error_code_named_values() {
    assert_eq!(i32::from(WIPICErrorCode::SUCCESS), 0);
    assert_eq!(i32::from(WIPICErrorCode::ERROR), -1);
    assert_eq!(i32::from(WIPICErrorCode::INVALID), -9);
    assert_eq!(i32::from(WIPICErrorCode::NOTSUP), -16);
    assert_eq!(i32::from(WIPICErrorCode::SHORTBUF), -18);
    assert_eq!(i32::from(WIPICErrorCode::NOSERVICE), -88);
    assert!(matches!(WIPICErrorCode::from(0), WIPICErrorCode::SUCCESS));
    assert!(matches!(WIPICErrorCode::from(-18), WIPICErrorCode::SHORTBUF));
    assert!(matches!(WIPICErrorCode::from(-88), WIPICErrorCode::NOSERVICE));
}

#[test]
fn error_codec_words_round_trip() {
    // A word holding an in-range signed value survives decode then encode.
    for i in -88i32..=0 {
        let w = i as u32;
        let code = WIPICErrorCode::to_rust(w);
        assert_eq!(WIPICErrorCode::from_rust(code), w);
    }
    // Every code, the sentinel included, survives encode then decode.
    let w = WIPICErrorCode::from_rust(WIPICErrorCode::UnknownValue);
    assert!(matches!(
        WIPICErrorCode::to_rust(w),
        WIPICErrorCode::UnknownValue
    ));
    assert_eq!(WIPICErrorCode::from_rust(WIPICErrorCode::ERROR), 0xffff_ffff);
}

#[test]
fn timer_record_layout_round_trips() {
    let t = WIPICTimer {
        unk1: 0x11111111,
        unk2: 0x22222222,
        unk3: 0x33333333,
        time: 0x8877665544332211,
        param: 0xaabbccdd,
        unk4: 0x44444444,
        fn_callback: 0x12345678,
    };
    let bytes = t.to_bytes();
    assert_eq!(bytes.len(), 32);
    // Fixed field offsets, little-endian: time at 12, param at 20,
    // callback at 28.
    assert_eq!(&bytes[12..20], &[0x11, 0x22, 0x33, 0x44, 0x55, 0x66, 0x77, 0x88]);
    assert_eq!(&bytes[20..24], &[0xdd, 0xcc, 0xbb, 0xaa]);
    assert_eq!(&bytes[28..32], &[0x78, 0x56, 0x34, 0x12]);
    let back = WIPICTimer::from_bytes(bytes.as_slice());
    assert_eq!(back, t);
}

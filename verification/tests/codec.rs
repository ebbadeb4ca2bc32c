use midi_bridge::mfx::MFXType;
use midi_bridge::sysex::RolandSysEx;

#[test]
fn test_set_mfx() {
    assert_eq!(
        RolandSysEx::new(0x10).enable_mfx(0x01, true),
        vec![0xf0, 0x41, 0x10, 0x42, 0x12, 0x40, 0x41, 0x22, 0x01, 0x5c, 0xf7]
    );
    assert_eq!(
        RolandSysEx::new(0x10).enable_mfx(0x02, true),
        vec![0xf0, 0x41, 0x10, 0x42, 0x12, 0x40, 0x42, 0x22, 0x01, 0x5b, 0xf7]
    );
}

#[test]
fn test_set_mfx_type() {
    assert_eq!(
        RolandSysEx::new(0x10).set_mfx_type(MFXType::Thru),
        vec![0xf0, 0x41, 0x10, 0x42, 0x12, 0x40, 0x03, 0x00, 0x00, 0x00, 0x3d, 0xf7]
    );
    assert_eq!(
        RolandSysEx::new(0x10).set_mfx_type(MFXType::StereoEQ),
        vec![0xf0, 0x41, 0x10, 0x42, 0x12, 0x40, 0x03, 0x00, 0x01, 0x00, 0x3c, 0xf7]
    );
    assert_eq!(
        RolandSysEx::new(0x10).set_mfx_type(MFXType::Spectrum),
        vec![0xf0, 0x41, 0x10, 0x42, 0x12, 0x40, 0x03, 0x00, 0x01, 0x01, 0x3b, 0xf7]
    );
    assert_eq!(
        RolandSysEx::new(0x10).set_mfx_type(MFXType::Enhancer),
        vec![0xf0, 0x41, 0x10, 0x42, 0x12, 0x40, 0x03, 0x00, 0x01, 0x02, 0x3a, 0xf7]
    );
    assert_eq!(
        RolandSysEx::new(0x10).set_mfx_type(MFXType::Humanizer),
        vec![0xf0, 0x41, 0x10, 0x42, 0x12, 0x40, 0x03, 0x00, 0x01, 0x03, 0x39, 0xf7]
    );
    assert_eq!(
        RolandSysEx::new(0x10).set_mfx_type(MFXType::Overdrive),
        vec![0xf0, 0x41, 0x10, 0x42, 0x12, 0x40, 0x03, 0x00, 0x01, 0x10, 0x2c, 0xf7]
    );
    assert_eq!(
        RolandSysEx::new(0x10).set_mfx_type(MFXType::Distortion),
        vec![0xf0, 0x41, 0x10, 0x42, 0x12, 0x40, 0x03, 0x00, 0x01, 0x11, 0x2b, 0xf7]
    );
    assert_eq!(
        RolandSysEx::new(0x10).set_mfx_type(MFXType::LoFi1),
        vec![0xf0, 0x41, 0x10, 0x42, 0x12, 0x40, 0x03, 0x00, 0x01, 0x72, 0x4a, 0xf7]
    );
    assert_eq!(
        RolandSysEx::new(0x10).set_mfx_type(MFXType::LoFi2),
        vec![0xf0, 0x41, 0x10, 0x42, 0x12, 0x40, 0x03, 0x00, 0x01, 0x73, 0x49, 0xf7]
    );
}

#[test]
fn frame_shape_and_checksum() {
    let sysex = RolandSysEx::new(0x2a);
    let address = [0x01u8, 0x02, 0x03];
    let data = [0x10u8, 0x20, 0x30, 0x40];
    let frame = sysex.data(&address, &data);

    assert_eq!(frame.len(), 8 + data.len() + 2);
    assert_eq!(frame[0], 0xf0);
    assert_eq!(*frame.last().unwrap(), 0xf7);
    assert_eq!(frame[2], 0x2a);

    let checksum = frame[frame.len() - 2];
    assert!(checksum < 0x80);
    let sum: u32 = address.iter().map(|&b| b as u32).sum::<u32>()
        + data.iter().map(|&b| b as u32).sum::<u32>()
        + checksum as u32;
    assert_eq!(sum % 0x80, 0);
}

#[test]
fn checksum_is_normalized_when_sums_cancel() {
    // Address and data sum to a multiple of 0x80: the checksum must be
    // 0x00, a seven-bit value, not 0x80.
    let sysex = RolandSysEx::new(0x10);
    let frame = sysex.data(&[0x00, 0x00, 0x00], &[0x80]);
    assert_eq!(frame, vec![0xf0, 0x41, 0x10, 0x42, 0x12, 0x00, 0x00, 0x00, 0x80, 0x00, 0xf7]);
}

#[test]
fn empty_data_frame() {
    let sysex = RolandSysEx::new(0x10);
    let frame = sysex.data(&[0x40, 0x00, 0x7f], &[]);
    // 0x40 + 0x7f = 0xbf; 0xbf % 0x80 = 0x3f; checksum 0x80 - 0x3f = 0x41.
    assert_eq!(frame, vec![0xf0, 0x41, 0x10, 0x42, 0x12, 0x40, 0x00, 0x7f, 0x41, 0xf7]);
}

#[test]
fn disable_mfx_frame() {
    let frame = RolandSysEx::new(0x10).enable_mfx(0x01, false);
    assert_eq!(frame, vec![0xf0, 0x41, 0x10, 0x42, 0x12, 0x40, 0x41, 0x22, 0x00, 0x5d, 0xf7]);
}

#[test]
fn mfx_values() {
    assert_eq!(MFXType::Thru.value(), [0x00, 0x00]);
    assert_eq!(MFXType::Distortion.value(), [0x01, 0x11]);
    assert_eq!(MFXType::LoFi2.value(), [0x01, 0x73]);
}

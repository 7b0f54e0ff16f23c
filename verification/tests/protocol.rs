use ikarus::protocol::DSHOT_ONE_HIGH;
use ikarus::protocol::DSHOT_ONE_LOW;
use ikarus::protocol::DSHOT_ZERO_HIGH;
use ikarus::protocol::DSHOT_ZERO_LOW;
use ikarus::protocol::DShot300;
use ikarus::protocol::OneShot125;
use ikarus::protocol::OneShot42;
use ikarus::protocol::Pulse;

#[test]
fn dshot_checksum_formula() {
    for payload in [0u16, 48 << 5, 1046 << 5, 2047 << 5, 0xffff] {
        let crc = DShot300::checksum(payload);
        assert_eq!(crc, (payload ^ (payload >> 4) ^ (payload >> 8)) & 0xf);
        assert!(crc < 16);
    }
    assert_eq!(DShot300::checksum(0), 0);
}

#[test]
fn dshot_frame_bits_and_marker() {
    let pulses = DShot300::encode_frame(0);
    // word 0: all sixteen bits are zero pulses
    for p in &pulses[0..16] {
        assert_eq!(*p, Pulse { high: DSHOT_ZERO_HIGH, low: DSHOT_ZERO_LOW });
    }
    assert_eq!(pulses[16], Pulse { high: 0, low: 0 });

    // value 1: word = (1 << 5) | crc(1 << 5) = 0x22; bits 5 and 1 set
    let pulses1 = DShot300::encode_frame(1);
    for (i, p) in pulses1[0..16].iter().enumerate() {
        let bit = 15 - i;
        let expected = bit == 5 || bit == 1;
        if expected {
            assert_eq!(*p, Pulse { high: DSHOT_ONE_HIGH, low: DSHOT_ONE_LOW });
        } else {
            assert_eq!(*p, Pulse { high: DSHOT_ZERO_HIGH, low: DSHOT_ZERO_LOW });
        }
    }
}

#[test]
fn dshot_roundtrip_decodes_value_and_checksum() {
    for value in [0u16, 1, 48, 100, 1000, 1046, 2047] {
        let pulses = DShot300::encode_frame(value);
        let word = DShot300::decode_frame(&pulses);
        assert_eq!(word >> 5, value);
        assert_eq!(word & 0xf, DShot300::checksum(value << 5));
        assert_eq!((word >> 4) & 1, 0); // telemetry not requested
    }
}

#[test]
fn dshot_throttle_maps_and_clamps() {
    // 0..=1000 maps to 48..=2047, with the top clamped
    let (p0, n0) = DShot300::encode_throttle(0);
    assert_eq!(n0, 17);
    assert_eq!(DShot300::decode_frame(&p0) >> 5, 48);

    let (p100, _) = DShot300::encode_throttle(100);
    assert_eq!(DShot300::decode_frame(&p100) >> 5, 248);

    let (pmax, _) = DShot300::encode_throttle(1000);
    assert_eq!(DShot300::decode_frame(&pmax) >> 5, 2047);

    let (pover, _) = DShot300::encode_throttle(60000);
    assert_eq!(DShot300::decode_frame(&pover) >> 5, 2047);
}

#[test]
fn oneshot_pulse_is_offset_throttle() {
    for throttle in [0u16, 1, 500, 999, 1000, 4000] {
        let expected = if throttle < 1000 { throttle + 1000 } else { 2000 };
        let (p125, n125) = OneShot125::encode_throttle(throttle);
        assert_eq!(n125, 2);
        assert_eq!(p125[0], Pulse { high: expected, low: 0 });
        assert_eq!(p125[1], Pulse { high: 0, low: 0 });
        let (p42, n42) = OneShot42::encode_throttle(throttle);
        assert_eq!(n42, 2);
        assert_eq!(p42[0], Pulse { high: expected, low: 0 });
    }
}

#[test]
fn oneshot_transform_halves_wide_range() {
    assert_eq!(OneShot125::throttle_transform(0), 1000);
    assert_eq!(OneShot125::throttle_transform(1000), 1500);
    assert_eq!(OneShot125::throttle_transform(2000), 2000);
    assert_eq!(OneShot125::throttle_transform(60000), 2000);
    assert_eq!(OneShot42::throttle_transform(1999), 1999 / 2 + 1000);
}

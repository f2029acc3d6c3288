use slidershim::buffer::Buffer;
use slidershim::controller_state::{ControllerState, LedState};
use slidershim::protocol::{
    decode_tasoller_one, decode_tasoller_two, decode_yuancon, encode_bulk_frame,
    encode_interrupt_frame, HardwareSpec, WriteType,
};

fn buffer_of(bytes: &[u8]) -> Buffer {
    let mut b = Buffer::new();
    b.fill_from(bytes);
    b
}

fn marked_state() -> ControllerState {
    let mut s = ControllerState::new();
    for i in 0..32 {
        s.ground_state[i] = i as u8 + 1;
    }
    s.air_state = [1, 0, 1, 0, 1, 0];
    s.extra_state = [1, 1, 1];
    s
}

fn same_state(a: &ControllerState, b: &ControllerState) -> bool {
    a.ground_state == b.ground_state && a.air_state == b.air_state && a.extra_state == b.extra_state
}

#[test]
fn yuancon_decode_scenario() {
    let mut report = vec![0x05u8, 0x03];
    report.extend(std::iter::repeat(0x0a).take(32));
    let buf = buffer_of(&report);
    let mut s = ControllerState::new();
    decode_yuancon(&buf, &mut s);
    assert_eq!(s.ground_state, [10u8; 32]);
    assert_eq!(s.air_state, [0, 1, 0, 1, 0, 0]);
    assert_eq!(s.extra_state, [0, 1, 1]);
}

#[test]
fn yuancon_decode_through_descriptor() {
    let mut report = vec![0x3fu8, 0x04];
    report.extend((0..32).map(|i| i as u8 * 3));
    let buf = buffer_of(&report);
    let mut s = ControllerState::new();
    HardwareSpec::Yuancon.decode(&buf, &mut s);
    for i in 0..32 {
        assert_eq!(s.ground_state[i], i as u8 * 3);
    }
    assert_eq!(s.air_state, [1, 1, 1, 1, 1, 1]);
    assert_eq!(s.extra_state, [1, 0, 0]);
}

#[test]
fn malformed_lengths_change_nothing() {
    for hw in [HardwareSpec::TasollerOne, HardwareSpec::TasollerTwo, HardwareSpec::Yuancon] {
        for len in [0usize, 1, 10, 12, 33, 35, 37, 64, 256] {
            let buf = buffer_of(&vec![0xffu8; len]);
            let mut s = marked_state();
            hw.decode(&buf, &mut s);
            assert!(same_state(&s, &marked_state()), "{:?} length {}", hw, len);
        }
    }
}

#[test]
fn tasoller_two_decode_flips_pairs() {
    let mut report = vec![0u8, 0, 0, 0b1100_0101];
    report.extend((0..32).map(|i| i as u8 + 100));
    let buf = buffer_of(&report);
    let mut s = marked_state();
    decode_tasoller_two(&buf, &mut s);
    for j in 0..32 {
        let mate = if j % 2 == 0 { j + 1 } else { j - 1 };
        assert_eq!(s.ground_state[j], mate as u8 + 100);
    }
    assert_eq!(s.air_state, [1, 0, 1, 0, 0, 0]);
    assert_eq!(s.extra_state, [1, 1, 1]);
    let report2 = {
        let mut r = report.clone();
        r[3] = 0b0100_0000;
        r
    };
    decode_tasoller_two(&buffer_of(&report2), &mut s);
    assert_eq!(s.air_state, [0, 0, 0, 0, 0, 0]);
    assert_eq!(s.extra_state, [1, 0, 1]);
}

#[test]
fn tasoller_one_decode_bits() {
    // bits 26..28 are extra, 28..34 air, 34..66 ground
    let mut bits = [0u8; 88];
    bits[26] = 1;
    bits[29] = 1;
    bits[33] = 1;
    bits[34] = 1; // ground 0
    bits[37] = 1; // ground 3
    bits[65] = 1; // ground 31
    let mut report = [0u8; 11];
    for (k, b) in bits.iter().enumerate() {
        report[k / 8] |= b << (k % 8);
    }
    let mut s = ControllerState::new();
    s.extra_state = [0, 1, 1];
    decode_tasoller_one(&buffer_of(&report), &mut s);
    let mut expected = [0u8; 32];
    expected[1] = 255;
    expected[2] = 255;
    expected[30] = 255;
    assert_eq!(s.ground_state, expected);
    assert_eq!(s.air_state, [0, 1, 0, 0, 0, 1]);
    assert_eq!(s.extra_state, [1, 0, 1]);
}

#[test]
fn interrupt_encode_scenario() {
    let mut led = LedState::new();
    led.led_state[90] = 255;
    led.led_state[91] = 128;
    led.led_state[92] = 64;
    let mut buf = Buffer::new();
    encode_interrupt_frame(&mut buf, &led);
    assert_eq!(buf.len, 62);
    assert_eq!(buf.data[0], 0xe8);
    assert_eq!(buf.data[1], 0x87);
    for i in 2..62 {
        assert_eq!(buf.data[i], 0);
    }
}

#[test]
fn interrupt_encode_packs_every_led() {
    let mut led = LedState::new();
    for i in 0..93 {
        led.led_state[i] = (i as u8).wrapping_mul(37);
    }
    let mut buf = Buffer::new();
    HardwareSpec::Yuancon.encode_led(&mut buf, &led);
    for k in 0..31 {
        let base = 3 * (30 - k);
        let (r, g, b) = (led.led_state[base], led.led_state[base + 1], led.led_state[base + 2]);
        assert_eq!(buf.data[2 * k], ((r << 3) & 0xe0) | (b >> 3));
        assert_eq!(buf.data[2 * k + 1], (g & 0xf8) | (r >> 5));
    }
}

#[test]
fn bulk_encode_frame() {
    let mut led = LedState::new();
    for i in 0..93 {
        led.led_state[i] = i as u8 + 1;
    }
    let mut buf = Buffer::new();
    buf.data.fill(0xaa);
    encode_bulk_frame(&mut buf, &led);
    assert_eq!(buf.len, 240);
    assert_eq!(&buf.data[0..3], b"BL\0");
    for k in 0..31 {
        let base = 3 * (30 - k);
        assert_eq!(buf.data[3 + 3 * k], led.led_state[base + 1]);
        assert_eq!(buf.data[3 + 3 * k + 1], led.led_state[base]);
        assert_eq!(buf.data[3 + 3 * k + 2], led.led_state[base + 2]);
    }
    assert!(buf.data[96..240].iter().all(|&b| b == 0));
    // the last LED goes first, green before red
    assert_eq!(&buf.data[3..6], &[92, 91, 93]);
}

#[test]
fn descriptors() {
    assert_eq!(HardwareSpec::TasollerOne.vid(), 0x1ccf);
    assert_eq!(HardwareSpec::TasollerTwo.pid(), 0x2333);
    assert_eq!(HardwareSpec::TasollerOne.read_endpoint(), 0x84);
    assert_eq!(HardwareSpec::TasollerTwo.led_endpoint(), 0x03);
    assert_eq!(HardwareSpec::Yuancon.vid(), 0x1973);
    assert_eq!(HardwareSpec::Yuancon.pid(), 0x2001);
    assert_eq!(HardwareSpec::Yuancon.read_endpoint(), 0x81);
    assert_eq!(HardwareSpec::Yuancon.led_endpoint(), 0x02);
    assert_eq!(HardwareSpec::Yuancon.write_type(), WriteType::Interrupt);
    assert_eq!(HardwareSpec::TasollerOne.write_type(), WriteType::Bulk);
}

#[test]
fn flip_vert_swaps_pairs() {
    let mut s = ControllerState::new();
    for i in 0..32 {
        s.ground_state[i] = i as u8;
    }
    s.flip_vert();
    assert_eq!(s.ground_state[0], 1);
    assert_eq!(s.ground_state[1], 0);
    assert_eq!(s.ground_state[31], 30);
    s.flip_vert();
    for i in 0..32 {
        assert_eq!(s.ground_state[i], i as u8);
    }
}

#[test]
fn buffer_contents() {
    let a = buffer_of(&[1, 2, 3]);
    let b = buffer_of(&[1, 2, 3]);
    let c = buffer_of(&[1, 2, 4]);
    assert!(a.same_contents(&b));
    assert!(!a.same_contents(&c));
    assert!(!a.same_contents(&Buffer::new()));
    assert_eq!(a.to_vec(), vec![1, 2, 3]);
}

use ws2812_glow::timing::{reset, t0h, t0l, t1h, t1l};
use ws2812_glow::OutputPin;
use ws2812_glow::{Color, RecordingDelay, RecordingPin, WS2812Manual, WS2812};

/// The wait durations one byte should produce, most significant bit first.
fn byte_waits(byte: u8, out: &mut Vec<u32>) {
    let mut k: i32 = 7;
    while k >= 0 {
        if byte & (1u8 << k) != 0 {
            out.push(700);
            out.push(600);
        } else {
            out.push(350);
            out.push(800);
        }
        k -= 1;
    }
}

/// The full expected wait trace of one send call.
fn expected_waits(colors: &[[u8; 3]]) -> Vec<u32> {
    let mut out = Vec::new();
    for c in colors {
        byte_waits(c[0], &mut out);
        byte_waits(c[1], &mut out);
        byte_waits(c[2], &mut out);
    }
    out.push(50);
    out
}

#[test]
fn empty_frame_emits_only_reset() {
    let mut drv = WS2812Manual::new(RecordingPin::new());
    let mut delay = RecordingDelay::new();
    let colors: [Color; 0] = [];
    drv.send_color(colors, &mut delay);
    assert_eq!(delay.recorded(), &vec![50]);
    let pin = drv.destroy();
    assert_eq!(pin.recorded(), &vec![false]);
}

#[test]
fn frame_length_is_24_pairs_per_color_plus_reset() {
    for n in 0..5usize {
        let mut drv = WS2812Manual::new(RecordingPin::new());
        let mut delay = RecordingDelay::new();
        let mut sent = 0usize;
        match n {
            0 => drv.send_color::<0, _>([], &mut delay),
            1 => drv.send_color([Color([1, 2, 3])], &mut delay),
            2 => drv.send_color([Color([1, 2, 3]); 2], &mut delay),
            3 => drv.send_color([Color([9, 8, 7]); 3], &mut delay),
            _ => drv.send_color([Color([0, 0, 0]); 4], &mut delay),
        }
        sent += n;
        assert_eq!(delay.recorded().len(), 48 * sent + 1);
        assert_eq!(*delay.recorded().last().unwrap(), 50);
        let pin = drv.destroy();
        assert_eq!(pin.recorded().len(), 48 * sent + 1);
    }
}

#[test]
fn phase_durations_match_bit_values() {
    let mut drv = WS2812Manual::new(RecordingPin::new());
    let mut delay = RecordingDelay::new();
    drv.send_color([Color([0b1100_0101, 0x0F, 0xF0])], &mut delay);
    let waits = delay.recorded();
    let pin = drv.destroy();
    let levels = pin.recorded();
    for i in 0..24 {
        let high = waits[2 * i];
        let low = waits[2 * i + 1];
        if high == 700 {
            assert_eq!(low, 600);
        } else {
            assert_eq!(high, 350);
            assert_eq!(low, 800);
        }
        assert!(levels[2 * i]);
        assert!(!levels[2 * i + 1]);
    }
}

#[test]
fn byte_and_bit_order_is_rgb_msb_first() {
    let mut drv = WS2812Manual::new(RecordingPin::new());
    let mut delay = RecordingDelay::new();
    drv.send_color([Color([0xA5, 0x00, 0xFF])], &mut delay);

    // 0xA5 = bits 1,0,1,0,0,1,0,1 (most significant first), then 0x00, then 0xFF.
    let mut expected: Vec<u32> = Vec::new();
    for bit in [1, 0, 1, 0, 0, 1, 0, 1] {
        if bit == 1 {
            expected.push(700);
            expected.push(600);
        } else {
            expected.push(350);
            expected.push(800);
        }
    }
    for _ in 0..8 {
        expected.push(350);
        expected.push(800);
    }
    for _ in 0..8 {
        expected.push(700);
        expected.push(600);
    }
    expected.push(50);
    assert_eq!(delay.recorded(), &expected);
}

#[test]
fn multi_color_frame_matches_expected_trace() {
    let frame = [Color([255, 0, 0]), Color([0, 255, 0]), Color([17, 34, 51])];
    let mut drv = WS2812Manual::new(RecordingPin::new());
    let mut delay = RecordingDelay::new();
    drv.send_color(frame, &mut delay);
    let expected = expected_waits(&[[255, 0, 0], [0, 255, 0], [17, 34, 51]]);
    assert_eq!(delay.recorded(), &expected);
}

#[test]
fn line_ends_low_after_any_send() {
    // Empty frame.
    let mut drv = WS2812Manual::new(RecordingPin::new());
    let mut delay = RecordingDelay::new();
    drv.send_color::<0, _>([], &mut delay);
    let pin = drv.destroy();
    assert_eq!(pin.recorded().last(), Some(&false));

    // Non-empty frame ending in a 1 bit (0xFF blue byte).
    let mut drv = WS2812Manual::new(RecordingPin::new());
    let mut delay = RecordingDelay::new();
    drv.send_color([Color([0, 0, 0xFF])], &mut delay);
    let pin = drv.destroy();
    assert_eq!(pin.recorded().last(), Some(&false));
}

#[test]
fn faulty_pin_leaves_timing_unchanged() {
    let frame = [Color([0xA5, 0x5A, 0xC3]), Color([1, 2, 3])];

    let mut good = WS2812Manual::new(RecordingPin::new());
    let mut good_delay = RecordingDelay::new();
    good.send_color(frame, &mut good_delay);
    let good_pin = good.destroy();

    let mut bad = WS2812Manual::new(RecordingPin::new_faulty());
    let mut bad_delay = RecordingDelay::new();
    bad.send_color(frame, &mut bad_delay);
    let bad_pin = bad.destroy();

    assert_eq!(good_delay.recorded(), bad_delay.recorded());
    assert_eq!(good_pin.recorded(), bad_pin.recorded());
}

#[test]
fn owned_delay_driver_records_same_trace() {
    let mut drv = WS2812::new(RecordingPin::new(), RecordingDelay::new());
    drv.send_color([Color([0xA5, 0x00, 0xFF])]);
    let expected = expected_waits(&[[0xA5, 0x00, 0xFF]]);
    assert_eq!(drv.timer_ref().recorded(), &expected);
    let pin = drv.destroy();
    assert_eq!(pin.recorded().len(), 49);
    assert_eq!(pin.recorded().last(), Some(&false));
}

#[test]
fn destroy_returns_the_pin_passed_to_new() {
    // Give the pin a distinctive recorded history before handing it over.
    let mut pin = RecordingPin::new();
    let _ = pin.set_high();
    let _ = pin.set_low();
    let _ = pin.set_high();
    let history = pin.recorded().clone();

    let drv = WS2812::new(pin, RecordingDelay::new());
    let back = drv.destroy();
    assert_eq!(back.recorded(), &history);

    let mut pin2 = RecordingPin::new_faulty();
    assert!(pin2.set_high().is_err());
    let drv2 = WS2812Manual::new(pin2);
    let back2 = drv2.destroy();
    assert_eq!(back2.recorded(), &vec![true]);
    assert!(back2.recorded().len() == 1);
}

#[test]
fn timing_table_values() {
    assert_eq!(t0h(), 350);
    assert_eq!(t1h(), 700);
    assert_eq!(t0l(), 800);
    assert_eq!(t1l(), 600);
    assert_eq!(reset(), 50);
}

use ws2812_glow::spin::spin_cycles;
use ws2812_glow::{Color, DelayNs, RecordingPin, SpinDelay, WS2812};

#[test]
fn color_constants() {
    assert_eq!(Color::red().0, [255, 0, 0]);
    assert_eq!(Color::green().0, [0, 255, 0]);
    assert_eq!(Color::blue().0, [0, 0, 255]);
    assert_eq!(Color::cyan().0, [0, 255, 255]);
    assert_eq!(Color::magenta().0, [255, 0, 255]);
    assert_eq!(Color::yellow().0, [255, 255, 0]);
    assert_eq!(Color::white().0, [255, 255, 255]);
    assert_eq!(Color::orange().0, [255, 165, 0]);
    assert_eq!(Color::purple().0, [128, 0, 128]);
    assert_eq!(Color::pink().0, [255, 192, 203]);
    assert_eq!(Color::brown().0, [165, 42, 42]);
    assert_eq!(Color::default().0, [0, 0, 0]);
}

#[test]
fn colors_copy_structurally() {
    let a = Color([10, 20, 30]);
    let b = a;
    assert_eq!(a.0, b.0);
    let c = a.clone();
    assert_eq!(c.0, [10, 20, 30]);
}

#[test]
fn spin_cycle_count_truncates() {
    // floor(16_000_000 * 350 / 1_000_000_000) = floor(5.6) = 5.
    assert_eq!(spin_cycles(16_000_000, 350), 5);
    // floor(16_000_000 * 700 / 1_000_000_000) = floor(11.2) = 11.
    assert_eq!(spin_cycles(16_000_000, 700), 11);
    // Below one cycle the count truncates to zero.
    assert_eq!(spin_cycles(1_000_000, 350), 0);
    // An exact multiple loses nothing.
    assert_eq!(spin_cycles(1_000_000_000, 800), 800);
}

#[test]
fn spin_delay_spins_without_observable_waits() {
    let mut d = SpinDelay::new(16_000_000);
    // Returns after the calibrated number of iterations.
    d.delay_ns(350);
    d.delay_ns(50);
}

#[test]
fn spin_driver_drives_the_same_levels() {
    let mut drv = WS2812::new_spin(RecordingPin::new(), 16_000_000);
    drv.send_color([Color([0xA5, 0x00, 0xFF])]);
    let pin = drv.destroy();
    assert_eq!(pin.recorded().len(), 49);
    assert_eq!(pin.recorded().last(), Some(&false));
    // One pulse pair per bit: even positions high, odd positions low.
    for i in 0..24 {
        assert!(pin.recorded()[2 * i]);
        assert!(!pin.recorded()[2 * i + 1]);
    }
}

use autovocoder_dsp::chorus::DelayCursor;
use autovocoder_dsp::counting::next_power_of_two;
use autovocoder_dsp::crusher::CrushControl;
use autovocoder_dsp::pitch::{analysis_window, hps_bin_range, hps_upper_bin, RingCursor};

#[test]
fn next_power_of_two_is_smallest_cover() {
    assert_eq!(next_power_of_two(0), 1);
    assert_eq!(next_power_of_two(1), 1);
    assert_eq!(next_power_of_two(2), 2);
    assert_eq!(next_power_of_two(3), 4);
    assert_eq!(next_power_of_two(1000), 1024);
    assert_eq!(next_power_of_two(1024), 1024);
    assert_eq!(next_power_of_two(usize::MAX / 2 + 1), usize::MAX / 2 + 1);
    for n in 0..5000usize {
        assert_eq!(next_power_of_two(n), n.next_power_of_two());
    }
}

#[test]
fn analysis_window_holds_two_periods() {
    // 48 kHz with a 60 Hz floor: max_tau = 800 -> 1600 -> 2048.
    assert_eq!(analysis_window(800), 2048);
    assert_eq!(analysis_window(686), 2048);
    assert_eq!(analysis_window(512), 1024);
    assert_eq!(analysis_window(0), 1);
}

#[test]
fn ring_cursor_estimates_every_hop() {
    let mut c = RingCursor::new(8, 3);
    assert_eq!(c.window(), 8);
    let mut slots = Vec::new();
    let mut due_at = Vec::new();
    for k in 1..=20 {
        let (slot, due) = c.push();
        slots.push(slot);
        if due {
            due_at.push(k);
        }
    }
    assert_eq!(due_at, vec![3, 6, 9, 12, 15, 18]);
    assert_eq!(&slots[..10], &[0, 1, 2, 3, 4, 5, 6, 7, 0, 1]);
    assert_eq!(c.write_idx(), 20 % 8);
}

#[test]
fn ring_cursor_zero_hop_means_every_sample() {
    let mut c = RingCursor::new(4, 0);
    for _ in 0..10 {
        assert!(c.push().1);
    }
}

#[test]
fn rate_reduction_holds_value() {
    // Hold for 32 samples: the first sample is taken fresh, the next 31
    // repeat it, the 33rd is fresh again.
    let mut c = CrushControl::new();
    c.set_enabled(true);
    c.set_bits(16);
    c.set_hold_samples(32);
    assert!(c.tick());
    for _ in 1..32 {
        assert!(!c.tick());
    }
    assert!(c.tick());
}

#[test]
fn crusher_control_defaults_and_clamps() {
    let mut c = CrushControl::new();
    assert!(!c.enabled());
    assert_eq!(c.levels(), 1 << 15); // 16 bits -> a 16-bit ladder
    c.set_bits(2);
    assert_eq!(c.levels(), 2);
    c.set_bits(1);
    assert_eq!(c.levels(), 1);
    c.set_bits(0);
    assert_eq!(c.levels(), 1);
    c.set_bits(15);
    assert_eq!(c.levels(), 1 << 14);
    c.set_bits(99);
    assert_eq!(c.levels(), 1 << 15);
    // Full rate: every sample fresh.
    for _ in 0..5 {
        assert!(c.tick());
    }
    c.set_hold_samples(1000); // clamps to 32
    let fresh: Vec<bool> = (0..33).map(|_| c.tick()).collect();
    assert_eq!(fresh.iter().filter(|&&f| f).count(), 2);
}

#[test]
fn crusher_enable_restarts_hold() {
    let mut c = CrushControl::new();
    c.set_hold_samples(4);
    assert!(c.tick());
    assert!(!c.tick());
    assert!(c.set_enabled(true)); // engaging restarts
    assert!(c.tick());
    assert!(!c.set_enabled(true)); // already on: no restart
    assert!(!c.tick());
    assert!(!c.set_enabled(false));
    assert!(!c.tick());
    assert!(!c.tick()); // fourth input of the hold wraps the counter
    assert!(c.tick());
    c.reset();
    assert!(c.tick());
}

#[test]
fn crusher_shorter_hold_wraps_counter() {
    let mut c = CrushControl::new();
    c.set_hold_samples(10);
    for _ in 0..6 {
        c.tick();
    }
    c.set_hold_samples(3); // counter (6) already past the new period
    assert!(!c.tick()); // wraps to 0 on this input
    assert!(c.tick());
}

#[test]
fn delay_cursor_sizes_and_taps() {
    // 30 ms at 48 kHz plus 2 guard samples.
    let mut d = DelayCursor::new(1442);
    assert_eq!(d.len(), 2048);
    assert_eq!(DelayCursor::new(0).len(), 2);
    assert_eq!(DelayCursor::new(2).len(), 2);
    assert_eq!(DelayCursor::new(3).len(), 4);
    assert_eq!(d.write_idx(), 0);
    // From slot 0, one sample back is the last slot.
    assert_eq!(d.taps(1), (2047, 2046));
    d.advance();
    d.advance();
    d.advance();
    assert_eq!(d.write_idx(), 3);
    assert_eq!(d.taps(1), (2, 1));
    assert_eq!(d.taps(3), (0, 2047));
    assert_eq!(d.taps(2048), (3, 2));
    for _ in 0..2045 {
        d.advance();
    }
    assert_eq!(d.write_idx(), 0);
    d.advance();
    d.reset();
    assert_eq!(d.write_idx(), 0);
}

#[test]
fn hps_search_bins() {
    // 48 kHz, 2048-point FFT: 23.4 Hz per bin; 60..1000 Hz is bins 2..42,
    // and the harmonics limit the top to 1024 / 5 = 204.
    assert_eq!(hps_bin_range(2, 42, 2048), (2, 42));
    assert_eq!(hps_bin_range(0, 500, 2048), (2, 204));
    assert_eq!(hps_bin_range(7, 1, 16), (7, 2));
    assert_eq!(hps_upper_bin(42, 2048), 42);
    assert_eq!(hps_upper_bin(2, 16), 1);
    assert_eq!(hps_upper_bin(500, 2048), 204);
}

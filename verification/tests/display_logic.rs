use temp_display::format::{format_temperature, hex_frame};
use temp_display::protocol::{refresh_next, startup_attempts, startup_retry, RefreshStep};
use temp_display::segments::{dec_digit, hex};
use temp_display::window::{calibrate, cycle_frame, Window, CALIBRATION_OFFSET, CYCLE_MS, WINDOW_SIZE};

#[test]
fn dec_digit_table() {
    assert_eq!(dec_digit(0), 0b01111110);
    assert_eq!(dec_digit(1), 0b00110000);
    assert_eq!(dec_digit(2), 0b01101101);
    assert_eq!(dec_digit(3), 0b01111001);
    assert_eq!(dec_digit(4), 0b00110011);
    assert_eq!(dec_digit(5), 0b01011011);
    assert_eq!(dec_digit(6), 0b01011111);
    assert_eq!(dec_digit(7), 0b01110000);
    assert_eq!(dec_digit(8), 0b01111111);
    assert_eq!(dec_digit(9), 0b01111011);
}

#[test]
fn dec_digit_patterns_distinct() {
    let patterns: Vec<u8> = (0..10).map(|d| dec_digit(d)).collect();
    for a in 0..10 {
        for b in 0..10 {
            if a != b {
                assert_ne!(patterns[a], patterns[b]);
            }
        }
        assert_ne!(patterns[a], 0b10000000);
    }
}

#[test]
fn dec_digit_uses_least_significant_digit() {
    assert_eq!(dec_digit(253), dec_digit(3));
    assert_eq!(dec_digit(12345), dec_digit(5));
}

#[test]
fn dec_digit_fallback_for_negative_residue() {
    assert_eq!(dec_digit(-15), 0b10000000);
    assert_eq!(dec_digit(-3), 0b10000000);
}

#[test]
fn hex_digit_pairs() {
    assert_eq!(hex(0xAB), [0b01110111, 0b00011111]);
    assert_eq!(hex(0x0F), [0b01111110, 0b01000111]);
    assert_eq!(hex(0xC0), [0b01001110, 0b01111110]);
    assert_eq!(hex(0x00), [0b01111110, 0b01111110]);
}

#[test]
fn hex_frame_layout() {
    let frame = hex_frame([0xDE, 0xAD, 0xBE, 0xEF]);
    assert_eq!(frame, [0x47, 0x4F, 0x4F, 0x1F, 0x3D, 0x77, 0x4F, 0x3D]);
}

#[test]
fn format_zero() {
    assert_eq!(
        format_temperature(0),
        [0x4E, 0x00, 0x7E, 0xFE, 0x00, 0x00, 0x00, 0x00]
    );
}

#[test]
fn format_positive_with_tens() {
    // 25.3 degrees: tenths digit 3, units digit 5 with the dot, tens digit 2.
    let frame = format_temperature(253);
    assert_eq!(frame[0], 0x4E);
    assert_eq!(frame[1], 0x00);
    assert_eq!(frame[2], dec_digit(3));
    assert_eq!(frame[3], dec_digit(5) | 0b10000000);
    assert_eq!(frame[4], dec_digit(2));
    assert_eq!(frame[5], 0x00);
    assert_eq!(frame[6], 0x00);
    assert_eq!(frame[7], 0x00);
}

#[test]
fn format_negative_single_sign_marker() {
    // -1.5 degrees: quotient reaches zero at the first high position.
    let frame = format_temperature(-15);
    assert_eq!(frame[4], 0b00000001);
    let markers = frame.iter().filter(|&&b| b == 0b00000001).count();
    assert_eq!(markers, 1);
    assert_eq!(&frame[5..], [0x00, 0x00, 0x00]);

    // -25.3 degrees: the tens position still holds a digit residue, so
    // the sign marker moves one position up.
    let frame = format_temperature(-253);
    assert_eq!(frame[5], 0b00000001);
    let markers = frame.iter().filter(|&&b| b == 0b00000001).count();
    assert_eq!(markers, 1);

    // The most negative value: four quotient digits, sign marker last.
    let frame = format_temperature(i16::MIN);
    assert_eq!(frame[7], 0b00000001);
    let markers = frame.iter().filter(|&&b| b == 0b00000001).count();
    assert_eq!(markers, 1);
}

#[test]
fn format_largest_value() {
    // 3276.7 degrees fills every digit position.
    let frame = format_temperature(i16::MAX);
    assert_eq!(
        frame,
        [
            0x4E,
            0x00,
            dec_digit(7),
            dec_digit(6) | 0b10000000,
            dec_digit(7),
            dec_digit(2),
            dec_digit(3),
            0x00,
        ]
    );
}

#[test]
fn average_skips_absent_slots() {
    let mut w = Window::new(4);
    w.record(0, Some(100));
    w.record(1, Some(120));
    w.record(2, None);
    w.record(3, Some(110));
    // Denominator is 3, the number of present slots, not 4.
    assert_eq!(w.average(), Some((100 + 120 + 110) / 3));
    assert_eq!(w.average(), Some(110));
}

#[test]
fn average_all_absent_yields_nothing() {
    let w = Window::new(5);
    assert_eq!(w.average(), None);
    // An all-absent window therefore produces no frame and no refresh.
    assert_eq!(cycle_frame(&w), None);
}

#[test]
fn average_truncates_toward_zero() {
    let mut w = Window::new(2);
    w.record(0, Some(-7));
    w.record(1, Some(-8));
    assert_eq!(w.average(), Some(-7));
    let mut p = Window::new(2);
    p.record(0, Some(7));
    p.record(1, Some(8));
    assert_eq!(p.average(), Some(7));
}

#[test]
fn window_slots_overwritten_each_cycle() {
    let mut w = Window::new(2);
    w.record(0, Some(100));
    w.record(1, Some(200));
    // A failed read in the next cycle leaves its slot absent.
    w.record(0, None);
    assert_eq!(w.average(), Some(200));
    assert_eq!(w.len(), 2);
}

#[test]
fn calibrate_applies_offset() {
    assert_eq!(CALIBRATION_OFFSET, -5);
    assert_eq!(calibrate(110), 105);
    assert_eq!(calibrate(0), -5);
}

#[test]
fn cycle_frame_formats_calibrated_mean() {
    let mut w = Window::new(4);
    w.record(0, Some(100));
    w.record(1, Some(120));
    w.record(3, Some(110));
    assert_eq!(cycle_frame(&w), Some(format_temperature(105)));
}

#[test]
fn sampling_constants() {
    assert_eq!(WINDOW_SIZE, 15);
    assert_eq!(CYCLE_MS / (WINDOW_SIZE as u16), 1333);
}

#[test]
fn refresh_runs_power_off_write_power_on_in_order() {
    let mut step = RefreshStep::PowerOff;
    let mut attempted = Vec::new();
    while step != RefreshStep::Done && step != RefreshStep::Aborted {
        attempted.push(step);
        step = refresh_next(step, true);
    }
    assert_eq!(
        attempted,
        vec![RefreshStep::PowerOff, RefreshStep::WriteFrame, RefreshStep::PowerOn]
    );
    assert_eq!(step, RefreshStep::Done);
}

#[test]
fn refresh_aborts_on_first_failure() {
    // Write fails: power-on is never attempted.
    let mut step = RefreshStep::PowerOff;
    let mut attempted = Vec::new();
    let outcomes = [true, false, true];
    let mut i = 0;
    while step != RefreshStep::Done && step != RefreshStep::Aborted {
        attempted.push(step);
        step = refresh_next(step, outcomes[i]);
        i += 1;
    }
    assert_eq!(attempted, vec![RefreshStep::PowerOff, RefreshStep::WriteFrame]);
    assert_eq!(step, RefreshStep::Aborted);

    // Power-off fails: nothing after it is attempted.
    assert_eq!(refresh_next(RefreshStep::PowerOff, false), RefreshStep::Aborted);
    // Terminal steps stay terminal.
    assert_eq!(refresh_next(RefreshStep::Done, false), RefreshStep::Done);
    assert_eq!(refresh_next(RefreshStep::Aborted, true), RefreshStep::Aborted);
}

#[test]
fn startup_retries_until_first_success() {
    // Five failures then a success: exactly six attempts.
    let outcomes = vec![false, false, false, false, false, true, true];
    assert_eq!(startup_attempts(&outcomes), Some(6));
    // An immediate success: one attempt.
    assert_eq!(startup_attempts(&vec![true]), Some(1));
}

#[test]
fn startup_keeps_retrying_while_failing() {
    assert_eq!(startup_attempts(&vec![false; 10]), None);
    assert!(startup_retry(false));
    assert!(!startup_retry(true));
}

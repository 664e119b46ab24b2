use ws2812_rainbow::brightness::{scale_channel, scale_color, scale_colors};
use ws2812_rainbow::color::Color;
use ws2812_rainbow::frame::{
    render_frame, FrameDriver, TransportError, TransportKind, DEFAULT_BRIGHTNESS,
    FRAME_DELAY_UNITS, PHASE_WINDOW,
};
use ws2812_rainbow::wheel::{wheel, wheel_color};

fn rgb(red: u8, green: u8, blue: u8) -> Color {
    Color { red, green, blue }
}

#[test]
fn wheel_band_starts_are_primaries() {
    assert_eq!(wheel(0), rgb(255, 0, 0));
    assert_eq!(wheel(85), rgb(0, 0, 255));
    assert_eq!(wheel(170), rgb(0, 255, 0));
}

#[test]
fn wheel_band_ends() {
    assert_eq!(wheel(84), rgb(3, 0, 252));
    assert_eq!(wheel(169), rgb(0, 252, 3));
    assert_eq!(wheel(255), rgb(255, 0, 0));
}

#[test]
fn wheel_channels_always_sum_to_full_intensity() {
    for pos in 0..=255u8 {
        let c = wheel(pos);
        assert_eq!(c.red as u16 + c.green as u16 + c.blue as u16, 255);
    }
}

#[test]
fn generator_single_led_phase_zero_is_red() {
    assert_eq!(wheel_color(0, 1, 0), rgb(255, 0, 0));
}

#[test]
fn generator_is_deterministic() {
    for phase in [0u16, 1, 85, 255, 300, 1279] {
        for index in 0..4usize {
            assert_eq!(wheel_color(index, 4, phase), wheel_color(index, 4, phase));
        }
    }
}

#[test]
fn generator_repeats_after_one_wheel_revolution() {
    for phase in 0..256u16 {
        for index in 0..3usize {
            assert_eq!(
                wheel_color(index, 3, phase),
                wheel_color(index, 3, phase + 256)
            );
        }
    }
}

#[test]
fn generator_spreads_hue_across_the_strip() {
    // strip of 4 at phase 0: offsets 0, 64, 128, 192 on the wheel, inverted.
    assert_eq!(wheel_color(0, 4, 0), rgb(255, 0, 0));
    assert_eq!(wheel_color(1, 4, 0), rgb(63, 192, 0));
    assert_eq!(wheel_color(2, 4, 0), rgb(0, 126, 129));
    assert_eq!(wheel_color(3, 4, 0), rgb(66, 0, 189));
}

#[test]
fn scale_channel_matches_the_documented_rule() {
    // (255 * 32) >> 8 == 8160 >> 8 == 31
    assert_eq!(scale_channel(255, 32), 31);
    assert_eq!(scale_channel(0, 32), 0);
    assert_eq!(scale_channel(128, 128), 64);
}

#[test]
fn scale_by_zero_blacks_out_every_color() {
    let frame = vec![rgb(255, 0, 0), rgb(3, 200, 17), rgb(0, 0, 0)];
    let scaled = scale_colors(&frame, 0);
    assert_eq!(scaled, vec![rgb(0, 0, 0); 3]);
}

#[test]
fn scale_by_full_level_keeps_each_channel_up_to_one_unit() {
    let frame = vec![rgb(255, 0, 0), rgb(3, 200, 17), rgb(0, 1, 128)];
    let scaled = scale_colors(&frame, 255);
    assert_eq!(
        scaled,
        vec![rgb(254, 0, 0), rgb(2, 199, 16), rgb(0, 0, 127)]
    );
}

#[test]
fn scale_color_scales_each_channel() {
    assert_eq!(scale_color(rgb(255, 85, 170), 32), rgb(31, 10, 21));
}

#[test]
fn render_frame_fills_the_buffer_in_place() {
    let mut buffer = vec![rgb(0, 0, 0); 4];
    render_frame(&mut buffer, 0);
    assert_eq!(
        buffer,
        vec![
            rgb(255, 0, 0),
            rgb(63, 192, 0),
            rgb(0, 126, 129),
            rgb(66, 0, 189)
        ]
    );
    // A later phase overwrites the same buffer without changing its length.
    render_frame(&mut buffer, 1);
    assert_eq!(buffer.len(), 4);
    assert_eq!(buffer[0], rgb(252, 3, 0));
}

#[test]
fn end_to_end_single_led_first_frame_is_dimmed_red() {
    let mut driver = FrameDriver::new(1);
    assert_eq!(driver.level, DEFAULT_BRIGHTNESS);
    let colors = driver.frame_colors();
    // generator gives (255, 0, 0); scaling by 32 gives (31, 0, 0).
    assert_eq!(colors, vec![rgb(31, 0, 0)]);
    assert_eq!(driver.buffer, vec![rgb(255, 0, 0)]);
}

#[test]
fn a_full_phase_window_accounts_for_its_pacing_time() {
    let mut driver = FrameDriver::new(1);
    assert_eq!(PHASE_WINDOW, 1280);
    assert_eq!(FRAME_DELAY_UNITS, 10);
    for _ in 0..PHASE_WINDOW {
        let _ = driver.frame_colors();
        let outcome = driver.record_transmit(Ok(()));
        assert!(outcome.is_ok());
    }
    assert_eq!(driver.frames_sent, 1280);
    assert_eq!(driver.elapsed_units, 12800);
    assert!(driver.elapsed_units >= 12800);
    assert_eq!(driver.phase, 0);
}

#[test]
fn phase_advances_by_one_per_successful_frame() {
    let mut driver = FrameDriver::new(2);
    let _ = driver.frame_colors();
    assert!(driver.record_transmit(Ok(())).is_ok());
    assert_eq!(driver.phase, 1);
    assert_eq!(driver.frames_sent, 1);
    assert_eq!(driver.elapsed_units, FRAME_DELAY_UNITS);
}

#[test]
fn transmit_failure_stops_the_driver_and_surfaces_the_error() {
    let mut driver = FrameDriver::new(1);
    for frame in 0..50u32 {
        let _ = driver.frame_colors();
        assert!(driver.record_transmit(Ok(())).is_ok(), "frame {} failed", frame);
    }
    assert_eq!(driver.frames_sent, 50);
    // Frame 50 fails at the transport; the error must come back out and the
    // driver must not move on to frame 51.
    let _ = driver.frame_colors();
    let outcome = driver.record_transmit(Err(TransportError));
    assert_eq!(outcome, Err(TransportError));
    assert!(driver.failed);
    assert_eq!(driver.frames_sent, 50);
    assert_eq!(driver.phase, 50);
    assert_eq!(driver.elapsed_units, 500);
}

#[test]
fn custom_settings_are_kept() {
    let mut driver = FrameDriver::with_settings(3, 255, 7);
    assert_eq!(driver.buffer.len(), 3);
    assert_eq!(driver.delay_units, 7);
    let colors = driver.frame_colors();
    assert_eq!(colors.len(), 3);
    // full level: each channel loses at most one unit.
    assert_eq!(colors[0], rgb(254, 0, 0));
}

#[test]
fn transport_kind_labels() {
    assert_eq!(TransportKind::BlockingPulse.label(), "pulse (blocking)");
    assert_eq!(TransportKind::BlockingSerial.label(), "serial (blocking)");
    assert_eq!(TransportKind::AsyncSerial.label(), "serial (async)");
}

#[test]
fn black_is_all_zero() {
    assert_eq!(Color::black(), Color::new(0, 0, 0));
}

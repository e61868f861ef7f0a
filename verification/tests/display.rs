use microbit_two::lpm013m126a::lpm013m126a::{Command, Lpm013m126a};
use microbit_two::lpm013m126a::Palette8;
use microbit_two::Error;

const WIDTH: u8 = 176;
const HEIGHT: u8 = 176;
const LINE_BYTES: usize = 88;
const FRAME_BYTES: usize = 92;

#[test]
fn new_driver_is_idle_with_black_framebuffer() {
    let d = Lpm013m126a::new();
    assert!(!d.is_drawing());
    assert!(!d.is_update_pending());
    assert_eq!(d.current_line(), 0);
    assert_eq!(d.frame_buffer().len(), LINE_BYTES * HEIGHT as usize);
    assert!(d.frame_buffer().iter().all(|&b| b == 0));
    assert_eq!(d.line_buffer().len(), FRAME_BYTES);
}

#[test]
fn dma_command_opcodes_match_the_wire_protocol() {
    assert_eq!(Command::DrawLines3bit.encode(), 0b_1000_0000);
    assert_eq!(Command::DrawLines1bit.encode(), 0b_1000_1000);
    assert_eq!(Command::DrawLines4bit.encode(), 0b_1001_0000);
    assert_eq!(Command::NoUpdate.encode(), 0b_0000_0000);
    assert_eq!(Command::Clear.encode(), 0b_0010_0000);
    assert_eq!(Command::BlinkBlack.encode(), 0b_0001_0000);
    assert_eq!(Command::BlinkWhite.encode(), 0b_0001_1000);
    assert_eq!(Command::InvertOn.encode(), 0b_0001_0100);
}

#[test]
fn short_command_frames_match_the_wire_protocol() {
    let d = Lpm013m126a::new();
    assert_eq!(d.send_clear(), [0b_0010_0000, 0]);
    assert_eq!(d.blink_white(), [0b_0001_1000, 0]);
}

#[test]
fn set_pixel_writes_one_nibble() {
    let mut d = Lpm013m126a::new();
    // even x lands in the high nibble of byte y * 88 + x / 2
    assert_eq!(d.set_pixel(10, 3, Palette8::White), Ok(()));
    assert_eq!(d.frame_buffer()[3 * LINE_BYTES + 5], 0xe0);
    // the odd neighbour shares the byte's low nibble
    assert_eq!(d.set_pixel(11, 3, Palette8::Red), Ok(()));
    assert_eq!(d.frame_buffer()[3 * LINE_BYTES + 5], 0xe8);
}

#[test]
fn second_write_wins_and_neighbour_is_untouched() {
    let mut d = Lpm013m126a::new();
    assert_eq!(d.set_pixel(11, 3, Palette8::White), Ok(()));
    assert_eq!(d.frame_buffer()[3 * LINE_BYTES + 5], 0x0e);
    assert_eq!(d.set_pixel(10, 3, Palette8::Red), Ok(()));
    assert_eq!(d.frame_buffer()[3 * LINE_BYTES + 5], 0x8e);
    assert_eq!(d.set_pixel(10, 3, Palette8::Blue), Ok(()));
    // the second write's colour is the one left; the odd neighbour kept White
    assert_eq!(d.frame_buffer()[3 * LINE_BYTES + 5], 0x2e);
}

#[test]
fn out_of_bounds_writes_are_reported_and_change_nothing() {
    let mut d = Lpm013m126a::new();
    assert_eq!(d.set_pixel(WIDTH, 0, Palette8::White), Err(Error::OutOfBoundsError));
    assert_eq!(d.set_pixel(0, HEIGHT, Palette8::White), Err(Error::OutOfBoundsError));
    assert_eq!(d.set_pixel(255, 255, Palette8::White), Err(Error::OutOfBoundsError));
    assert!(d.frame_buffer().iter().all(|&b| b == 0));
    assert!(!d.is_drawing());
}

/// Checks the line buffer against the wire protocol for a line whose pixel
/// bytes are `expected_line`.
fn assert_line_frame(d: &Lpm013m126a, line: u8, expected_line: &[u8]) {
    let buf = d.line_buffer();
    assert_eq!(buf.len(), FRAME_BYTES);
    assert_eq!(buf[0], 0b_1001_0000);
    assert_eq!(buf[1], line);
    assert_eq!(&buf[2..2 + LINE_BYTES], expected_line);
    assert_eq!(buf[2 + LINE_BYTES], 0);
    assert_eq!(buf[2 + LINE_BYTES + 1], 0);
}

#[test]
fn corner_pixels_reach_the_right_lines_and_nibbles() {
    let mut d = Lpm013m126a::new();
    d.set_pixel(0, 0, Palette8::White).unwrap();
    d.set_pixel(175, 175, Palette8::White).unwrap();

    assert!(d.update_display());
    let mut first = [0u8; LINE_BYTES];
    first[0] = 0xe0; // even x = 0: high nibble of the first byte
    assert_line_frame(&d, 0, &first);

    for line in 1..HEIGHT {
        assert!(d.spi_task_event());
        if line == 175 {
            let mut last = [0u8; LINE_BYTES];
            last[87] = 0x0e; // odd x = 175: low nibble of the last byte
            assert_line_frame(&d, 175, &last);
        } else {
            assert_line_frame(&d, line, &[0u8; LINE_BYTES]);
        }
    }
}

/// Completes transfers until the driver goes idle, and returns how many times
/// a sweep restarted from line 0.
fn finish_sweeps(d: &mut Lpm013m126a) -> u32 {
    let mut restarts = 0u32;
    let mut events = 0u32;
    while d.is_drawing() {
        if d.spi_task_event() && d.current_line() == 0 {
            restarts += 1;
        }
        events += 1;
        assert!(events <= 1000, "driver never went idle");
    }
    restarts
}

#[test]
fn redraw_requests_while_in_flight_coalesce_to_one_extra_sweep() {
    let mut d = Lpm013m126a::new();
    assert!(d.update_display());
    // half way through the sweep, request five more redraws
    for _ in 0..80 {
        assert!(d.spi_task_event());
    }
    for _ in 0..5 {
        assert!(!d.update_display());
    }
    // exactly one extra sweep follows the current one, not five
    assert_eq!(finish_sweeps(&mut d), 1);
    assert!(!d.is_drawing());
    assert!(!d.is_update_pending());
    assert_eq!(d.current_line(), 0);
}

#[test]
fn second_idle_request_is_absorbed() {
    let mut d = Lpm013m126a::new();
    assert!(d.update_display());
    let line = d.current_line();
    let pending = d.is_update_pending();
    let buffer = d.line_buffer().clone();
    // a second request in immediate succession starts no transfer of its own
    // and leaves the driver's state exactly as the first call left it
    assert!(!d.update_display());
    assert!(d.is_drawing());
    assert_eq!(d.current_line(), line);
    assert_eq!(d.is_update_pending(), pending);
    assert_eq!(d.line_buffer(), &buffer);
    // completing the sweeps issues the same single pending follow-up sweep a
    // lone request leaves behind: the second request added none
    assert_eq!(finish_sweeps(&mut d), 1);

    let mut single = Lpm013m126a::new();
    assert!(single.update_display());
    assert_eq!(finish_sweeps(&mut single), 1);
}

#[test]
fn sweep_sends_every_line_once_then_goes_idle_after_pending_update() {
    let mut d = Lpm013m126a::new();
    assert!(d.update_display());
    let mut sends = 1u32; // the kick-off sent line 0
    while d.is_drawing() {
        if d.spi_task_event() {
            sends += 1;
        }
    }
    // the request itself left the update flag set, so the first full sweep is
    // followed by exactly one more before the driver rests
    assert_eq!(sends, 352);
    assert_eq!(d.current_line(), 0);
}

#[test]
fn release_hands_back_both_buffers() {
    let mut d = Lpm013m126a::new();
    d.set_pixel(0, 0, Palette8::Cyan).unwrap();
    let (line_buffer, frame_buffer) = d.release();
    assert_eq!(line_buffer.len(), FRAME_BYTES);
    assert_eq!(frame_buffer.len(), LINE_BYTES * HEIGHT as usize);
    assert_eq!(frame_buffer[0], 0x60);
}

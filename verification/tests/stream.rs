use microbit_two::lpm013m126a::{Colour, Command, Lpm013m126a, ALL_COLOUR_LEN, ALL_WHITE_LEN};

#[test]
fn command_words_match_the_wire_protocol() {
    assert_eq!(Command::DrawLines3bit(1).encode(), 0x8001);
    assert_eq!(Command::DrawLines1bit(3).encode(), 0x8803);
    assert_eq!(Command::DrawLines4bit(1).encode(), 0x9001);
    assert_eq!(Command::DrawLines4bit(176).encode(), 0x90b0);
    assert_eq!(Command::NoUpdate.encode(), 0x0000);
    assert_eq!(Command::Clear.encode(), 0x2000);
    assert_eq!(Command::BlinkBlack.encode(), 0x1000);
    assert_eq!(Command::BlinkWhite.encode(), 0x1800);
    assert_eq!(Command::InvertOn.encode(), 0x1400);
}

#[test]
fn command_frames_are_big_endian() {
    assert_eq!(Command::DrawLines4bit(1).to_be_frame(), [0x90, 0x01]);
    assert_eq!(Command::BlinkWhite.to_be_frame(), [0x18, 0x00]);
}

#[test]
fn colour_codes_round_trip() {
    let all = [
        Colour::Black,
        Colour::Blue,
        Colour::Green,
        Colour::Cyan,
        Colour::Red,
        Colour::Pink,
        Colour::Yellow,
        Colour::White,
    ];
    for c in all {
        assert_eq!(Colour::from_code(c.to_code()), c);
    }
    assert_eq!(Colour::from_code(8), Colour::Black);
    assert_eq!(Colour::from_code(200), Colour::Black);
}

#[test]
fn blocking_short_frames_match_the_wire_protocol() {
    let d = Lpm013m126a::new();
    assert_eq!(d.blink_white(), [0x18, 0x00]);
    assert_eq!(d.send_clear(), [0x20, 0x00]);
}

#[test]
fn all_white_stream_has_headers_lines_and_trailer() {
    let mut d = Lpm013m126a::new();
    let len = d.send_all_white();
    assert_eq!(len, ALL_WHITE_LEN);
    let buf = d.buffer();
    assert_eq!(buf.len(), 16384);
    // command word opening line 1
    assert_eq!(buf[0], 0x80);
    assert_eq!(buf[1], 0x01);
    // first line: 66 bytes of set bits
    assert!(buf[2..68].iter().all(|&b| b == 0xff));
    // second line: header for line 2, then its data
    assert_eq!(buf[68], 0x00);
    assert_eq!(buf[69], 0x02);
    assert!(buf[70..136].iter().all(|&b| b == 0xff));
    // last line: header for line 176
    assert_eq!(buf[68 * 175], 0x00);
    assert_eq!(buf[68 * 175 + 1], 176);
    assert!(buf[68 * 175 + 2..68 * 175 + 68].iter().all(|&b| b == 0xff));
    // trailer
    assert_eq!(buf[11968], 0x00);
    assert_eq!(buf[11969], 0x00);
}

#[test]
fn colour_stream_paints_every_line_with_the_nibble_pair() {
    let mut d = Lpm013m126a::new();
    let len = d.send_colour(Colour::Red);
    assert_eq!(len, ALL_COLOUR_LEN);
    let buf = d.buffer();
    // command word opening line 1
    assert_eq!(buf[0], 0x90);
    assert_eq!(buf[1], 0x01);
    // Red has code 4, wire nibble 8, so every pixel byte is 0x88
    assert!(buf[2..90].iter().all(|&b| b == 0x88));
    assert_eq!(buf[90], 0x00);
    assert_eq!(buf[91], 0x02);
    assert!(buf[92..180].iter().all(|&b| b == 0x88));
    assert_eq!(buf[90 * 175], 0x00);
    assert_eq!(buf[90 * 175 + 1], 176);
    assert!(buf[90 * 175 + 2..90 * 175 + 90].iter().all(|&b| b == 0x88));
    assert_eq!(buf[15840], 0x00);
    assert_eq!(buf[15841], 0x00);
}

#[test]
fn colour_stream_nibble_pairs_follow_the_colour() {
    let mut d = Lpm013m126a::new();
    d.send_colour(Colour::White);
    assert_eq!(d.buffer()[2], 0xee);
    d.send_colour(Colour::Blue);
    assert_eq!(d.buffer()[2], 0x22);
    d.send_colour(Colour::Black);
    assert_eq!(d.buffer()[2], 0x00);
}

#[test]
fn release_hands_back_the_stream_buffer() {
    let mut d = Lpm013m126a::new();
    d.send_all_white();
    let buf = d.release();
    assert_eq!(buf.len(), 16384);
    assert_eq!(buf[0], 0x80);
}

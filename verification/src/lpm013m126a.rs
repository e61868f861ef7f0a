//! # JDI LPM013M126A
//! SPI 8 colour memory in pixel (MIP) display.
//!
//! Two drivers live here: this module holds the blocking-bus variant, which
//! assembles whole multi-line command streams that a caller writes out
//! synchronously (asserting chip select around each write); the
//! [`lpm013m126a`] submodule holds the DMA variant, which streams the
//! framebuffer one line at a time and coalesces redraw requests.

pub mod lpm013m126a;
pub mod palette;

pub use palette::Palette8;

use vstd::prelude::*;
use vstd::arithmetic::div_mod::lemma_fundamental_div_mod_converse;

verus! {

/// Commands of the blocking driver, carrying a 10-bit line address where the
/// panel expects one.
pub enum Command {
    /// Update lines in 3-bit colour mode, starting at the given line address
    DrawLines3bit(u8),
    /// Update lines in 1-bit colour mode, starting at the given line address
    DrawLines1bit(u8),
    /// Update lines in 4-bit colour mode, starting at the given line address
    DrawLines4bit(u8),
    /// No update
    NoUpdate,
    /// Clear screen
    Clear,
    /// Blink off
    BlinkOff,
    /// Blink black
    BlinkBlack,
    /// Blink white
    BlinkWhite,
    /// Inverted colours
    InvertOn,
    /// Normal colours
    InvertOff,
}

/// The 16-bit command word: a 6-bit opcode above 10 address bits.
pub open spec fn command_word(c: Command) -> u16 {
    match c {
        Command::DrawLines3bit(address) => (0b_100000u16 << 10) | (address as u16),
        Command::DrawLines1bit(address) => (0b_100010u16 << 10) | (address as u16),
        Command::DrawLines4bit(address) => (0b_100100u16 << 10) | (address as u16),
        Command::NoUpdate => 0b_000000u16 << 10,
        Command::Clear => 0b_001000u16 << 10,
        Command::BlinkOff => 0b_000000u16 << 10,
        Command::BlinkBlack => 0b_000100u16 << 10,
        Command::BlinkWhite => 0b_000110u16 << 10,
        Command::InvertOn => 0b_000101u16 << 10,
        Command::InvertOff => 0b_000000u16 << 10,
    }
}

/// The first byte of a command word on the wire (big endian).
pub open spec fn high_byte(w: u16) -> u8 {
    (w >> 8) as u8
}

/// The second byte of a command word on the wire (big endian).
pub open spec fn low_byte(w: u16) -> u8 {
    (w & 0xff) as u8
}

impl Command {
    /// The on-wire 16-bit word of this command.
    pub fn encode(self) -> (r: u16)
        ensures
            r == command_word(self),
    {
        match self {
            Command::DrawLines3bit(address) => (0b_100000u16 << 10) | (address as u16),
            Command::DrawLines1bit(address) => (0b_100010u16 << 10) | (address as u16),
            Command::DrawLines4bit(address) => (0b_100100u16 << 10) | (address as u16),
            Command::NoUpdate => 0b_000000u16 << 10,
            Command::Clear => 0b_001000u16 << 10,
            Command::BlinkOff => 0b_000000u16 << 10,
            Command::BlinkBlack => 0b_000100u16 << 10,
            Command::BlinkWhite => 0b_000110u16 << 10,
            Command::InvertOn => 0b_000101u16 << 10,
            Command::InvertOff => 0b_000000u16 << 10,
        }
    }

    /// The command word split into its two wire bytes, big end first.
    pub fn to_be_frame(self) -> (frame: [u8; 2])
        ensures
            frame@ == seq![high_byte(command_word(self)), low_byte(command_word(self))],
    {
        let w = self.encode();
        let hi = (w >> 8) as u8;
        proof {
            assert(w >> 8 < 256 && w & 0xff < 256) by (bit_vector);
        }
        let lo = (w & 0xff) as u8;
        let frame = [hi, lo];
        proof {
            assert(frame@ =~= seq![high_byte(w), low_byte(w)]);
        }
        frame
    }
}

/// The eight panel colours of the blocking driver, mapped to their 3-bit
/// codes.
#[derive(Clone, Copy, Debug, PartialEq, Eq, Structural)]
pub enum Colour {
    Black,
    Blue,
    Green,
    Cyan,
    Red,
    Pink,
    Yellow,
    White,
}

/// The 3-bit code of a colour.
pub open spec fn colour_code(c: Colour) -> u8 {
    match c {
        Colour::Black => 0,
        Colour::Blue => 1,
        Colour::Green => 2,
        Colour::Cyan => 3,
        Colour::Red => 4,
        Colour::Pink => 5,
        Colour::Yellow => 6,
        Colour::White => 7,
    }
}

/// The colour denoted by a 3-bit code; every code above 7 denotes Black.
pub open spec fn colour_for_code(value: u8) -> Colour {
    if value == 1 {
        Colour::Blue
    } else if value == 2 {
        Colour::Green
    } else if value == 3 {
        Colour::Cyan
    } else if value == 4 {
        Colour::Red
    } else if value == 5 {
        Colour::Pink
    } else if value == 6 {
        Colour::Yellow
    } else if value == 7 {
        Colour::White
    } else {
        Colour::Black
    }
}

impl Colour {
    /// The 3-bit code of this colour.
    pub fn to_code(self) -> (r: u8)
        ensures
            r == colour_code(self),
            r < 8,
    {
        match self {
            Colour::Black => 0,
            Colour::Blue => 1,
            Colour::Green => 2,
            Colour::Cyan => 3,
            Colour::Red => 4,
            Colour::Pink => 5,
            Colour::Yellow => 6,
            Colour::White => 7,
        }
    }

    /// The colour for a 3-bit code.  Total: every code above 7 decodes to
    /// Black rather than failing.
    pub fn from_code(value: u8) -> (r: Colour)
        ensures
            r == colour_for_code(value),
    {
        match value {
            1 => Colour::Blue,
            2 => Colour::Green,
            3 => Colour::Cyan,
            4 => Colour::Red,
            5 => Colour::Pink,
            6 => Colour::Yellow,
            7 => Colour::White,
            _ => Colour::Black,
        }
    }
}

/// Law: encoding a colour and decoding the code gives the colour back, for
/// all eight values of the blocking driver's palette.
pub proof fn lemma_colour_code_round_trip(c: Colour)
    ensures
        colour_for_code(colour_code(c)) == c,
{
}

/// The command stream buffer size of the blocking driver.
pub const BUFFER_SIZE: usize = 16384;

/// Bytes of a 3-bit-colour line: 176 pixels at 3 bits.
pub const LINE_WIDTH_3BIT: usize = 66;

/// Bytes of a 4-bit-colour line: 176 pixels at 4 bits.
pub const LINE_WIDTH_4BIT: usize = 88;

/// Length of the all-white 3-bit stream: a 2-byte command opening line 1,
/// 176 lines of 66 bytes with a 2-byte address header before each line after
/// the first, and a 2-byte trailer.
pub const ALL_WHITE_LEN: usize = 11970;

/// Length of a full-screen 4-bit single-colour stream: a 2-byte command
/// opening line 1, 176 lines of 88 bytes with a 2-byte address header before
/// each line after the first, and a 2-byte trailer.
pub const ALL_COLOUR_LEN: usize = 15842;

/// The byte at index `i` of the all-white 3-bit stream.  Each line occupies a
/// 68-byte stride: a 2-byte header (absent for the first line, whose place is
/// taken by the command word) and 66 bytes of set bits.
pub open spec fn all_white_byte(i: int) -> u8 {
    if i == 0 {
        high_byte(command_word(Command::DrawLines3bit(1)))
    } else if i == 1 {
        low_byte(command_word(Command::DrawLines3bit(1)))
    } else if i < 11968 {
        if i % 68 == 0 {
            0
        } else if i % 68 == 1 {
            ((i / 68 + 1) as u8)
        } else {
            0xff
        }
    } else {
        0
    }
}

/// The byte at index `i` of the full-screen 4-bit stream of colour `c`.  Each
/// line occupies a 90-byte stride: a 2-byte header (absent for the first
/// line, whose place is taken by the command word) and 88 bytes holding the
/// colour's nibble twice.
pub open spec fn colour_stream_byte(c: Colour, i: int) -> u8 {
    if i == 0 {
        high_byte(command_word(Command::DrawLines4bit(1)))
    } else if i == 1 {
        low_byte(command_word(Command::DrawLines4bit(1)))
    } else if i < 15840 {
        if i % 90 == 0 {
            0
        } else if i % 90 == 1 {
            ((i / 90 + 1) as u8)
        } else {
            colour_pair_byte(c)
        }
    } else {
        0
    }
}

/// A byte holding a colour's wire nibble in both halves: two pixels of the
/// same colour.
pub open spec fn colour_pair_byte(c: Colour) -> u8 {
    ((colour_code(c) * 2) * 16 + colour_code(c) * 2) as u8
}

/// Blocking driver for the panel: it assembles whole command streams in its
/// buffer and hands the caller the number of bytes to write out over the
/// (chip-select framed) bus.
pub struct Lpm013m126a {
    buffer: Vec<u8>,
}

impl Lpm013m126a {
    /// The command stream buffer contents.
    pub closed spec fn buf(&self) -> Seq<u8> {
        self.buffer@
    }

    /// Well-formedness: the buffer keeps its fixed size.
    pub closed spec fn wf(&self) -> bool {
        self.buffer@.len() == BUFFER_SIZE
    }

    /// Creates the driver with a zeroed command stream buffer.
    pub fn new() -> (r: Lpm013m126a)
        ensures
            r.wf(),
            forall|i: int| 0 <= i < BUFFER_SIZE ==> r.buf()[i] == 0,
    {
        let mut buffer: Vec<u8> = Vec::new();
        while buffer.len() < BUFFER_SIZE
            invariant
                buffer@.len() <= BUFFER_SIZE,
                forall|i: int| 0 <= i < buffer@.len() ==> buffer@[i] == 0,
            decreases BUFFER_SIZE - buffer@.len(),
        {
            buffer.push(0);
        }
        Lpm013m126a { buffer }
    }

    /// Consumes the driver and hands its command stream buffer back.
    pub fn release(self) -> (r: Vec<u8>)
        ensures
            r@ == self.buf(),
    {
        self.buffer
    }

    /// The command stream buffer; after a fill call the caller writes its
    /// first `len` bytes to the bus.
    pub fn buffer(&self) -> (r: &Vec<u8>)
        ensures
            r@ == self.buf(),
    {
        &self.buffer
    }

    /// The 2-byte blink-white frame; the caller writes it to the bus.
    pub fn blink_white(&self) -> (frame: [u8; 2])
        ensures
            frame@ == seq![
                high_byte(command_word(Command::BlinkWhite)),
                low_byte(command_word(Command::BlinkWhite)),
            ],
    {
        Command::BlinkWhite.to_be_frame()
    }

    /// The 2-byte clear-screen frame; the caller writes it to the bus.
    pub fn send_clear(&self) -> (frame: [u8; 2])
        ensures
            frame@ == seq![
                high_byte(command_word(Command::Clear)),
                low_byte(command_word(Command::Clear)),
            ],
    {
        Command::Clear.to_be_frame()
    }

    /// Fills the buffer with a 3-bit-colour stream painting the whole panel
    /// white, and returns how many bytes the caller must write to the bus.
    pub fn send_all_white(&mut self) -> (len: usize)
        requires
            old(self).wf(),
        ensures
            final(self).wf(),
            len == ALL_WHITE_LEN,
            forall|i: int| 0 <= i < len ==> final(self).buf()[i] == all_white_byte(i),
    {
        let frame = Command::DrawLines3bit(1).to_be_frame();
        self.buffer[0] = frame[0];
        self.buffer[1] = frame[1];
        let mut offset: usize = 2;
        for w in 0..LINE_WIDTH_3BIT
            invariant
                self.wf(),
                offset == 2 + w,
                forall|i: int| 0 <= i < offset ==> self.buffer@[i] == all_white_byte(i),
        {
            proof {
                lemma_fundamental_div_mod_converse(offset as int, 68, 0, offset as int);
            }
            self.buffer[offset] = 0xff;
            offset = offset + 1;
        }
        for h in 1..176usize
            invariant
                self.wf(),
                offset == 68int * h,
                forall|i: int| 0 <= i < offset ==> self.buffer@[i] == all_white_byte(i),
        {
            proof {
                lemma_fundamental_div_mod_converse(offset as int, 68, h as int, 0);
                lemma_fundamental_div_mod_converse(offset as int + 1, 68, h as int, 1);
            }
            self.buffer[offset] = 0;
            self.buffer[offset + 1] = (h + 1) as u8;
            offset = offset + 2;
            for w in 0..LINE_WIDTH_3BIT
                invariant
                    self.wf(),
                    1 <= h < 176,
                    offset == 68int * h + 2 + w,
                    forall|i: int|
                        0 <= i < offset ==> self.buffer@[i] == all_white_byte(i),
            {
                proof {
                    lemma_fundamental_div_mod_converse(
                        offset as int,
                        68,
                        h as int,
                        offset - 68int * h,
                    );
                }
                self.buffer[offset] = 0xff;
                offset = offset + 1;
            }
        }
        proof {
            lemma_fundamental_div_mod_converse(offset as int, 68, 176, 0);
        }
        self.buffer[offset] = 0;
        self.buffer[offset + 1] = 0;
        offset + 2
    }

    /// Fills the buffer with a 4-bit-colour stream painting the whole panel
    /// in one colour, and returns how many bytes the caller must write to the
    /// bus.
    pub fn send_colour(&mut self, colour: Colour) -> (len: usize)
        requires
            old(self).wf(),
        ensures
            final(self).wf(),
            len == ALL_COLOUR_LEN,
            forall|i: int|
                0 <= i < len ==> final(self).buf()[i] == colour_stream_byte(colour, i),
    {
        let code = colour.to_code();
        let colour_nibble = code * 2;
        let pair = colour_nibble * 16 + colour_nibble;
        let frame = Command::DrawLines4bit(1).to_be_frame();
        self.buffer[0] = frame[0];
        self.buffer[1] = frame[1];
        let mut offset: usize = 2;
        for w in 0..LINE_WIDTH_4BIT
            invariant
                self.wf(),
                pair == colour_pair_byte(colour),
                offset == 2 + w,
                forall|i: int|
                    0 <= i < offset ==> self.buffer@[i] == colour_stream_byte(colour, i),
        {
            proof {
                lemma_fundamental_div_mod_converse(offset as int, 90, 0, offset as int);
            }
            self.buffer[offset] = pair;
            offset = offset + 1;
        }
        for h in 1..176usize
            invariant
                self.wf(),
                pair == colour_pair_byte(colour),
                offset == 90int * h,
                forall|i: int|
                    0 <= i < offset ==> self.buffer@[i] == colour_stream_byte(colour, i),
        {
            proof {
                lemma_fundamental_div_mod_converse(offset as int, 90, h as int, 0);
                lemma_fundamental_div_mod_converse(offset as int + 1, 90, h as int, 1);
            }
            self.buffer[offset] = 0;
            self.buffer[offset + 1] = (h + 1) as u8;
            offset = offset + 2;
            for w in 0..LINE_WIDTH_4BIT
                invariant
                    self.wf(),
                    pair == colour_pair_byte(colour),
                    1 <= h < 176,
                    offset == 90int * h + 2 + w,
                    forall|i: int|
                        0 <= i < offset ==> self.buffer@[i] == colour_stream_byte(colour, i),
            {
                proof {
                    lemma_fundamental_div_mod_converse(
                        offset as int,
                        90,
                        h as int,
                        offset - 90int * h,
                    );
                }
                self.buffer[offset] = pair;
                offset = offset + 1;
            }
        }
        proof {
            lemma_fundamental_div_mod_converse(offset as int, 90, 176, 0);
        }
        self.buffer[offset] = 0;
        self.buffer[offset + 1] = 0;
        offset + 2
    }
}

} // verus!

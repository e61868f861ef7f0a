//! DMA-driven line-sequential driver for the LPM013M126A panel.
//!
//! The driver owns a packed 4-bit-per-pixel framebuffer and a small line
//! transfer buffer.  Pixel writes mutate single nibbles in place; a redraw
//! request starts a sweep that sends the framebuffer to the panel one line at
//! a time, and requests that arrive while a sweep is in flight coalesce into
//! at most one extra sweep.  The caller owns the SPI peripheral: whenever a
//! method returns `true` it must start an asynchronous bus write of
//! [`Lpm013m126a::line_buffer`], and it must report each transfer completion
//! back through [`Lpm013m126a::spi_task_event`].

use vstd::prelude::*;

use crate::error::Error;
use crate::lpm013m126a::palette::{nibble_spec, Palette8};

verus! {

/// SPI commands for the JDI LPM013M126A.
pub enum Command {
    /// Update the specified line in 3-bit colour mode
    DrawLines3bit,
    /// Update the specified line in 1-bit colour mode
    DrawLines1bit,
    /// Update the specified line in 4-bit colour mode
    DrawLines4bit,
    /// No update
    NoUpdate,
    /// Clear screen
    Clear,
    /// Blink off
    BlinkOff,
    /// Blink black
    BlinkBlack,
    /// Blink white
    BlinkWhite,
    /// Inverted colours
    InvertOn,
    /// Normal colours
    InvertOff,
}

/// The opcode byte that opens each frame sent to the panel.
pub open spec fn command_byte(c: Command) -> u8 {
    match c {
        Command::DrawLines3bit => 0b_1000_0000,
        Command::DrawLines1bit => 0b_1000_1000,
        Command::DrawLines4bit => 0b_1001_0000,
        Command::NoUpdate => 0b_0000_0000,
        Command::Clear => 0b_0010_0000,
        Command::BlinkOff => 0b_0000_0000,
        Command::BlinkBlack => 0b_0001_0000,
        Command::BlinkWhite => 0b_0001_1000,
        Command::InvertOn => 0b_0001_0100,
        Command::InvertOff => 0b_0000_0000,
    }
}

impl Command {
    /// The on-wire opcode byte of this command.
    pub fn encode(self) -> (r: u8)
        ensures
            r == command_byte(self),
    {
        match self {
            Command::DrawLines3bit => 0b_1000_0000,
            Command::DrawLines1bit => 0b_1000_1000,
            Command::DrawLines4bit => 0b_1001_0000,
            Command::NoUpdate => 0b_0000_0000,
            Command::Clear => 0b_0010_0000,
            Command::BlinkOff => 0b_0000_0000,
            Command::BlinkBlack => 0b_0001_0000,
            Command::BlinkWhite => 0b_0001_1000,
            Command::InvertOn => 0b_0001_0100,
            Command::InvertOff => 0b_0000_0000,
        }
    }
}

/// Panel width in pixels.
pub const DISPLAY_WIDTH: u8 = 176;

/// Panel height in lines.
pub const DISPLAY_HEIGHT: u8 = 176;

/// Bytes per framebuffer line: two 4-bit pixels per byte.
pub const LINE_WIDTH_4BIT: usize = 88;

/// Bytes of a 4-bit-colour line update frame: opcode, line address, one line
/// of packed pixels, and a 2-byte trailer.
pub const OCTETS_4BIT_LINE_CMD: usize = 92;

/// Bytes of the packed framebuffer: 176 lines of 88 bytes.
pub const FRAME_BUFFER_SIZE: usize = 15488;

/// The framebuffer byte index holding pixel (x, y).
pub open spec fn fb_index(x: int, y: int) -> int {
    y * (LINE_WIDTH_4BIT as int) + x / 2
}

/// A byte with the pixel of parity `x` replaced by nibble `nib`: an even `x`
/// lands in the high nibble, an odd `x` in the low nibble.
pub open spec fn byte_with_pixel(b: u8, x: int, nib: u8) -> u8 {
    if x % 2 == 0 {
        (b & 0x0f) | (((nib & 0x0f) as u8) << 4)
    } else {
        (b & 0xf0) | (nib & 0x0f)
    }
}

/// The nibble stored for pixel (x, y).
pub open spec fn pixel_nibble(fb: Seq<u8>, x: int, y: int) -> u8 {
    if x % 2 == 0 {
        fb[fb_index(x, y)] >> 4
    } else {
        fb[fb_index(x, y)] & 0x0f
    }
}

/// The framebuffer after writing colour `c` at (x, y).
pub open spec fn fb_write(fb: Seq<u8>, x: int, y: int, c: Palette8) -> Seq<u8> {
    fb.update(fb_index(x, y), byte_with_pixel(fb[fb_index(x, y)], x, nibble_spec(c)))
}

/// The line-update frame for `line`: the 4-bit-colour opcode, the line
/// address, the line's 88 packed pixel bytes, and two trailer bytes.
pub open spec fn line_frame(fb: Seq<u8>, line: int) -> Seq<u8> {
    seq![command_byte(Command::DrawLines4bit), line as u8] + fb.subrange(
        line * (LINE_WIDTH_4BIT as int),
        line * (LINE_WIDTH_4BIT as int) + (LINE_WIDTH_4BIT as int),
    ) + seq![0u8, 0u8]
}

/// The control state of the refresh state machine: whether a sweep is in
/// flight, whether a redraw was requested since it started, and the index of
/// the line currently on the bus.
pub ghost struct SweepCtl {
    pub drawing: bool,
    pub update: bool,
    pub line: int,
}

/// Control state after a redraw request: the update flag is set, and an idle
/// driver starts drawing (at line 0, where an idle driver always rests).
pub open spec fn redraw_ctl(s: SweepCtl) -> SweepCtl {
    SweepCtl { drawing: true, update: true, line: s.line }
}

/// Control state after a transfer-complete event: the sweep advances to the
/// next line; at the end of a sweep a pending update starts one more sweep,
/// otherwise the driver falls back to idle.
pub open spec fn complete_ctl(s: SweepCtl) -> SweepCtl {
    if s.line + 1 < DISPLAY_HEIGHT as int {
        SweepCtl { drawing: s.drawing, update: s.update, line: s.line + 1 }
    } else if s.update {
        SweepCtl { drawing: true, update: false, line: 0 }
    } else {
        SweepCtl { drawing: false, update: false, line: 0 }
    }
}

pub struct Lpm013m126a {
    buffer: Vec<u8>,  // line transfer buffer: the only bytes handed to the bus
    frame_buffer: Vec<u8>,
    drawing: bool,
    update: bool,
    current_line: u8,
}

impl Lpm013m126a {
    /// The packed framebuffer contents.
    pub closed spec fn fb(&self) -> Seq<u8> {
        self.frame_buffer@
    }

    /// The line transfer buffer contents.
    pub closed spec fn line_buf(&self) -> Seq<u8> {
        self.buffer@
    }

    /// The control state of the refresh state machine.
    pub closed spec fn ctl(&self) -> SweepCtl {
        SweepCtl { drawing: self.drawing, update: self.update, line: self.current_line as int }
    }

    /// Well-formedness: the buffers have their fixed sizes, the line index is
    /// in range, and an idle driver rests at line 0 with no update pending.
    pub closed spec fn wf(&self) -> bool {
        &&& self.frame_buffer@.len() == FRAME_BUFFER_SIZE
        &&& self.buffer@.len() == OCTETS_4BIT_LINE_CMD
        &&& self.current_line < DISPLAY_HEIGHT
        &&& (!self.drawing ==> self.current_line == 0 && !self.update)
    }

    /// Creates an idle driver with an all-zero (all-Black) framebuffer.
    pub fn new() -> (r: Lpm013m126a)
        ensures
            r.wf(),
            !r.ctl().drawing,
            !r.ctl().update,
            r.ctl().line == 0,
            r.fb() == Seq::new(FRAME_BUFFER_SIZE as nat, |i: int| 0u8),
            r.line_buf() == Seq::new(OCTETS_4BIT_LINE_CMD as nat, |i: int| 0u8),
    {
        let r = Lpm013m126a {
            buffer: zero_vec(OCTETS_4BIT_LINE_CMD),
            frame_buffer: zero_vec(FRAME_BUFFER_SIZE),
            drawing: false,
            update: false,
            current_line: 0,
        };
        proof {
            assert(r.fb() =~= Seq::new(FRAME_BUFFER_SIZE as nat, |i: int| 0u8));
            assert(r.line_buf() =~= Seq::new(OCTETS_4BIT_LINE_CMD as nat, |i: int| 0u8));
        }
        r
    }

    /// Consumes the driver and hands its buffers back: the line transfer
    /// buffer and the framebuffer.
    pub fn release(self) -> (r: (Vec<u8>, Vec<u8>))
        ensures
            r.0@ == self.line_buf(),
            r.1@ == self.fb(),
    {
        (self.buffer, self.frame_buffer)
    }

    /// Writes one pixel: replaces the addressed nibble of the framebuffer in
    /// place, leaving every other pixel untouched.  A coordinate outside the
    /// panel is reported as an error and changes nothing.
    pub fn set_pixel(&mut self, x: u8, y: u8, colour: Palette8) -> (r: Result<(), Error>)
        requires
            old(self).wf(),
        ensures
            final(self).wf(),
            final(self).ctl() == old(self).ctl(),
            final(self).line_buf() == old(self).line_buf(),
            x < DISPLAY_WIDTH && y < DISPLAY_HEIGHT ==> r == Ok::<(), Error>(())
                && final(self).fb() == fb_write(old(self).fb(), x as int, y as int, colour),
            !(x < DISPLAY_WIDTH && y < DISPLAY_HEIGHT) ==> r == Err::<(), Error>(
                Error::OutOfBoundsError,
            ) && final(self).fb() == old(self).fb(),
    {
        if x >= DISPLAY_WIDTH || y >= DISPLAY_HEIGHT {
            return Err(Error::OutOfBoundsError);
        }
        let nib = colour.nibble();
        let i = (x as usize) / 2 + (y as usize) * LINE_WIDTH_4BIT;
        let b = self.frame_buffer[i];
        let nb = if x % 2 == 0 {
            (b & 0x0f) | (nib << 4)
        } else {
            (b & 0xf0) | nib
        };
        proof {
            assert(nib < 16 ==> (nib & 0x0f) == nib && (nib << 4) == ((nib & 0x0f) as u8) << 4)
                by (bit_vector);
        }
        self.frame_buffer[i] = nb;
        Ok(())
    }

    /// Fills the line transfer buffer with the update frame for `line`.
    fn send_line(&mut self, line: u8)
        requires
            old(self).wf(),
            line < DISPLAY_HEIGHT,
        ensures
            final(self).wf(),
            final(self).ctl() == old(self).ctl(),
            final(self).fb() == old(self).fb(),
            final(self).line_buf() == line_frame(old(self).fb(), line as int),
    {
        self.buffer[0] = Command::DrawLines4bit.encode();
        self.buffer[1] = line;
        let base = (line as usize) * LINE_WIDTH_4BIT;
        for i in 0..LINE_WIDTH_4BIT
            invariant
                self.wf(),
                self.ctl() == old(self).ctl(),
                self.fb() == old(self).fb(),
                base == (line as int) * (LINE_WIDTH_4BIT as int),
                base + LINE_WIDTH_4BIT <= FRAME_BUFFER_SIZE,
                self.line_buf()[0] == command_byte(Command::DrawLines4bit),
                self.line_buf()[1] == line,
                forall|k: int|
                    2 <= k < 2 + i ==> #[trigger] self.line_buf()[k] == self.fb()[base + (k
                        - 2)],
        {
            let v = self.frame_buffer[base + i];
            self.buffer[2 + i] = v;
        }
        self.buffer[2 + LINE_WIDTH_4BIT] = 0;
        self.buffer[2 + LINE_WIDTH_4BIT + 1] = 0;
        proof {
            assert(self.line_buf() =~= line_frame(old(self).fb(), line as int));
        }
    }

    /// Requests a redraw of the whole framebuffer.
    ///
    /// The update flag is set; an idle driver goes in flight and assembles
    /// the frame for line 0, in which case the caller must start a bus write
    /// of [`Lpm013m126a::line_buffer`] (reporting a failed start as
    /// [`Error::BusWriteError`]).  A driver already in flight changes nothing
    /// beyond the flag: the running sweep picks the request up, so any number
    /// of requests during one sweep coalesce.
    pub fn update_display(&mut self) -> (start: bool)
        requires
            old(self).wf(),
        ensures
            final(self).wf(),
            final(self).ctl() == redraw_ctl(old(self).ctl()),
            final(self).fb() == old(self).fb(),
            start == !old(self).ctl().drawing,
            start ==> final(self).line_buf() == line_frame(old(self).fb(), 0),
            !start ==> final(self).line_buf() == old(self).line_buf(),
    {
        self.update = true;
        if !self.drawing {
            self.drawing = true;
            self.send_line(0);
            true
        } else {
            false
        }
    }

    /// Handles the bus transfer-complete interrupt.
    ///
    /// The sweep advances to the next line; after the last line a pending
    /// update starts one more full sweep (capturing pixel writes made while
    /// the finished sweep ran), otherwise the driver falls back to idle.
    /// When `true` comes back the caller must start a bus write of
    /// [`Lpm013m126a::line_buffer`].
    pub fn spi_task_event(&mut self) -> (start: bool)
        requires
            old(self).wf(),
            old(self).ctl().drawing,
        ensures
            final(self).wf(),
            final(self).ctl() == complete_ctl(old(self).ctl()),
            final(self).fb() == old(self).fb(),
            start == final(self).ctl().drawing,
            start ==> final(self).line_buf() == line_frame(
                old(self).fb(),
                complete_ctl(old(self).ctl()).line,
            ),
            !start ==> final(self).line_buf() == old(self).line_buf(),
    {
        self.current_line = self.current_line + 1;
        if self.current_line < DISPLAY_HEIGHT {
            let line = self.current_line;
            self.send_line(line);
            true
        } else {
            self.current_line = 0;
            if self.update {
                self.update = false;
                self.send_line(0);
                true
            } else {
                self.drawing = false;
                false
            }
        }
    }

    /// The 2-byte clear-screen frame; the caller writes it to the bus.
    pub fn send_clear(&self) -> (frame: [u8; 2])
        ensures
            frame@ == seq![command_byte(Command::Clear), 0u8],
    {
        let frame = [Command::Clear.encode(), 0];
        proof {
            assert(frame@ =~= seq![command_byte(Command::Clear), 0u8]);
        }
        frame
    }

    /// The 2-byte blink-white frame; the caller writes it to the bus.
    pub fn blink_white(&self) -> (frame: [u8; 2])
        ensures
            frame@ == seq![command_byte(Command::BlinkWhite), 0u8],
    {
        let frame = [Command::BlinkWhite.encode(), 0];
        proof {
            assert(frame@ =~= seq![command_byte(Command::BlinkWhite), 0u8]);
        }
        frame
    }

    /// The line transfer buffer: the bytes a requested bus write must send.
    pub fn line_buffer(&self) -> (r: &Vec<u8>)
        ensures
            r@ == self.line_buf(),
    {
        &self.buffer
    }

    /// The packed framebuffer.
    pub fn frame_buffer(&self) -> (r: &Vec<u8>)
        ensures
            r@ == self.fb(),
    {
        &self.frame_buffer
    }

    /// Whether a sweep is in flight.
    pub fn is_drawing(&self) -> (r: bool)
        ensures
            r == self.ctl().drawing,
    {
        self.drawing
    }

    /// Whether a redraw request is still pending.
    pub fn is_update_pending(&self) -> (r: bool)
        ensures
            r == self.ctl().update,
    {
        self.update
    }

    /// The index of the line currently on the bus (0 when idle).
    pub fn current_line(&self) -> (r: u8)
        ensures
            r as int == self.ctl().line,
    {
        self.current_line
    }
}

/// The pixel of opposite parity sharing a framebuffer byte with `x`.
pub open spec fn neighbour(x: int) -> int {
    if x % 2 == 0 {
        x + 1
    } else {
        x - 1
    }
}

/// Law: writing a pixel stores exactly its nibble.
pub proof fn lemma_write_reads_back(fb: Seq<u8>, x: int, y: int, c: Palette8)
    requires
        fb.len() == FRAME_BUFFER_SIZE,
        0 <= x < DISPLAY_WIDTH as int,
        0 <= y < DISPLAY_HEIGHT as int,
    ensures
        pixel_nibble(fb_write(fb, x, y, c), x, y) == nibble_spec(c),
{
    let b = fb[fb_index(x, y)];
    let nib = nibble_spec(c);
    assert(nib < 16);
    assert(nib < 16 ==> (((b & 0x0f) | (((nib & 0x0f) as u8) << 4)) >> 4) == nib) by (bit_vector);
    assert(nib < 16 ==> (((b & 0xf0) | (nib & 0x0f)) & 0x0f) == nib) by (bit_vector);
    lemma_fb_index_bounds(x, y);
}

/// Law: writing a pixel leaves every other pixel of the panel untouched, in
/// particular the neighbouring pixel of opposite x parity in the same byte.
pub proof fn lemma_write_preserves_others(
    fb: Seq<u8>,
    x: int,
    y: int,
    c: Palette8,
    x2: int,
    y2: int,
)
    requires
        fb.len() == FRAME_BUFFER_SIZE,
        0 <= x < DISPLAY_WIDTH as int,
        0 <= y < DISPLAY_HEIGHT as int,
        0 <= x2 < DISPLAY_WIDTH as int,
        0 <= y2 < DISPLAY_HEIGHT as int,
        !(x2 == x && y2 == y),
    ensures
        pixel_nibble(fb_write(fb, x, y, c), x2, y2) == pixel_nibble(fb, x2, y2),
{
    lemma_fb_index_bounds(x, y);
    lemma_fb_index_bounds(x2, y2);
    if fb_index(x2, y2) == fb_index(x, y) {
        // same byte, so y2 == y and x2 is the neighbour of opposite parity
        assert(y2 == y) by {
            assert(0 <= x / 2 < LINE_WIDTH_4BIT as int && 0 <= x2 / 2 < LINE_WIDTH_4BIT as int);
        }
        assert(x2 % 2 != x % 2);
        let b = fb[fb_index(x, y)];
        let nib = nibble_spec(c);
        assert((((b & 0x0f) | (((nib & 0x0f) as u8) << 4)) & 0x0f) == (b & 0x0f)) by (bit_vector);
        assert((((b & 0xf0) | (nib & 0x0f)) >> 4) == (b >> 4)) by (bit_vector);
    }
}

/// Law: of two sequential writes to the same coordinate, the second write's
/// colour is the one left in the framebuffer, and the neighbouring nibble of
/// opposite x parity is altered by neither write.
pub proof fn lemma_second_write_wins(fb: Seq<u8>, x: int, y: int, c1: Palette8, c2: Palette8)
    requires
        fb.len() == FRAME_BUFFER_SIZE,
        0 <= x < DISPLAY_WIDTH as int,
        0 <= y < DISPLAY_HEIGHT as int,
    ensures
        pixel_nibble(fb_write(fb_write(fb, x, y, c1), x, y, c2), x, y) == nibble_spec(c2),
        pixel_nibble(fb_write(fb_write(fb, x, y, c1), x, y, c2), neighbour(x), y) == pixel_nibble(
            fb,
            neighbour(x),
            y,
        ),
{
    let fb1 = fb_write(fb, x, y, c1);
    lemma_fb_index_bounds(x, y);
    lemma_write_reads_back(fb1, x, y, c2);
    lemma_write_preserves_others(fb, x, y, c1, neighbour(x), y);
    lemma_write_preserves_others(fb1, x, y, c2, neighbour(x), y);
}

/// The framebuffer index of an in-range pixel is in range.
proof fn lemma_fb_index_bounds(x: int, y: int)
    requires
        0 <= x < DISPLAY_WIDTH as int,
        0 <= y < DISPLAY_HEIGHT as int,
    ensures
        0 <= fb_index(x, y) < FRAME_BUFFER_SIZE,
        fb_index(x, y) == y * (LINE_WIDTH_4BIT as int) + x / 2,
        0 <= x / 2 < LINE_WIDTH_4BIT as int,
{
}

/// The control state after `n` redraw requests in a row.
pub open spec fn after_redraws(s: SweepCtl, n: nat) -> SweepCtl
    decreases n,
{
    if n == 0 {
        s
    } else {
        redraw_ctl(after_redraws(s, (n - 1) as nat))
    }
}

/// Termination measure for a driver left to finish on completion events only.
pub open spec fn sweep_measure(s: SweepCtl) -> int {
    if !s.drawing || !(0 <= s.line < DISPLAY_HEIGHT as int) {
        0
    } else if s.update {
        (DISPLAY_HEIGHT as int) + 1 + (DISPLAY_HEIGHT as int) - s.line
    } else {
        (DISPLAY_HEIGHT as int) - s.line
    }
}

/// How many extra full sweeps (line-0 sends) the driver still issues if no
/// further redraw is requested and every transfer completes.
pub open spec fn extra_sweeps(s: SweepCtl) -> int
    decreases sweep_measure(s),
{
    if !s.drawing || !(0 <= s.line < DISPLAY_HEIGHT as int) {
        0
    } else {
        (if s.line + 1 == DISPLAY_HEIGHT as int && s.update {
            1int
        } else {
            0int
        }) + extra_sweeps(complete_ctl(s))
    }
}

/// Law: redraw requests coalesce.  Any number `n >= 1` of requests leaves the
/// driver in exactly the state one request leaves it in; while a sweep is in
/// flight that state differs from the pre-request state only in the update
/// flag.
pub proof fn lemma_redraws_coalesce(s: SweepCtl, n: nat)
    requires
        n >= 1,
    ensures
        after_redraws(s, n) == redraw_ctl(s),
        s.drawing ==> after_redraws(s, n) == (SweepCtl { drawing: true, update: true, line: s.line }),
    decreases n,
{
    if n > 1 {
        lemma_redraws_coalesce(s, (n - 1) as nat);
    } else {
        assert(after_redraws(s, 0) == s);
    }
}

/// Law: a driver in flight with an update pending issues exactly one extra
/// full sweep once the current sweep completes.
pub proof fn lemma_one_extra_sweep(s: SweepCtl)
    requires
        s.drawing,
        0 <= s.line < DISPLAY_HEIGHT as int,
        s.update,
    ensures
        extra_sweeps(s) == 1,
    decreases (DISPLAY_HEIGHT as int) - s.line,
{
    if s.line + 1 < DISPLAY_HEIGHT as int {
        lemma_one_extra_sweep(complete_ctl(s));
    } else {
        lemma_no_extra_sweep(complete_ctl(s));
    }
}

/// Law: a driver in flight with no update pending finishes its sweep without
/// issuing another.
pub proof fn lemma_no_extra_sweep(s: SweepCtl)
    requires
        s.drawing,
        0 <= s.line < DISPLAY_HEIGHT as int,
        !s.update,
    ensures
        extra_sweeps(s) == 0,
    decreases (DISPLAY_HEIGHT as int) - s.line,
{
    if s.line + 1 < DISPLAY_HEIGHT as int {
        lemma_no_extra_sweep(complete_ctl(s));
    } else {
        assert(extra_sweeps(complete_ctl(s)) == 0);
    }
}

/// Law (coalescing): if a redraw is requested `n >= 1` times while the driver
/// is in flight, exactly one extra full sweep follows the current one, not
/// `n`.
pub proof fn lemma_coalescing(s: SweepCtl, n: nat)
    requires
        s.drawing,
        0 <= s.line < DISPLAY_HEIGHT as int,
        n >= 1,
    ensures
        extra_sweeps(after_redraws(s, n)) == 1,
{
    lemma_redraws_coalesce(s, n);
    lemma_one_extra_sweep(after_redraws(s, n));
}

/// A zeroed byte vector of length `n`.
fn zero_vec(n: usize) -> (r: Vec<u8>)
    ensures
        r@.len() == n,
        forall|i: int| 0 <= i < n ==> r@[i] == 0,
{
    let mut r: Vec<u8> = Vec::new();
    while r.len() < n
        invariant
            r@.len() <= n,
            forall|i: int| 0 <= i < r@.len() ==> r@[i] == 0,
        decreases n - r@.len(),
    {
        r.push(0);
    }
    r
}

} // verus!

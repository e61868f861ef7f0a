//! Time-sliced driver for the 5x5 LED matrix.
//!
//! The matrix is scanned one row at a time.  A rotating one-hot 32-bit level
//! mask slices each row's active window into 32 ticks; a cell of brightness
//! `v` keeps its column driven for `v / 8 + 1` of those ticks (none when the
//! cell is zero), so the time-averaged duty cycle follows the brightness.
//!
//! The driver owns no pins: it records in [`LedMatrix::rows`] and
//! [`LedMatrix::cols`] which row line must be high and which column lines must
//! sink current after each tick, and the caller drives the hardware
//! accordingly.

use vstd::prelude::*;

verus! {

/// A 5x5 grid of 8-bit brightness values.
pub type Image = [[u8; 5]; 5];

/// The duty mask for a brightness bucket: its low `bucket + 1` bits set.
pub open spec fn level_mask_spec(bucket: int) -> u32 {
    if bucket >= 31 {
        0xffff_ffffu32
    } else {
        (((1u32 << ((bucket + 1) as u32)) - 1) as u32)
    }
}

/// Whether a cell of brightness `value` keeps its column driven while the
/// scan is at the (one-hot) level mask `level`.
pub open spec fn col_on_spec(value: u8, level: u32) -> bool {
    value != 0 && level_mask_spec(value as int / 8) & level == level
}

/// The number of ticks out of each 32-tick window for which a cell of
/// brightness `value` keeps its column driven.
pub open spec fn duty_ticks(value: u8) -> int {
    if value == 0 {
        0
    } else {
        value as int / 8 + 1
    }
}

/// The level mask advanced by one tick: a one-bit left rotation.
pub open spec fn next_level(level: u32) -> u32 {
    if level == 0x8000_0000u32 {
        1u32
    } else {
        level << 1
    }
}

pub struct LedMatrix {
    rows: [bool; 5],
    cols: [bool; 5],
    level: u32,
    row: usize,
    buffer: Image,
    next_buffer: Image,
    next_updated: bool,
}

impl LedMatrix {
    /// The image currently scanned out.
    pub closed spec fn shown(&self) -> Seq<Seq<u8>> {
        self.buffer.deep_view()
    }

    /// The image waiting to be swapped in at the next row-0 boundary.
    pub closed spec fn pending(&self) -> Seq<Seq<u8>> {
        self.next_buffer.deep_view()
    }

    /// Whether the pending image still awaits its swap.
    pub closed spec fn dirty(&self) -> bool {
        self.next_updated
    }

    /// The one-hot level mask of the current tick.
    pub closed spec fn scan_level(&self) -> u32 {
        self.level
    }

    /// The row currently scanned.
    pub closed spec fn scan_row(&self) -> int {
        self.row as int
    }

    /// Which row lines are driven high.
    pub closed spec fn row_drive(&self) -> Seq<bool> {
        self.rows@
    }

    /// Which column lines are driven on.
    pub closed spec fn col_drive(&self) -> Seq<bool> {
        self.cols@
    }

    /// Well-formedness: the level mask is one-hot, the row index is in range,
    /// and no row line other than the current row's is driven.
    pub closed spec fn wf(&self) -> bool {
        &&& exists|k: int| 0 <= k < 32 && self.level == #[trigger] (1u32 << (k as u32))
        &&& self.row < 5
        &&& forall|j: int| 0 <= j < 5 && self.rows@[j] ==> j == self.row as int
    }

    /// Initializes the driver: zeroed buffers, scan at row 0 with the level
    /// mask at bit 0, and every output blanked.
    pub fn new() -> (r: LedMatrix)
        ensures
            r.wf(),
            r.scan_level() == 1u32,
            r.scan_row() == 0,
            !r.dirty(),
            forall|i: int, j: int| 0 <= i < 5 && 0 <= j < 5 ==> r.shown()[i][j] == 0,
            forall|i: int, j: int| 0 <= i < 5 && 0 <= j < 5 ==> r.pending()[i][j] == 0,
            forall|j: int| 0 <= j < 5 ==> !r.row_drive()[j],
            forall|j: int| 0 <= j < 5 ==> !r.col_drive()[j],
    {
        let r = LedMatrix {
            rows: [false; 5],
            cols: [false; 5],
            level: 1,
            row: 0,
            buffer: [[0; 5]; 5],
            next_buffer: [[0; 5]; 5],
            next_updated: false,
        };
        proof {
            assert(1u32 << 0u32 == 1u32) by (bit_vector);
            assert(r.level == (1u32 << ((0int) as u32)));
        }
        r
    }

    /// Blanks the display: every row and column output is released.  The scan
    /// position and the image buffers are untouched.
    pub fn clear(&mut self)
        requires
            old(self).wf(),
        ensures
            final(self).wf(),
            forall|j: int| 0 <= j < 5 ==> !final(self).row_drive()[j],
            forall|j: int| 0 <= j < 5 ==> !final(self).col_drive()[j],
            final(self).shown() == old(self).shown(),
            final(self).pending() == old(self).pending(),
            final(self).dirty() == old(self).dirty(),
            final(self).scan_level() == old(self).scan_level(),
            final(self).scan_row() == old(self).scan_row(),
    {
        self.rows = [false; 5];
        self.cols = [false; 5];
    }

    /// Stores `image` into the pending slot and marks it for display.  The
    /// swap happens at the next row-0 boundary, so the scan never mixes rows
    /// of the old and the new image.
    pub fn display(&mut self, image: Image)
        requires
            old(self).wf(),
        ensures
            final(self).wf(),
            final(self).pending() == image.deep_view(),
            final(self).dirty(),
            final(self).shown() == old(self).shown(),
            final(self).scan_level() == old(self).scan_level(),
            final(self).scan_row() == old(self).scan_row(),
            final(self).row_drive() == old(self).row_drive(),
            final(self).col_drive() == old(self).col_drive(),
    {
        self.next_buffer = image;
        self.next_updated = true;
    }

    /// Makes the pending image the scanned one and clears the dirty mark.
    fn swap_buffer(&mut self)
        requires
            old(self).wf(),
        ensures
            final(self).wf(),
            final(self).shown() == old(self).pending(),
            final(self).pending() == old(self).pending(),
            !final(self).dirty(),
            final(self).scan_level() == old(self).scan_level(),
            final(self).scan_row() == old(self).scan_row(),
            final(self).row_drive() == old(self).row_drive(),
            final(self).col_drive() == old(self).col_drive(),
    {
        self.buffer = self.next_buffer;
        self.next_updated = false;
    }

    /// Prepares the next row: blanks the columns, releases the previous row
    /// line, advances the row index, swaps in a pending image when the index
    /// wraps to 0, and drives the new row line.
    fn update_row(&mut self)
        requires
            old(self).wf(),
        ensures
            final(self).wf(),
            final(self).scan_row() == (old(self).scan_row() + 1) % 5,
            final(self).shown() == (if (old(self).scan_row() + 1) % 5 == 0 && old(self).dirty() {
                old(self).pending()
            } else {
                old(self).shown()
            }),
            final(self).pending() == old(self).pending(),
            final(self).dirty() == (old(self).dirty() && (old(self).scan_row() + 1) % 5 != 0),
            final(self).scan_level() == old(self).scan_level(),
            final(self).row_drive() == old(self).row_drive().update(
                old(self).scan_row(),
                false,
            ).update(final(self).scan_row(), true),
            final(self).row_drive()[final(self).scan_row()],
    {
        self.cols = [false; 5];
        self.rows[self.row] = false;
        self.row = (self.row + 1) % 5;
        if self.row == 0 && self.next_updated {
            self.swap_buffer();
        }
        self.rows[self.row] = true;
    }

    /// Advances the scan by one timer tick.
    ///
    /// At the start of each 32-tick window (level mask back at bit 0) the
    /// scan moves on to the next row, swapping in a pending image when the
    /// row index wraps to 0.  Every column is then driven exactly when the
    /// current row's cell brightness keeps it on at the current level, and
    /// the level mask rotates left by one bit.
    pub fn update(&mut self)
        requires
            old(self).wf(),
        ensures
            final(self).wf(),
            final(self).scan_row() == (if old(self).scan_level() == 1 {
                (old(self).scan_row() + 1) % 5
            } else {
                old(self).scan_row()
            }),
            final(self).shown() == shown_after_tick(*old(self)),
            final(self).pending() == old(self).pending(),
            final(self).dirty() == (old(self).dirty() && !(old(self).scan_level() == 1
                && (old(self).scan_row() + 1) % 5 == 0)),
            final(self).scan_level() == next_level(old(self).scan_level()),
            old(self).scan_level() == 1 ==> final(self).row_drive() == old(self).row_drive()
                .update(old(self).scan_row(), false).update(final(self).scan_row(), true)
                && final(self).row_drive()[final(self).scan_row()],
            old(self).scan_level() != 1 ==> final(self).row_drive() == old(self).row_drive(),
            forall|j: int|
                0 <= j < 5 ==> (final(self).col_drive()[j] <==> col_on_spec(
                    final(self).shown()[final(self).scan_row()][j],
                    old(self).scan_level(),
                )),
    {
        let start = self.level == 1;
        if start {
            self.update_row();
        }
        let row_vals: [u8; 5] = self.buffer[self.row];
        let mut cols: [bool; 5] = self.cols;
        for j in 0..5
            invariant
                forall|k: int| 0 <= k < j ==> (cols@[k] <==> col_on_spec(row_vals@[k], self.level)),
        {
            let value = row_vals[j];
            let on = if value == 0 {
                false
            } else {
                level_mask(value / 8) & self.level == self.level
            };
            cols[j] = on;
        }
        self.cols = cols;
        proof {
            assert(self.buffer.deep_view()[self.row as int] =~= row_vals@);
        }
        self.level = if self.level == 0x8000_0000 {
            proof {
                assert(1u32 == (1u32 << ((0int) as u32))) by (bit_vector);
            }
            1
        } else {
            proof {
                let k = choose|k: int| 0 <= k < 32 && self.level == #[trigger] (1u32 << (
                    k as u32
                ));
                let lv = self.level;
                let ku = k as u32;
                assert(lv != 0x8000_0000u32 && lv == (1u32 << ku) && ku < 32 ==> ku < 31 && (lv
                    << 1) == (1u32 << ((ku + 1) as u32))) by (bit_vector);
                assert(self.level << 1 == (1u32 << (((k + 1)) as u32)));
            }
            self.level << 1
        };
    }

    /// The one-hot level mask of the current tick.
    pub fn level(&self) -> (r: u32)
        ensures
            r == self.scan_level(),
    {
        self.level
    }

    /// The index of the row currently scanned.
    pub fn row_index(&self) -> (r: usize)
        ensures
            r as int == self.scan_row(),
    {
        self.row
    }

    /// Which row lines must be driven high.
    pub fn rows(&self) -> (r: [bool; 5])
        ensures
            r@ == self.row_drive(),
    {
        self.rows
    }

    /// Which column lines must be driven on (sinking current).
    pub fn cols(&self) -> (r: [bool; 5])
        ensures
            r@ == self.col_drive(),
    {
        self.cols
    }

    /// The image currently scanned out.
    pub fn current_image(&self) -> (r: Image)
        ensures
            r.deep_view() == self.shown(),
    {
        self.buffer
    }

    /// The image waiting for the next row-0 boundary.
    pub fn pending_image(&self) -> (r: Image)
        ensures
            r.deep_view() == self.pending(),
    {
        self.next_buffer
    }

    /// Whether a pending image still awaits its swap.
    pub fn is_dirty(&self) -> (r: bool)
        ensures
            r == self.dirty(),
    {
        self.next_updated
    }
}

/// The duty mask for a brightness bucket, with its low `bucket + 1` bits set.
fn level_mask(bucket: u8) -> (r: u32)
    ensures
        r == level_mask_spec(bucket as int),
{
    if bucket >= 31 {
        0xffff_ffffu32
    } else {
        proof {
            let b = bucket;
            assert(b < 31 ==> (1u32 << ((b + 1) as u32)) >= 1) by (bit_vector);
        }
        (1u32 << (bucket as u32 + 1)) - 1
    }
}

/// Whether this tick swaps the pending image in: the scan is at the start of
/// a 32-tick window, the row index wraps to 0, and a pending image waits.
pub open spec fn swap_occurs(m: LedMatrix) -> bool {
    m.scan_level() == 1 && (m.scan_row() + 1) % 5 == 0 && m.dirty()
}

/// The image scanned out after one tick from state `m`.
pub open spec fn shown_after_tick(m: LedMatrix) -> Seq<Seq<u8>> {
    if swap_occurs(m) {
        m.pending()
    } else {
        m.shown()
    }
}

/// Law (tear-free double buffering): a tick scans out either the old image or
/// the pending one wholesale, never a mixture, and the old image keeps
/// showing until the row index wraps to 0 at the start of a scan cycle.
pub proof fn lemma_tick_tear_free(m: LedMatrix)
    ensures
        shown_after_tick(m) == m.shown() || shown_after_tick(m) == m.pending(),
        !(m.scan_level() == 1 && (m.scan_row() + 1) % 5 == 0) ==> shown_after_tick(m)
            == m.shown(),
{
}

/// Law (brightness monotonicity): a brighter cell is driven for at least as
/// many ticks of each 32-tick window, and at every level at which the dimmer
/// cell is driven the brighter one is driven too.
pub proof fn lemma_brightness_monotone(b1: u8, b2: u8)
    requires
        b1 <= b2,
    ensures
        duty_ticks(b1) <= duty_ticks(b2),
        forall|k: u32|
            k < 32 && col_on_spec(b1, 1u32 << k) ==> col_on_spec(b2, 1u32 << k),
{
    assert(b1 / 8 <= b2 / 8) by (bit_vector)
        requires b1 <= b2;
    assert forall|k: u32| k < 32 && col_on_spec(b1, 1u32 << k) implies col_on_spec(
        b2,
        1u32 << k,
    ) by {
        lemma_duty_cycle(b1, k);
        lemma_duty_cycle(b2, k);
    }
}

/// Law (duty cycle): over the 32 one-hot levels of a scan window, a cell of
/// brightness `value` keeps its column driven at exactly the first
/// `duty_ticks(value)` levels.
pub proof fn lemma_duty_cycle(value: u8, k: u32)
    requires
        k < 32,
    ensures
        col_on_spec(value, 1u32 << k) <==> k < duty_ticks(value),
{
    if value != 0 {
        let b = value / 8;
        assert((if b >= 31 {
            0xffff_ffffu32
        } else {
            ((1u32 << ((b + 1) as u32)) - 1) as u32
        }) & (1u32 << k) == (1u32 << k) <==> k <= b) by (bit_vector)
            requires k < 32;
    } else {
        assert(!col_on_spec(0u8, 1u32 << k));
    }
}

} // verus!

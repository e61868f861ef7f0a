use microbit_two::{Image, LedMatrix};

/// Ticks until the first row-0 boundary: four full 32-tick row windows after
/// the initial advance to row 1, so the 129th tick wraps the row index to 0.
const TICKS_TO_WRAP: usize = 129;

#[test]
fn new_matrix_is_blank_and_parked() {
    let m = LedMatrix::new();
    assert_eq!(m.level(), 1);
    assert_eq!(m.row_index(), 0);
    assert!(!m.is_dirty());
    assert_eq!(m.rows(), [false; 5]);
    assert_eq!(m.cols(), [false; 5]);
    assert_eq!(m.current_image(), [[0u8; 5]; 5]);
}

#[test]
fn clear_blanks_all_outputs() {
    let mut m = LedMatrix::new();
    m.display([[255u8; 5]; 5]);
    for _ in 0..200 {
        m.update();
    }
    m.clear();
    assert_eq!(m.rows(), [false; 5]);
    assert_eq!(m.cols(), [false; 5]);
}

#[test]
fn display_is_deferred_until_row_wraps_to_zero() {
    let mut m = LedMatrix::new();
    let image: Image = [[255u8; 5]; 5];
    m.display(image);
    assert!(m.is_dirty());
    assert_eq!(m.pending_image(), image);
    // the scan keeps showing the old image for the whole in-progress cycle
    for _ in 0..TICKS_TO_WRAP - 1 {
        m.update();
        assert_eq!(m.current_image(), [[0u8; 5]; 5]);
        assert!(m.is_dirty());
    }
    // the tick that wraps the row index to 0 swaps the whole image in
    m.update();
    assert_eq!(m.row_index(), 0);
    assert_eq!(m.current_image(), image);
    assert!(!m.is_dirty());
}

#[test]
fn display_mid_scan_never_mixes_old_and_new_rows() {
    let mut m = LedMatrix::new();
    let first: Image = [[10u8; 5]; 5];
    let second: Image = [[200u8; 5]; 5];
    m.display(first);
    for _ in 0..TICKS_TO_WRAP {
        m.update();
    }
    assert_eq!(m.current_image(), first);
    // interrupt the scan somewhere inside the third row's window
    for _ in 0..70 {
        m.update();
    }
    m.display(second);
    // the in-progress cycle keeps scanning the first image in full
    while m.row_index() != 4 {
        m.update();
        assert_eq!(m.current_image(), first);
    }
    while m.row_index() == 4 {
        m.update();
        if m.row_index() == 4 {
            assert_eq!(m.current_image(), first);
        }
    }
    // ... and the wrap to row 0 swaps the whole second image in at once
    assert_eq!(m.row_index(), 0);
    assert_eq!(m.current_image(), second);
    assert!(!m.is_dirty());
}

#[test]
fn display_takes_effect_within_one_scan_cycle() {
    let mut m = LedMatrix::new();
    let image: Image = [[42u8; 5]; 5];
    m.display(image);
    // one scan cycle bound: 32 levels for each of the 5 rows
    for _ in 0..160 {
        if m.current_image() == image {
            return;
        }
        m.update();
    }
    assert_eq!(m.current_image(), image);
}

#[test]
fn full_brightness_drives_every_column_for_all_32_ticks() {
    let mut m = LedMatrix::new();
    m.display([[255u8; 5]; 5]);
    for _ in 0..TICKS_TO_WRAP - 1 {
        m.update();
    }
    // one full frame: 32 levels x 5 rows, starting at the row-0 boundary
    for window in 0..5 {
        let mut on_ticks = [0u32; 5];
        for _ in 0..32 {
            m.update();
            assert_eq!(m.row_index(), window);
            let mut rows_expected = [false; 5];
            rows_expected[window] = true;
            assert_eq!(m.rows(), rows_expected);
            for (col, &on) in m.cols().iter().enumerate() {
                if on {
                    on_ticks[col] += 1;
                }
            }
        }
        assert_eq!(on_ticks, [32u32; 5]);
    }
}

/// Counts for how many ticks of one 32-tick row-0 window the first column is
/// driven when its cell holds `value`.
fn on_ticks_for_value(value: u8) -> u32 {
    let mut m = LedMatrix::new();
    let mut image: Image = [[0u8; 5]; 5];
    image[0][0] = value;
    m.display(image);
    for _ in 0..TICKS_TO_WRAP - 1 {
        m.update();
    }
    let mut on_ticks = 0u32;
    for _ in 0..32 {
        m.update();
        assert_eq!(m.row_index(), 0);
        if m.cols()[0] {
            on_ticks += 1;
        }
    }
    on_ticks
}

#[test]
fn duty_cycle_follows_quantized_brightness() {
    assert_eq!(on_ticks_for_value(0), 0);
    assert_eq!(on_ticks_for_value(1), 1);
    assert_eq!(on_ticks_for_value(7), 1);
    assert_eq!(on_ticks_for_value(8), 2);
    assert_eq!(on_ticks_for_value(64), 9);
    assert_eq!(on_ticks_for_value(255), 32);
}

#[test]
fn duty_cycle_is_monotone_in_brightness() {
    let mut last = 0u32;
    for value in [0u8, 1, 7, 8, 15, 16, 100, 200, 248, 255] {
        let ticks = on_ticks_for_value(value);
        assert!(ticks >= last);
        last = ticks;
    }
}

#[test]
fn level_mask_rotates_once_per_tick_and_wraps_after_32() {
    let mut m = LedMatrix::new();
    assert_eq!(m.level(), 1);
    m.update();
    assert_eq!(m.level(), 2);
    for _ in 0..31 {
        m.update();
    }
    assert_eq!(m.level(), 1);
}

#[test]
fn only_the_scanned_row_is_driven() {
    let mut m = LedMatrix::new();
    m.display([[128u8; 5]; 5]);
    for tick in 0..400 {
        m.update();
        let rows = m.rows();
        let driven = rows.iter().filter(|&&r| r).count();
        assert_eq!(driven, 1, "tick {tick}");
        assert!(rows[m.row_index()]);
    }
}

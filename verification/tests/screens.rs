use holler::icons::{blank, next_frame, pixel_offset, FRAMES, SIZE};
use holler::overlay::{
    bar_left, bottom_centre, pack, pixel_index, LevelHistory, METER_X0, NUM_BARS,
};
use holler::status_popup::{Button, Phase, PopupAction, StatusPopup, BLUE, RED};
use holler::toast::{
    draw_text, glyph, text_origin, text_width, ADVANCE, COPIED, GLYPH_W, HEIGHT, SCALE, WIDTH,
};

#[test]
fn meter_shows_at_least_one_bar_of_history() {
    assert!(NUM_BARS > 10);
}

#[test]
fn text_width_is_zero_for_empty_and_scales_with_length() {
    assert_eq!(text_width(""), 0);
    // One glyph: GLYPH_W*SCALE wide, no trailing gap.
    assert_eq!(text_width("A"), GLYPH_W * SCALE);
    // Each extra glyph adds one ADVANCE.
    assert_eq!(text_width("AB"), GLYPH_W * SCALE + ADVANCE);
}

#[test]
fn the_toast_message_fits_the_window() {
    let msg = "COPIED TO CLIPBOARD — PASTE IT";
    assert_eq!(msg, COPIED);
    // Must fit between the accent dot and the right padding.
    assert!(text_width(msg) <= WIDTH as i32 - 40 - 18, "toast text overflows the pill");
}

#[test]
fn glyph_lookup_folds_case_and_blanks_unknown() {
    assert_eq!(glyph('a'), glyph('A'));
    assert_ne!(glyph('A'), [0; 7]);
    assert_eq!(glyph(' '), [0; 7]);
    assert_eq!(glyph('~'), [0; 7]); // unmapped → blank
}

#[test]
fn only_active_phases_animate() {
    assert!(Phase::Generating.animates());
    assert!(Phase::Speaking.animates());
    assert!(!Phase::Triggered.animates());
    assert!(!Phase::Finished.animates());
    assert!(!Phase::Stopped.animates());
    assert!(!Phase::Error.animates());
}

#[test]
fn text_is_painted_and_cut_off() {
    let mut buf = vec![0u32; (WIDTH * HEIGHT) as usize];
    draw_text(&mut buf, 10, 5, "-", (1, 2, 3));
    // The dash is the middle row of its glyph, two pixels high.
    let inked: Vec<usize> = (0..buf.len()).filter(|i| buf[*i] != 0).collect();
    assert!(!inked.is_empty());
    assert!(inked.iter().all(|i| buf[*i] == 0x0001_0203));
    assert!(inked.iter().all(|i| {
        let (x, y) = (i % WIDTH as usize, i / WIDTH as usize);
        (10..20).contains(&x) && (5..19).contains(&y)
    }));
    // Off the toast nothing is drawn.
    let mut buf = vec![0u32; (WIDTH * HEIGHT) as usize];
    draw_text(&mut buf, -1000, 5, "HOLLER", (1, 2, 3));
    assert!(buf.iter().all(|p| *p == 0));
}

#[test]
fn a_message_is_centred_or_left_aligned() {
    assert_eq!(text_origin(""), (40 + 181, 21));
    let long: String = std::iter::repeat('A').take(60).collect();
    assert_eq!(text_origin(&long), (40, 21));
}

#[test]
fn colours_are_packed_as_words() {
    assert_eq!(pack((0x12, 0x34, 0x56)), 0x0012_3456);
    assert_ne!(pack((1, 0, 0)), pack((0, 1, 0)));
}

#[test]
fn pixels_off_the_window_have_no_index() {
    assert_eq!(pixel_index(2, 3, 10, 5), Some(32));
    assert_eq!(pixel_index(-1, 0, 10, 5), None);
    assert_eq!(pixel_index(10, 0, 10, 5), None);
    assert_eq!(pixel_index(0, 5, 10, 5), None);
}

#[test]
fn windows_sit_at_the_bottom_centre() {
    assert_eq!(bottom_centre((0, 0), (1920, 1080), (340, 72), 40), (790, 968));
    assert_eq!(bottom_centre((1920, -200), (1000, 800), (340, 72), 40), (2250, 488));
    // A monitor narrower than the window: half the excess sticks out on each side.
    assert_eq!(bottom_centre((0, 0), (300, 200), (341, 72), 40).0, -20);
}

#[test]
fn the_meter_keeps_the_newest_levels() {
    let mut h: LevelHistory<u32> = LevelHistory::new();
    for i in 0..(NUM_BARS as u32 + 3) {
        h.push(i);
    }
    assert_eq!(h.len(), NUM_BARS);
    assert_eq!(h.get(0), Some(&3));
    assert_eq!(h.get(NUM_BARS - 1), Some(&(NUM_BARS as u32 + 2)));
    assert_eq!(h.get(NUM_BARS), None);
    assert!(bar_left(0, NUM_BARS).unwrap() >= METER_X0);
    assert_eq!(bar_left(0, NUM_BARS + 1), None);
    assert_eq!(bar_left(4, 5), Some(319));
}

#[test]
fn icon_buffers_have_four_bytes_per_pixel() {
    let b = blank();
    assert_eq!(b.len(), (SIZE * SIZE * 4) as usize);
    assert!(b.iter().all(|x| *x == 0));
    assert_eq!(pixel_offset(1, 1), Some(132));
    assert_eq!(pixel_offset(32, 0), None);
    assert_eq!(pixel_offset(0, -1), None);
}

#[test]
fn frames_go_round() {
    let mut f = 0;
    for _ in 0..FRAMES {
        f = next_frame(f);
    }
    assert_eq!(f, 0);
    assert_eq!(next_frame(0), 1);
}

#[test]
fn labels_and_colours_go_with_phases() {
    assert_eq!(Phase::Triggered.label(), "Starting\u{2026}");
    assert_eq!(Phase::Speaking.label(), "Speaking");
    assert_eq!(Phase::Error.label(), "Error");
    assert_eq!(Phase::Speaking.accent(), BLUE);
    assert_eq!(Phase::Error.accent(), RED);
}

#[test]
fn a_click_does_what_the_hovered_button_says() {
    let mut p = StatusPopup::create();
    assert!(!p.is_animating());
    assert!(p.show(Phase::Speaking, true, true));
    assert!(p.is_animating());
    p.on_cursor_moved(Some(Button::Stop));
    assert_eq!(p.hover, Some(Button::Stop));
    assert_eq!(p.on_click(), Some(PopupAction::Stop));
    // When stopping becomes impossible, the button is neither hovered nor clicked.
    p.show(Phase::Finished, true, false);
    assert_eq!(p.hover, None);
    assert_eq!(p.on_click(), None);
    p.on_cursor_moved(Some(Button::Replay));
    assert_eq!(p.on_click(), Some(PopupAction::Replay));
    p.on_cursor_left();
    assert_eq!(p.on_click(), None);
    p.dismiss();
    assert!(!p.visible);
    assert!(!p.tick());
}

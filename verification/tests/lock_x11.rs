use recallgate::lock_x11::error::{grab_check, keyboard_grab_error, map_conn_err, GrabError, GrabStatusCode};
use recallgate::lock_x11::keys::{
    choice_from_keycode, choice_from_keysym, choice_from_keysym_and_name, choice_index_from_name,
};
use recallgate::lock_x11::layout::{
    ascii_bytes, char_from_keysym, choice_at, choice_label, flash_text, font_metrics, inner_width,
    monitors_or_screen, palette_for, prompt_layout, rgb, skip_font, text_width, x_mods, FontMetrics,
    MonitorRect, RowRect, FONT_FALLBACKS,
};
use recallgate::lock_x11::session::{LockSession, Reaction, SessionEvent, SessionRequest};

#[test]
fn grab_err_maps_busy() {
    assert_eq!(keyboard_grab_error(GrabStatusCode::AlreadyGrabbed as u8), GrabError::GrabBusy);
}

#[test]
fn grab_err_maps_other_status() {
    assert_eq!(
        keyboard_grab_error(GrabStatusCode::Frozen as u8),
        GrabError::GrabFailed(GrabStatusCode::Frozen as u8)
    );
}

#[test]
fn maps_digit_keysyms() {
    assert_eq!(choice_from_keysym(0x0031), Some(0));
    assert_eq!(choice_from_keysym(0xffb4), Some(3));
}

#[test]
fn maps_digit_keys_one_through_four() {
    assert_eq!(choice_index_from_name("1"), Some(0));
    assert_eq!(choice_index_from_name("4"), Some(3));
}

#[test]
fn maps_keypad_digits() {
    assert_eq!(choice_index_from_name("KP_2"), Some(1));
}

#[test]
fn ignores_non_choice_keys() {
    assert_eq!(choice_index_from_name("Escape"), None);
}

#[test]
fn other_keys_select_nothing() {
    assert_eq!(choice_index_from_name("5"), None);
    assert_eq!(choice_index_from_name("KP_5"), None);
    assert_eq!(choice_index_from_name("KP_"), None);
    assert_eq!(choice_index_from_name(""), None);
    assert_eq!(choice_from_keysym(0x0030), None);
    assert_eq!(choice_from_keysym(0x0035), None);
    assert_eq!(choice_from_keysym(0xffb0), None);
    assert_eq!(choice_from_keysym(0xffb2), Some(1));
}

#[test]
fn grab_status_codes() {
    assert_eq!(GrabStatusCode::from_raw(0), Some(GrabStatusCode::Success));
    assert_eq!(GrabStatusCode::from_raw(3), Some(GrabStatusCode::NotViewable));
    assert_eq!(GrabStatusCode::from_raw(5), None);
    assert_eq!(GrabStatusCode::InvalidTime.code(), 2);
    assert_eq!(keyboard_grab_error(9), GrabError::GrabFailed(9));
    assert_eq!(
        keyboard_grab_error(0),
        GrabError::Display("unexpected success in error mapper".to_string())
    );
}

#[test]
fn grab_error_messages() {
    assert_eq!(GrabError::GrabBusy.message(), "grab_busy");
    assert_eq!(GrabError::GrabFailed(4).message(), "grab failed with status 4");
    assert_eq!(GrabError::GrabFailed(200).message(), "grab failed with status 200");
    assert_eq!(GrabError::Display("no display".to_string()).message(), "no display");
    assert_eq!(map_conn_err("broken pipe".to_string()), GrabError::Display("broken pipe".to_string()));
}

#[test]
fn font_metrics_clamp_small_cells() {
    assert_eq!(font_metrics(0, 4, 10), None);
    assert_eq!(font_metrics(10, 4, 0), None);
    assert_eq!(font_metrics(8, 2, 4), Some(FontMetrics { cell_w: 6, ascent: 8, height: 12 }));
    assert_eq!(font_metrics(16, 4, 10), Some(FontMetrics { cell_w: 10, ascent: 16, height: 20 }));
}

#[test]
fn text_width_counts_ascii_cells() {
    let font = FontMetrics { cell_w: 10, ascent: 16, height: 20 };
    assert_eq!(text_width(&font, "abc"), Some(30));
    assert_eq!(text_width(&font, "aé b"), Some(30));
    assert_eq!(text_width(&font, ""), Some(0));
    let wide = FontMetrics { cell_w: 1000, ascent: 16, height: 20 };
    assert_eq!(text_width(&wide, "0123456789012345678901234567890123"), None);
}

#[test]
fn colours_and_modifiers() {
    assert_eq!(rgb(0x0d, 0x11, 0x17), 0x0d1117);
    assert_eq!(palette_for(24, 0, 1).accent, 0x58a6ff);
    let mono = palette_for(1, 0, 1);
    assert_eq!((mono.bg, mono.text), (0, 1));
    assert_eq!(x_mods(4 | 1), (true, true));
    assert_eq!(x_mods(4), (true, false));
    assert_eq!(x_mods(8), (false, false));
    assert_eq!(char_from_keysym(0x61), Some('a'));
    assert_eq!(char_from_keysym(0x5a), Some('Z'));
    assert_eq!(char_from_keysym(0x31), None);
}

#[test]
fn labels_and_flash() {
    assert_eq!(choice_label(0, "Paris"), "1  Paris");
    assert_eq!(choice_label(3, "x"), "4  x");
    assert_eq!(flash_text("Paris"), "Correct: Paris");
    let font = FontMetrics { cell_w: 10, ascent: 16, height: 20 };
    let choices = vec!["a".to_string(), "bb".to_string(), "c".to_string(), "d".to_string()];
    assert_eq!(inner_width(&font, "Q", &choices, None, false), Some(50));
    assert_eq!(inner_width(&font, "Q", &choices, Some("Correct: bb"), false), Some(110));
    assert_eq!(inner_width(&font, "Q", &choices, None, true), Some(210));
}

#[test]
fn prompt_layout_centres_the_card() {
    let font = FontMetrics { cell_w: 10, ascent: 16, height: 20 };
    let l = prompt_layout(font, 1920, 1080, 300, false, false).expect("layout");
    assert_eq!(l.card_w, 364);
    assert_eq!(l.card_h, 64 + 5 * 36 + 4 * 8);
    assert_eq!(l.card_x, (1920 - 364) / 2);
    assert_eq!(l.card_y, (1080 - 276) / 2);
    assert_eq!(l.text_x, l.card_x + 32);
    assert_eq!(l.stem_y, l.card_y + 32 + 16);
    assert_eq!(l.row_x, l.text_x - 8);
    assert_eq!(l.row_w, 364 - 48);
    assert_eq!(l.row_h, 36);
    assert_eq!(l.row_y, [l.card_y + 76, l.card_y + 120, l.card_y + 164, l.card_y + 208]);
    assert_eq!(l.label_y[0], l.row_y[0] + 24);
    assert_eq!(l.choice_x, l.text_x + 30);
    assert_eq!(l.flash_y, None);
    assert_eq!(l.abort_y, None);
    let small = prompt_layout(font, 100, 100, 10, true, true).expect("layout");
    assert_eq!(small.card_w, 320);
    assert_eq!(small.card_x, 0);
    assert!(small.flash_y.is_some() && small.abort_y.is_some());
    let huge = FontMetrics { cell_w: 10, ascent: 16, height: 30_000 };
    assert_eq!(prompt_layout(huge, 1920, 1080, 300, false, false), None);
}

#[test]
fn clicks_find_the_first_row() {
    let rows = [
        RowRect { x: 10, y: 10, width: 100, height: 20 },
        RowRect { x: 10, y: 40, width: 100, height: 20 },
        RowRect { x: 10, y: 70, width: 100, height: 20 },
        RowRect { x: 10, y: 100, width: 100, height: 20 },
    ];
    assert_eq!(choice_at(0, 0, &rows, 15, 15), Some(0));
    assert_eq!(choice_at(1000, 0, &rows, 1015, 45), Some(1));
    assert_eq!(choice_at(0, 0, &rows, 109, 119), Some(3));
    assert_eq!(choice_at(0, 0, &rows, 110, 15), None);
    assert_eq!(choice_at(0, 0, &rows, 15, 30), None);
}

fn press(ctrl: bool, shift: bool, keysym: Option<u32>, choice: Option<u8>) -> SessionEvent {
    SessionEvent::KeyPress { ctrl, shift, keysym, choice }
}

#[test]
fn session_right_choice_lets_go_after_acceptance() {
    let mut s = LockSession::new(2);
    let r = s.on_event(press(false, false, Some(0x33), Some(2)), 0);
    assert_eq!(r, Reaction { redraw: false, request: SessionRequest::SubmitChoice(2) });
    assert!(s.is_answered());
    assert!(!s.showing_answer());
    assert!(!s.is_finished());
    s.on_submit_result(true, 10);
    assert!(s.is_finished());
}

#[test]
fn session_wrong_choice_flashes_then_lets_go() {
    let mut s = LockSession::new(2);
    let r = s.on_event(SessionEvent::Click { primary: true, choice: Some(0) }, 0);
    assert_eq!(r, Reaction { redraw: true, request: SessionRequest::SubmitChoice(0) });
    assert!(s.showing_answer());
    s.on_submit_result(true, 100);
    s.check_deadline(1_599);
    assert!(!s.is_finished());
    s.check_deadline(1_600);
    assert!(s.is_finished());
}

#[test]
fn session_refused_choice_reopens_and_one_choice_at_a_time() {
    let mut s = LockSession::new(1);
    s.on_event(press(false, false, None, Some(1)), 0);
    let again = s.on_event(press(false, false, None, Some(3)), 1);
    assert_eq!(again.request, SessionRequest::Nothing);
    s.on_submit_result(false, 2);
    assert!(!s.is_answered());
    let retry = s.on_event(press(false, false, None, Some(3)), 3);
    assert_eq!(retry.request, SessionRequest::SubmitChoice(3));
}

#[test]
fn session_escape_and_expose_never_let_go() {
    let mut s = LockSession::new(0);
    let r = s.on_event(press(false, false, Some(0xff1b), None), 0);
    assert_eq!(r.request, SessionRequest::Nothing);
    let r = s.on_event(SessionEvent::Expose, 1);
    assert_eq!(r, Reaction { redraw: true, request: SessionRequest::Nothing });
    s.on_event(SessionEvent::KeyRelease { ctrl: false, shift: false, keysym: Some(0xff1b) }, 2);
    assert!(!s.is_finished());
}

#[test]
fn session_hatch_sends_an_abort() {
    let mut s = LockSession::new(0);
    s.on_event(press(true, true, Some(0xff1b), None), 0);
    s.after_events(2_000);
    assert!(!s.showing_abort_prompt());
    let first = s.on_event(press(true, true, Some(0x41), None), 2_001);
    assert_eq!(first, Reaction { redraw: true, request: SessionRequest::Nothing });
    assert!(s.showing_abort_prompt());
    let click = s.on_event(SessionEvent::Click { primary: true, choice: Some(1) }, 2_001);
    assert_eq!(click.request, SessionRequest::Nothing);
    let mut last = Reaction { redraw: false, request: SessionRequest::Nothing };
    for sym in [0x42u32, 0x4f, 0x52, 0x54, 0xff0d] {
        last = s.on_event(press(true, true, Some(sym), None), 2_002);
    }
    assert_eq!(last.request, SessionRequest::AbortHatch);
    assert!(!s.is_finished());
    s.on_abort_result(true);
    assert!(s.is_finished());
}

#[test]
fn session_abort_during_the_correction_waits_for_its_deadline() {
    let mut s = LockSession::new(2);
    s.on_event(SessionEvent::Click { primary: true, choice: Some(0) }, 0);
    s.on_submit_result(true, 100);
    s.on_abort_result(true);
    assert!(s.is_answered());
    assert!(!s.is_finished());
    s.check_deadline(1_599);
    assert!(!s.is_finished());
    s.check_deadline(1_600);
    assert!(s.is_finished());
}

#[test]
fn keycodes_map_through_the_keyboard_mapping() {
    // Rows of two keysyms for keycodes 8, 9, 10 and 11.
    let keysyms = [0x61, 0, 0x31, 0x21, 0xffb2, 0, 0x34, 0x24];
    assert_eq!(choice_from_keycode(8, 8, 2, &keysyms), None);
    assert_eq!(choice_from_keycode(9, 8, 2, &keysyms), Some(0));
    assert_eq!(choice_from_keycode(10, 8, 2, &keysyms), Some(1));
    assert_eq!(choice_from_keycode(11, 8, 2, &keysyms), Some(3));
    assert_eq!(choice_from_keysym_and_name(0x32, None), Some(1));
    assert_eq!(choice_from_keysym_and_name(0x1234, Some("KP_3")), Some(2));
    assert_eq!(choice_from_keysym_and_name(0x1234, Some("XK_KP_3")), None);
    assert_eq!(choice_from_keysym_and_name(0x1234, None), None);
}

#[test]
fn drawing_helpers() {
    assert_eq!(ascii_bytes("Café 1"), b"Caf 1".to_vec());
    assert_eq!(ascii_bytes(""), Vec::<u8>::new());
    let screen = monitors_or_screen(Vec::new(), 1920, 1080);
    assert_eq!(screen, vec![MonitorRect { x: 0, y: 0, width: 1920, height: 1080 }]);
    let two = vec![
        MonitorRect { x: 0, y: 0, width: 1920, height: 1080 },
        MonitorRect { x: 1920, y: 0, width: 1280, height: 1024 },
    ];
    assert_eq!(monitors_or_screen(two.clone(), 3200, 1080), two);
    assert!(skip_font(b"cursor"));
    assert!(!skip_font(b"fixed"));
    assert_eq!(FONT_FALLBACKS[0], "10x20");
    assert_eq!(grab_check(0), Ok(()));
    assert_eq!(grab_check(1), Err(GrabError::GrabBusy));
    assert_eq!(grab_check(4), Err(GrabError::GrabFailed(4)));
}

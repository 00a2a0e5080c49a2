//! Scenario tests for the demote/restore protocol, run against the
//! verified in-memory window system.

use window_backdrop::fake::FakeDesktop;
use window_backdrop::ops::{
    find_worker_surface, resume_background_window, set_background_window, CaptureRecord,
};

const PROGMAN: usize = 1;
const DEF_VIEW: usize = 2;
const WORKER: usize = 3;
const NOTEPAD: usize = 4;

/// A desktop as the shell lays it out: the Progman root owning the icon
/// view, a worker surface right after it, and one ordinary window.
fn shell_desktop(notepad_style: isize) -> FakeDesktop {
    let mut d = FakeDesktop::new(1920, 1080);
    assert!(d.add_window(
        PROGMAN,
        "Program Manager".to_string(),
        "Progman".to_string(),
        0,
        0,
        0,
        1920,
        1080,
        0x0400_0000,
        true,
    ));
    assert!(d.add_window(
        DEF_VIEW,
        "".to_string(),
        "SHELLDLL_DefView".to_string(),
        PROGMAN,
        0,
        0,
        1920,
        1080,
        0x4000_0000,
        true,
    ));
    assert!(d.add_window(
        WORKER,
        "".to_string(),
        "WorkerW".to_string(),
        0,
        0,
        0,
        1920,
        1080,
        0x4000_0000,
        true,
    ));
    assert!(d.add_window(
        NOTEPAD,
        "Notepad".to_string(),
        "Notepad".to_string(),
        0,
        100,
        100,
        900,
        700,
        notepad_style,
        true,
    ));
    d
}

#[test]
fn demote_captures_original_state_and_fills_screen() {
    let mut d = shell_desktop(0x16CF_0000);
    let r = set_background_window(&mut d, "Notepad");
    let rec = r.expect("demote should succeed");
    assert_eq!(rec.window_x, 100);
    assert_eq!(rec.window_y, 100);
    assert_eq!(rec.window_width, 800);
    assert_eq!(rec.window_height, 600);
    assert_eq!(rec.window_style, 0x16CF_0000);
    assert_eq!(d.rect_of(NOTEPAD), Some((0, 0, 1920, 1080)));
    assert_eq!(d.style_of(NOTEPAD), Some(0));
    assert_eq!(d.parent_of(NOTEPAD), Some(PROGMAN));
    assert_eq!(d.visible_of(NOTEPAD), Some(true));
}

#[test]
fn demote_hides_the_worker_surface() {
    let mut d = shell_desktop(0x16CF_0000);
    assert_eq!(d.visible_of(WORKER), Some(true));
    set_background_window(&mut d, "Notepad").expect("demote should succeed");
    assert_eq!(d.visible_of(WORKER), Some(false));
    assert_eq!(d.visible_of(DEF_VIEW), Some(true));
    assert_eq!(d.visible_of(PROGMAN), Some(true));
}

#[test]
fn demote_missing_title_changes_nothing() {
    let mut d = shell_desktop(0x16CF_0000);
    let before = d.clone();
    let r = set_background_window(&mut d, "no-such-window-title");
    assert!(r.is_none());
    assert_eq!(d, before);
}

#[test]
fn demote_without_shell_root_changes_nothing() {
    let mut d = FakeDesktop::new(1920, 1080);
    assert!(d.add_window(
        NOTEPAD,
        "Notepad".to_string(),
        "Notepad".to_string(),
        0,
        100,
        100,
        900,
        700,
        0x16CF_0000,
        true,
    ));
    let before = d.clone();
    let r = set_background_window(&mut d, "Notepad");
    assert!(r.is_none());
    assert_eq!(d, before);
}

#[test]
fn demote_succeeds_without_a_worker_surface() {
    // No WorkerW window exists: the demotion still succeeds with the full
    // capture; only the hide step is a no-op.
    let mut d = FakeDesktop::new(1920, 1080);
    assert!(d.add_window(
        PROGMAN,
        "Program Manager".to_string(),
        "Progman".to_string(),
        0,
        0,
        0,
        1920,
        1080,
        0x0400_0000,
        true,
    ));
    assert!(d.add_window(
        DEF_VIEW,
        "".to_string(),
        "SHELLDLL_DefView".to_string(),
        PROGMAN,
        0,
        0,
        1920,
        1080,
        0x4000_0000,
        true,
    ));
    assert!(d.add_window(
        NOTEPAD,
        "Notepad".to_string(),
        "Notepad".to_string(),
        0,
        100,
        100,
        900,
        700,
        0x16CF_0000,
        true,
    ));
    let rec = set_background_window(&mut d, "Notepad").expect("demote should succeed");
    assert_eq!(
        rec,
        CaptureRecord {
            window_x: 100,
            window_y: 100,
            window_width: 800,
            window_height: 600,
            window_style: 0x16CF_0000,
        }
    );
    assert_eq!(d.parent_of(NOTEPAD), Some(PROGMAN));
    assert_eq!(d.rect_of(NOTEPAD), Some((0, 0, 1920, 1080)));
}

#[test]
fn title_lookup_is_exact() {
    let mut d = shell_desktop(0x16CF_0000);
    assert!(set_background_window(&mut d, "notepad").is_none());
    assert!(set_background_window(&mut d, "Notepad ").is_none());
    assert!(set_background_window(&mut d, "Note").is_none());
}

#[test]
fn restore_puts_the_window_back() {
    let mut d = FakeDesktop::new(1920, 1080);
    assert!(d.add_window(
        PROGMAN,
        "Program Manager".to_string(),
        "Progman".to_string(),
        0,
        0,
        0,
        1920,
        1080,
        0x0400_0000,
        true,
    ));
    assert!(d.add_window(
        NOTEPAD,
        "Notepad".to_string(),
        "Notepad".to_string(),
        PROGMAN,
        0,
        0,
        1920,
        1080,
        0,
        true,
    ));
    let rec = CaptureRecord {
        window_x: 100,
        window_y: 100,
        window_width: 800,
        window_height: 600,
        window_style: 0x16CF_0000,
    };
    assert!(resume_background_window(&mut d, "Notepad", &rec));
    assert_eq!(d.parent_of(NOTEPAD), Some(0));
    assert_eq!(d.rect_of(NOTEPAD), Some((100, 100, 900, 700)));
    assert_eq!(d.style_of(NOTEPAD), Some(0x16CF_0000));
    assert_eq!(d.visible_of(NOTEPAD), Some(true));
}

#[test]
fn restore_missing_window_changes_nothing() {
    let mut d = shell_desktop(0x16CF_0000);
    let before = d.clone();
    let rec = CaptureRecord {
        window_x: 100,
        window_y: 100,
        window_width: 800,
        window_height: 600,
        window_style: 0x16CF_0000,
    };
    assert!(!resume_background_window(&mut d, "no-such-window-title", &rec));
    assert_eq!(d, before);
}

#[test]
fn round_trip_restores_style_and_rectangle() {
    let mut d = shell_desktop(0x16CF_0000);
    let rec = set_background_window(&mut d, "Notepad").expect("demote should succeed");
    assert!(resume_background_window(&mut d, "Notepad", &rec));
    assert_eq!(d.rect_of(NOTEPAD), Some((100, 100, 900, 700)));
    assert_eq!(d.style_of(NOTEPAD), Some(0x16CF_0000));
    assert_eq!(d.parent_of(NOTEPAD), Some(0));
}

#[test]
fn round_trip_keeps_style_bits_above_bit_31() {
    // On a 64-bit target a style with bits above bit 31 must survive the
    // round trip untruncated.
    let style: isize = ((1u64 << 40) | 0x16CF_0000u64) as isize;
    let mut d = shell_desktop(style);
    let rec = set_background_window(&mut d, "Notepad").expect("demote should succeed");
    assert_eq!(rec.window_style, style);
    assert!(resume_background_window(&mut d, "Notepad", &rec));
    assert_eq!(d.style_of(NOTEPAD), Some(style));
}

#[test]
fn capture_is_zero_only_for_a_truly_zero_style() {
    let mut d = shell_desktop(0x16CF_0000);
    let rec = set_background_window(&mut d, "Notepad").expect("demote should succeed");
    assert_ne!(rec.window_style, 0);

    let mut d0 = shell_desktop(0);
    let rec0 = set_background_window(&mut d0, "Notepad").expect("demote should succeed");
    assert_eq!(rec0.window_style, 0);
}

#[test]
fn worker_scan_takes_the_first_match_and_stops() {
    // Two icon-view owners, each followed by a worker window: the scan
    // must report the worker after the first owner and never touch the
    // second.
    let mut d = FakeDesktop::new(1920, 1080);
    assert!(d.add_window(10, "a".to_string(), "Progman".to_string(), 0, 0, 0, 10, 10, 0, true));
    assert!(d.add_window(11, "".to_string(), "SHELLDLL_DefView".to_string(), 10, 0, 0, 1, 1, 0, true));
    assert!(d.add_window(12, "".to_string(), "WorkerW".to_string(), 0, 0, 0, 1, 1, 0, true));
    assert!(d.add_window(20, "b".to_string(), "Other".to_string(), 0, 0, 0, 10, 10, 0, true));
    assert!(d.add_window(21, "".to_string(), "SHELLDLL_DefView".to_string(), 20, 0, 0, 1, 1, 0, true));
    assert!(d.add_window(22, "".to_string(), "WorkerW".to_string(), 0, 0, 0, 1, 1, 0, true));
    assert_eq!(find_worker_surface(&d), 12);

    assert!(d.add_window(30, "Notepad".to_string(), "Notepad".to_string(), 0, 1, 1, 2, 2, 7, true));
    set_background_window(&mut d, "Notepad").expect("demote should succeed");
    assert_eq!(d.visible_of(12), Some(false));
    assert_eq!(d.visible_of(22), Some(true));
}

#[test]
fn worker_scan_skips_owners_without_icon_view() {
    let mut d = FakeDesktop::new(800, 600);
    assert!(d.add_window(10, "a".to_string(), "Plain".to_string(), 0, 0, 0, 10, 10, 0, true));
    assert!(d.add_window(12, "".to_string(), "WorkerW".to_string(), 0, 0, 0, 1, 1, 0, true));
    assert_eq!(find_worker_surface(&d), 0);
}

#[test]
fn worker_lookup_only_after_the_owner() {
    // The worker window precedes the icon-view owner, so the scoped
    // lookup that only searches past the owner finds nothing.
    let mut d = FakeDesktop::new(800, 600);
    assert!(d.add_window(12, "".to_string(), "WorkerW".to_string(), 0, 0, 0, 1, 1, 0, true));
    assert!(d.add_window(10, "a".to_string(), "Progman".to_string(), 0, 0, 0, 10, 10, 0, true));
    assert!(d.add_window(11, "".to_string(), "SHELLDLL_DefView".to_string(), 10, 0, 0, 1, 1, 0, true));
    assert_eq!(find_worker_surface(&d), 0);
}

#[test]
fn add_window_rejects_bad_entries() {
    let mut d = FakeDesktop::new(800, 600);
    assert!(!d.add_window(0, "x".to_string(), "X".to_string(), 0, 0, 0, 1, 1, 0, true));
    assert!(d.add_window(5, "x".to_string(), "X".to_string(), 0, 0, 0, 1, 1, 0, true));
    assert!(!d.add_window(5, "y".to_string(), "Y".to_string(), 0, 0, 0, 1, 1, 0, true));
    // An inverted rectangle is not one a window system could report.
    assert!(!d.add_window(6, "z".to_string(), "Z".to_string(), 0, 10, 0, 9, 5, 0, true));
    assert_eq!(d.window_count(), 1);
}

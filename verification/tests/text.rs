use dmr_hex::config::KeySize;
use dmr_hex::messages::{
    aborted_text, auto_cleared_text, clipboard_countdown_text, clipboard_unavailable_text,
    clipboard_wiped_text, copied_with_wipe_text, copied_without_wipe_text, copy_failed_text,
    generated_text, index_badge_text, keys_cleared_text, keys_countdown_text, keys_in_ram_text,
    ready_text, wipe_skipped_text,
};
use dmr_hex::text::{decimal_string, mask_string, two_digit_string};
use dmr_hex::theme::{dark, extreme_bg, for_system, hover_fill, light, rgb, Rgb};

#[test]
fn decimal_rendering() {
    assert_eq!(decimal_string(0), "0");
    assert_eq!(decimal_string(7), "7");
    assert_eq!(decimal_string(10), "10");
    assert_eq!(decimal_string(1234), "1234");
    assert_eq!(decimal_string(u64::MAX), u64::MAX.to_string());
}

#[test]
fn two_digit_rendering() {
    assert_eq!(two_digit_string(1), "01");
    assert_eq!(two_digit_string(9), "09");
    assert_eq!(two_digit_string(10), "10");
    assert_eq!(two_digit_string(100), "100");
}

#[test]
fn mask_is_capped_at_64() {
    assert_eq!(mask_string(3), "\u{00B7}\u{00B7}\u{00B7}");
    assert_eq!(mask_string(64).chars().count(), 64);
    assert_eq!(mask_string(100).chars().count(), 64);
    assert_eq!(mask_string(0), "");
    assert!(mask_string(32).chars().all(|c| c == '\u{00B7}'));
}

#[test]
fn status_messages() {
    assert_eq!(ready_text(), "Ready — keys come from the OS CSPRNG and are held in RAM only.");
    assert_eq!(clipboard_unavailable_text("no display"), "Clipboard unavailable: no display");
    assert_eq!(
        aborted_text("OS RNG failure: x"),
        "Generation aborted — OS RNG failure: x. No keys produced."
    );
    assert_eq!(
        generated_text(3, KeySize::Aes256, true),
        "Generated 3 AES-256 key(s) — memory-locked."
    );
    assert_eq!(
        generated_text(12, KeySize::Aes128, false),
        "Generated 12 AES-128 key(s) — in RAM (page-lock unavailable)."
    );
    assert_eq!(keys_cleared_text(), "Keys cleared and wiped from memory.");
    assert_eq!(copied_with_wipe_text(0, 20), "Copied key #1 — clipboard wipes in 20s.");
    assert_eq!(copied_without_wipe_text(4), "Copied key #5 (clipboard auto-wipe is off).");
    assert_eq!(copy_failed_text("denied"), "Copy failed: denied");
    assert_eq!(clipboard_wiped_text(), "Clipboard wiped.");
    assert_eq!(wipe_skipped_text(), "Clipboard wipe skipped (contents changed).");
    assert_eq!(auto_cleared_text(), "Keys auto-cleared and wiped from memory.");
}

#[test]
fn countdown_and_badge_labels() {
    assert_eq!(clipboard_countdown_text(19), "clipboard wipe in 19s");
    assert_eq!(keys_countdown_text(119, false), "keys clear in 119s");
    assert_eq!(keys_countdown_text(5, true), "keys clear in 5s  \u{00B7}  ");
    assert_eq!(keys_in_ram_text(3), "\u{00B7} 3 in RAM");
    assert_eq!(index_badge_text(0), "01");
    assert_eq!(index_badge_text(9), "10");
    assert_eq!(index_badge_text(99), "100");
}

#[test]
fn palettes() {
    let d = dark();
    assert!(d.dark);
    assert_eq!(d.bg, Rgb { r: 0x0d, g: 0x11, b: 0x17 });
    assert_eq!(d.accent, rgb(0x2d, 0xd4, 0xbf));
    assert_eq!(d.text, rgb(0xe6, 0xed, 0xf3));
    let l = light();
    assert!(!l.dark);
    assert_eq!(l.surface, rgb(0xff, 0xff, 0xff));
    assert_eq!(l.accent, rgb(0x0d, 0x94, 0x88));
    assert_eq!(l.danger, rgb(0xd9, 0x34, 0x34));
    assert_eq!(for_system(true), dark());
    assert_eq!(for_system(false), light());
    assert_eq!(extreme_bg(dark()), rgb(0x0a, 0x0e, 0x13));
    assert_eq!(extreme_bg(light()), rgb(0xff, 0xff, 0xff));
    assert_eq!(hover_fill(dark()), dark().surface_hi);
    assert_eq!(hover_fill(light()), rgb(0xdf, 0xe5, 0xec));
}


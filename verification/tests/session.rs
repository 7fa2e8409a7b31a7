use dmr_hex::app::{
    deadline_representable, secs_left, status_color, theme_override_from, Action, KeygenApp,
    StatusKind,
};
use dmr_hex::clipboard::ClipboardManager;
use dmr_hex::config::KeySize;
use dmr_hex::security::{SecretBytes, SecretText};
use dmr_hex::theme::{dark, light};

fn secret(s: &str) -> SecretText {
    SecretText::new(String::from(s))
}

#[test]
fn clipboard_wipes_only_its_own_value() {
    let mut m = ClipboardManager::new(None);
    assert!(m.is_available());
    assert_eq!(m.init_error(), None);
    assert!(!m.needs_check());
    assert_eq!(m.set(secret("ABCD"), Ok(())), Ok(()));
    assert!(m.needs_check());
    assert!(m.still_ours(&Some(String::from("ABCD"))));
    assert!(m.wipe_if_ours(Some(String::from("ABCD")), Ok(())));
    assert!(!m.needs_check());
    // Already wiped: never a second time.
    assert!(!m.still_ours(&Some(String::from("ABCD"))));
    assert!(!m.wipe_if_ours(Some(String::from("ABCD")), Ok(())));
}

#[test]
fn clipboard_leaves_other_content_alone() {
    let mut m = ClipboardManager::new(None);
    m.set(secret("ABCD"), Ok(())).unwrap();
    assert!(!m.still_ours(&Some(String::from("something else"))));
    assert!(!m.wipe_if_ours(Some(String::from("something else")), Ok(())));
    assert!(!m.needs_check());
    m.set(secret("ABCD"), Ok(())).unwrap();
    assert!(!m.wipe_if_ours(None, Ok(())));
}

#[test]
fn clipboard_unavailable() {
    let mut m = ClipboardManager::new(Some(String::from("no display")));
    assert!(!m.is_available());
    assert_eq!(m.init_error(), Some("no display"));
    assert_eq!(m.set(secret("AB"), Ok(())), Err(String::from("Clipboard unavailable")));
    assert!(!m.wipe_if_ours(Some(String::from("AB")), Ok(())));
}

#[test]
fn clipboard_failed_wipe_is_not_a_wipe() {
    let mut m = ClipboardManager::new(None);
    m.set(secret("ABCD"), Ok(())).unwrap();
    assert!(m.still_ours(&Some(String::from("ABCD"))));
    assert!(!m.wipe_if_ours(Some(String::from("ABCD")), Err(String::from("denied"))));
    assert!(!m.needs_check());
}

#[test]
fn clipboard_write_failure_is_reported() {
    let mut m = ClipboardManager::new(None);
    assert_eq!(m.set(secret("AB"), Err(String::from("denied"))), Err(String::from("denied")));
    assert!(!m.needs_check());
}

#[test]
fn theme_override_parsing() {
    assert_eq!(theme_override_from(None), None);
    assert_eq!(theme_override_from(Some("light")), Some(false));
    assert_eq!(theme_override_from(Some("LiGhT")), Some(false));
    assert_eq!(theme_override_from(Some("dark")), Some(true));
    assert_eq!(theme_override_from(Some("lights")), Some(true));
    assert_eq!(theme_override_from(Some("")), Some(true));
}

#[test]
fn seconds_left() {
    assert_eq!(secs_left(None, 10), None);
    assert_eq!(secs_left(Some(5_500), 1_000), Some(4));
    assert_eq!(secs_left(Some(500), 1_000), Some(0));
    assert_eq!(secs_left(Some(21_000), 1_000), Some(20));
}

#[test]
fn new_app_state() {
    let app = KeygenApp::new(None, true, None);
    assert_eq!(app.key_count(), 0);
    assert!(app.dark_mode());
    assert_eq!(app.palette(), dark());
    assert_eq!(app.status(), "Ready — keys come from the OS CSPRNG and are held in RAM only.");
    assert_eq!(app.status_kind(), StatusKind::Info);
    assert_eq!(app.clipboard_wipe_deadline(), None);
    assert_eq!(app.keys_clear_deadline(), None);
    assert_eq!(app.config().num_keys, 1);

    let app = KeygenApp::new(Some(false), true, Some(String::from("no display")));
    assert!(!app.dark_mode());
    assert_eq!(app.palette(), light());
    assert_eq!(app.status(), "Clipboard unavailable: no display");
    assert_eq!(app.status_kind(), StatusKind::Error);
    assert!(!app.clipboard().is_available());
}

#[test]
fn sync_theme_follows_system_unless_forced() {
    let mut app = KeygenApp::new(None, false, None);
    assert_eq!(app.sync_theme(Some(true)), dark());
    assert!(app.dark_mode());
    assert_eq!(app.sync_theme(None), dark());
    assert_eq!(app.sync_theme(Some(false)), light());
    let mut forced = KeygenApp::new(Some(true), false, None);
    assert_eq!(forced.sync_theme(Some(false)), dark());
}

#[test]
fn generate_default_keys() {
    let mut app = KeygenApp::new(None, true, None);
    assert!(app.apply(Action::Generate, 1_000).is_none());
    assert_eq!(app.key_count(), 1);
    assert!(app.is_revealed(0));
    assert_eq!(app.key_hex(0).as_str().len(), 64);
    assert!(app.key_hex(0).as_str().chars().all(|c| c.is_ascii_digit() || ('A'..='F').contains(&c)));
    assert_eq!(app.status_kind(), StatusKind::Good);
    let note = if app.keys_locked() { "memory-locked" } else { "in RAM (page-lock unavailable)" };
    assert_eq!(app.status(), format!("Generated 1 AES-256 key(s) — {note}."));
    assert_eq!(app.keys_clear_deadline(), Some(121_000));
}

#[test]
fn generate_respects_options() {
    let mut app = KeygenApp::new(None, true, None);
    let mut c = app.config();
    c.num_keys = 150;
    c.key_size = KeySize::Aes128;
    c.uppercase = false;
    c.start_hidden = true;
    c.auto_clear_enabled = false;
    app.set_config(c);
    app.generate(0);
    assert_eq!(app.key_count(), 100);
    for i in 0..100 {
        assert!(!app.is_revealed(i));
        let h = app.key_hex(i);
        assert_eq!(h.as_str().len(), 32);
        assert!(h.as_str().chars().all(|c| c.is_ascii_digit() || ('a'..='f').contains(&c)));
    }
    assert_eq!(app.keys_clear_deadline(), None);
    assert!(app.status().starts_with("Generated 100 AES-128 key(s)"));
}

#[test]
fn copy_then_clipboard_wipe() {
    let mut app = KeygenApp::new(None, true, None);
    app.generate(0);
    let req = app.apply(Action::Copy(0), 5_000).expect("key 0 exists");
    assert_eq!(req.index(), 0);
    let text = String::from(req.text().as_str());
    assert_eq!(text, app.key_hex(0).as_str());
    app.finish_copy(req, Ok(()), 5_000);
    assert_eq!(app.status(), "Copied key #1 — clipboard wipes in 20s.");
    assert_eq!(app.status_kind(), StatusKind::Good);
    assert_eq!(app.clipboard_wipe_deadline(), Some(25_000));
    assert!(!app.clipboard_read_needed(24_999));
    let out = app.process_timers(24_999, None, Ok(()));
    assert!(!out.clipboard_wiped);
    assert!(out.repaint);
    assert!(app.clipboard_read_needed(25_000));
    let current = Some(text);
    assert!(app.wipe_wanted(25_000, &current));
    let out = app.process_timers(25_000, current, Ok(()));
    assert!(out.clipboard_wiped);
    assert_eq!(app.status(), "Clipboard wiped.");
    assert_eq!(app.status_kind(), StatusKind::Info);
    assert_eq!(app.clipboard_wipe_deadline(), None);
    assert!(out.repaint); // key clearing still pending
}

#[test]
fn clipboard_wipe_skipped_when_changed() {
    let mut app = KeygenApp::new(None, true, None);
    app.generate(0);
    let req = app.copy_request(0).unwrap();
    app.finish_copy(req, Ok(()), 0);
    let current = Some(String::from("user text"));
    assert!(!app.wipe_wanted(20_000, &current));
    let out = app.process_timers(20_000, current, Ok(()));
    assert!(!out.clipboard_wiped);
    assert_eq!(app.status(), "Clipboard wipe skipped (contents changed).");
}

#[test]
fn copy_without_auto_wipe() {
    let mut app = KeygenApp::new(None, true, None);
    let mut c = app.config();
    c.clipboard_wipe_enabled = false;
    app.set_config(c);
    app.generate(0);
    let req = app.copy_request(0).unwrap();
    app.finish_copy(req, Ok(()), 0);
    assert_eq!(app.status(), "Copied key #1 (clipboard auto-wipe is off).");
    assert_eq!(app.status_kind(), StatusKind::Info);
    assert_eq!(app.clipboard_wipe_deadline(), None);
}

#[test]
fn copy_failures() {
    let mut app = KeygenApp::new(None, true, None);
    app.generate(0);
    assert!(app.copy_request(1).is_none());
    let req = app.copy_request(0).unwrap();
    app.finish_copy(req, Err(String::from("denied")), 0);
    assert_eq!(app.status(), "Copy failed: denied");
    assert_eq!(app.status_kind(), StatusKind::Error);
    assert_eq!(app.clipboard_wipe_deadline(), None);

    let mut app = KeygenApp::new(None, true, Some(String::from("no display")));
    app.generate(0);
    let req = app.copy_request(0).unwrap();
    app.finish_copy(req, Ok(()), 0);
    assert_eq!(app.status(), "Copy failed: Clipboard unavailable");
}

#[test]
fn keys_auto_clear() {
    let mut app = KeygenApp::new(None, true, None);
    app.generate(1_000);
    let out = app.process_timers(120_999, None, Ok(()));
    assert_eq!(app.key_count(), 1);
    assert!(out.repaint);
    let out = app.process_timers(121_000, None, Ok(()));
    assert_eq!(app.key_count(), 0);
    assert_eq!(app.status(), "Keys auto-cleared and wiped from memory.");
    assert_eq!(app.keys_clear_deadline(), None);
    assert!(!out.repaint);
}

#[test]
fn clear_all_and_reveal() {
    let mut app = KeygenApp::new(None, true, None);
    let mut c = app.config();
    c.num_keys = 3;
    app.set_config(c);
    app.generate(0);
    assert_eq!(app.key_count(), 3);
    let before = String::from(app.key_hex(1).as_str());
    app.apply(Action::ToggleReveal(1), 0);
    assert!(app.is_revealed(0) && !app.is_revealed(1) && app.is_revealed(2));
    app.apply(Action::ToggleReveal(1), 0);
    assert!(app.is_revealed(1));
    assert_eq!(app.key_hex(1).as_str(), before);
    app.apply(Action::ToggleReveal(7), 0);
    app.apply(Action::RevealAll(false), 0);
    assert!((0..3).all(|i| !app.is_revealed(i)));
    app.apply(Action::RevealAll(true), 0);
    assert!((0..3).all(|i| app.is_revealed(i)));
    app.apply(Action::ClearAll, 0);
    assert_eq!(app.key_count(), 0);
    assert_eq!(app.status(), "Keys cleared and wiped from memory.");
    assert_eq!(app.status_kind(), StatusKind::Good);
    assert_eq!(app.keys_clear_deadline(), None);
    // Clearing nothing leaves the status alone.
    app.apply(Action::ClearAll, 0);
    assert_eq!(app.status(), "Keys cleared and wiped from memory.");
}

#[test]
fn exit_wipes_keys_and_clipboard() {
    let mut app = KeygenApp::new(None, true, None);
    app.generate(0);
    assert!(!app.exit_read_needed());
    let req = app.copy_request(0).unwrap();
    let text = String::from(req.text().as_str());
    app.finish_copy(req, Ok(()), 0);
    assert!(app.exit_read_needed());
    let current = Some(text);
    assert!(app.exit_wipe_wanted(&current));
    assert!(app.on_exit(current, Ok(())));
    assert_eq!(app.key_count(), 0);
    assert!(!app.exit_read_needed());
}

#[test]
fn generated_keys_differ_between_generations() {
    let mut app = KeygenApp::new(None, true, None);
    app.generate(0);
    let first = String::from(app.key_hex(0).as_str());
    app.generate(0);
    assert_ne!(first, app.key_hex(0).as_str());
}

#[test]
fn failed_clipboard_wipe_is_not_reported_as_done() {
    let mut app = KeygenApp::new(None, true, None);
    app.generate(0);
    let req = app.copy_request(0).unwrap();
    let text = String::from(req.text().as_str());
    app.finish_copy(req, Ok(()), 0);
    let current = Some(text);
    assert!(app.wipe_wanted(20_000, &current));
    let out = app.process_timers(20_000, current, Err(String::from("denied")));
    assert!(!out.clipboard_wiped);
    assert_eq!(app.status(), "Clipboard wipe skipped (contents changed).");
    assert_eq!(app.status_kind(), StatusKind::Info);
    assert_eq!(app.clipboard_wipe_deadline(), None);
    assert!(!app.exit_read_needed());
}

#[test]
fn failed_exit_wipe_is_not_a_wipe() {
    let mut app = KeygenApp::new(None, true, None);
    app.generate(0);
    let req = app.copy_request(0).unwrap();
    let text = String::from(req.text().as_str());
    app.finish_copy(req, Ok(()), 0);
    assert!(!app.on_exit(Some(text), Err(String::from("denied"))));
    assert_eq!(app.key_count(), 0);
}

#[test]
fn finish_generation_keeps_the_drawn_keys() {
    let mut app = KeygenApp::new(None, true, None);
    let mut c = app.config();
    c.num_keys = 2;
    c.key_size = KeySize::Aes128;
    app.set_config(c);
    let draws = vec![Ok(SecretBytes::new(vec![0xab; 16])), Ok(SecretBytes::new(vec![0x01; 16]))];
    app.finish_generation(draws, 3_000);
    assert_eq!(app.key_count(), 2);
    assert_eq!(app.key_hex(0).as_str(), "AB".repeat(16));
    assert_eq!(app.key_hex(1).as_str(), "01".repeat(16));
    assert_eq!(app.status_kind(), StatusKind::Good);
    assert!(app.status().starts_with("Generated 2 AES-128 key(s) — "));
    assert_eq!(app.keys_clear_deadline(), Some(123_000));
}

#[test]
fn finish_generation_aborts_at_first_failure() {
    let mut app = KeygenApp::new(None, true, None);
    let mut c = app.config();
    c.num_keys = 3;
    app.set_config(c);
    app.generate(0);
    assert_eq!(app.key_count(), 3);
    let draws = vec![Ok(SecretBytes::new(vec![7; 32])), Err(String::from("OS RNG failure: boom"))];
    app.finish_generation(draws, 0);
    assert_eq!(app.key_count(), 0);
    assert_eq!(app.status(), "Generation aborted — OS RNG failure: boom. No keys produced.");
    assert_eq!(app.status_kind(), StatusKind::Error);
    assert_eq!(app.keys_clear_deadline(), None);
}

#[test]
fn key_display_masks_hidden_keys() {
    let mut app = KeygenApp::new(None, true, None);
    let mut c = app.config();
    c.start_hidden = true;
    app.set_config(c);
    app.generate(0);
    assert_eq!(app.key_display(0).as_str(), "\u{00B7}".repeat(64));
    app.apply(Action::ToggleReveal(0), 0);
    assert_eq!(app.key_display(0).as_str(), app.key_hex(0).as_str());
}

#[test]
fn status_colours_and_deadline_range() {
    let p = dark();
    assert_eq!(status_color(p, StatusKind::Good), p.ok);
    assert_eq!(status_color(p, StatusKind::Error), p.danger);
    assert_eq!(status_color(p, StatusKind::Info), p.accent);
    assert!(deadline_representable(0, u64::MAX));
    assert!(deadline_representable(1_000, 20));
    assert!(!deadline_representable(u128::MAX - 10, 1));
    assert!(deadline_representable(u128::MAX - 1_000, 1));
}

use dmr_hex::config::{Config, KeySize, MAX_KEYS, MIN_KEYS};
use dmr_hex::crypto::{generate_key, key_from_entropy, to_hex};
use dmr_hex::security::{SecretBytes, SecretText};

#[test]
fn key_size_bytes_and_hex_len() {
    assert_eq!(KeySize::Aes128.bytes(), 16);
    assert_eq!(KeySize::Aes256.bytes(), 32);
    assert_eq!(KeySize::Aes128.hex_len(), 32);
    assert_eq!(KeySize::Aes256.hex_len(), 64);
}

#[test]
fn key_size_labels() {
    assert_eq!(KeySize::Aes128.label(), "AES-128  (32 hex chars)");
    assert_eq!(KeySize::Aes256.label(), "AES-256  (64 hex chars)");
}

#[test]
fn default_config_values() {
    let c = Config::default();
    assert_eq!(c.num_keys, 1);
    assert_eq!(c.key_size, KeySize::Aes256);
    assert!(c.uppercase);
    assert!(!c.start_hidden);
    assert!(c.clipboard_wipe_enabled);
    assert_eq!(c.clipboard_wipe_secs, 20);
    assert!(c.auto_clear_enabled);
    assert_eq!(c.auto_clear_secs, 120);
}

#[test]
fn key_count_is_clamped() {
    let mut c = Config::default();
    c.num_keys = 0;
    assert_eq!(c.key_count(), MIN_KEYS);
    c.num_keys = 150;
    assert_eq!(c.key_count(), MAX_KEYS);
    c.num_keys = 7;
    assert_eq!(c.key_count(), 7);
    c.num_keys = 100;
    assert_eq!(c.key_count(), 100);
    c.num_keys = 1;
    assert_eq!(c.key_count(), 1);
}

#[test]
fn to_hex_upper_and_lower() {
    let bytes = [0x00u8, 0x0f, 0xab, 0xff, 0x10, 0x9c];
    assert_eq!(to_hex(&bytes, true).as_str(), "000FABFF109C");
    assert_eq!(to_hex(&bytes, false).as_str(), "000fabff109c");
}

#[test]
fn to_hex_of_nothing_is_empty() {
    assert_eq!(to_hex(&[], true).as_str(), "");
}

#[test]
fn to_hex_every_byte_value() {
    for b in 0u8..=255 {
        let h = to_hex(&[b], false);
        assert_eq!(h.as_str(), format!("{:02x}", b));
        let h = to_hex(&[b], true);
        assert_eq!(h.as_str(), format!("{:02X}", b));
    }
}

#[test]
fn generated_key_has_requested_length() {
    let k = generate_key(32).expect("entropy source");
    assert_eq!(k.as_slice().len(), 32);
    assert_eq!(k.len(), 32);
    assert_eq!(to_hex(k.as_slice(), true).as_str().len(), 64);
    let k = generate_key(16).expect("entropy source");
    assert_eq!(to_hex(k.as_slice(), false).as_str().len(), 32);
}

#[test]
fn generated_keys_are_random() {
    let a = generate_key(32).expect("entropy source");
    let b = generate_key(32).expect("entropy source");
    assert_ne!(a.as_slice(), b.as_slice());
    assert!(a.as_slice().iter().any(|&x| x != 0));
}

#[test]
fn empty_key_is_never_locked() {
    let k = generate_key(0).expect("entropy source");
    assert_eq!(k.as_slice().len(), 0);
    assert!(!k.is_locked());
    let s = SecretBytes::new(Vec::new());
    assert!(!s.is_locked());
}

#[test]
fn lock_state_follows_the_guard() {
    let s = SecretBytes::with_lock(vec![1, 2, 3], None);
    assert!(!s.is_locked());
    assert_eq!(s.as_slice(), &[1, 2, 3]);
    let v = vec![5u8; 64];
    let guard = region::lock(v.as_ptr(), v.len()).ok();
    let got = guard.is_some();
    let s = SecretBytes::with_lock(v, guard);
    assert_eq!(s.is_locked(), got);
    assert_eq!(s.as_slice(), &[5u8; 64][..]);
}

#[test]
fn key_from_entropy_success_keeps_bytes() {
    let k = key_from_entropy(vec![1, 2, 3], Ok(())).expect("ok");
    assert_eq!(k.as_slice(), &[1, 2, 3]);
}

#[test]
fn key_from_entropy_failure_reports_source() {
    match key_from_entropy(vec![1, 2, 3], Err(String::from("no entropy"))) {
        Ok(_) => panic!("expected failure"),
        Err(m) => assert_eq!(m, "OS RNG failure: no entropy"),
    }
}

#[test]
fn secret_bytes_hold_their_bytes() {
    let s = SecretBytes::new(vec![9, 8, 7, 6]);
    assert_eq!(s.as_slice(), &[9, 8, 7, 6]);
    assert_eq!(s.len(), 4);
}

#[test]
fn secret_text_holds_its_text() {
    let t = SecretText::new(String::from("ABCD"));
    assert_eq!(t.as_str(), "ABCD");
}

#[test]
fn hex_reads_back_to_the_same_bytes() {
    let bytes = [0xde_u8, 0xad, 0xbe, 0xef, 0x00, 0x7f];
    for upper in [true, false] {
        let h = to_hex(&bytes, upper);
        let s = h.as_str();
        let back: Vec<u8> = (0..s.len() / 2)
            .map(|i| u8::from_str_radix(&s[2 * i..2 * i + 2], 16).unwrap())
            .collect();
        assert_eq!(back, bytes);
    }
    assert_eq!(
        to_hex(&bytes, true).as_str().to_ascii_lowercase(),
        to_hex(&bytes, false).as_str()
    );
}

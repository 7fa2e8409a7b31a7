//! The status-bar and label texts of the key generator.

use vstd::prelude::*;
use crate::config::KeySize;
use crate::text::{decimal, push_decimal, two_digit, two_digit_string};

verus! {

pub open spec fn ready_message() -> Seq<char> {
    "Ready — keys come from the OS CSPRNG and are held in RAM only."@
}

pub open spec fn clipboard_unavailable_message(err: Seq<char>) -> Seq<char> {
    "Clipboard unavailable: "@ + err
}

pub open spec fn aborted_message(err: Seq<char>) -> Seq<char> {
    "Generation aborted — "@ + err + ". No keys produced."@
}

pub open spec fn strength_name(size: KeySize) -> Seq<char> {
    match size {
        KeySize::Aes256 => "AES-256"@,
        KeySize::Aes128 => "AES-128"@,
    }
}

pub open spec fn lock_note(locked: bool) -> Seq<char> {
    if locked {
        "memory-locked"@
    } else {
        "in RAM (page-lock unavailable)"@
    }
}

pub open spec fn generated_message(count: nat, size: KeySize, locked: bool) -> Seq<char> {
    "Generated "@ + decimal(count) + " "@ + strength_name(size) + " key(s) — "@ + lock_note(locked)
        + "."@
}

pub open spec fn keys_cleared_message() -> Seq<char> {
    "Keys cleared and wiped from memory."@
}

/// `index` is the zero-based position of the key; the message counts from 1.
pub open spec fn copied_with_wipe_message(index: nat, secs: nat) -> Seq<char> {
    "Copied key #"@ + decimal(index + 1) + " — clipboard wipes in "@ + decimal(secs) + "s."@
}

pub open spec fn copied_without_wipe_message(index: nat) -> Seq<char> {
    "Copied key #"@ + decimal(index + 1) + " (clipboard auto-wipe is off)."@
}

pub open spec fn copy_failed_message(err: Seq<char>) -> Seq<char> {
    "Copy failed: "@ + err
}

pub open spec fn clipboard_wiped_message() -> Seq<char> {
    "Clipboard wiped."@
}

pub open spec fn wipe_skipped_message() -> Seq<char> {
    "Clipboard wipe skipped (contents changed)."@
}

pub open spec fn auto_cleared_message() -> Seq<char> {
    "Keys auto-cleared and wiped from memory."@
}

pub open spec fn clipboard_countdown(secs: nat) -> Seq<char> {
    "clipboard wipe in "@ + decimal(secs) + "s"@
}

pub open spec fn keys_countdown(secs: nat, after_clipboard: bool) -> Seq<char> {
    "keys clear in "@ + decimal(secs) + "s"@ + if after_clipboard {
        "  \u{00B7}  "@
    } else {
        ""@
    }
}

pub open spec fn keys_in_ram(count: nat) -> Seq<char> {
    "\u{00B7} "@ + decimal(count) + " in RAM"@
}

/// The badge in front of the key at zero-based `index`: its number from 1,
/// with at least two digits.
pub open spec fn index_badge(index: nat) -> Seq<char> {
    two_digit(index + 1)
}

pub fn ready_text() -> (s: String)
    ensures
        s@ == ready_message(),
{
    String::from_str("Ready — keys come from the OS CSPRNG and are held in RAM only.")
}

pub fn clipboard_unavailable_text(err: &str) -> (s: String)
    ensures
        s@ == clipboard_unavailable_message(err@),
{
    let mut s = String::from_str("Clipboard unavailable: ");
    s.append(err);
    s
}

pub fn aborted_text(err: &str) -> (s: String)
    ensures
        s@ == aborted_message(err@),
{
    let mut s = String::from_str("Generation aborted — ");
    s.append(err);
    s.append(". No keys produced.");
    s
}

pub fn strength_text(size: KeySize) -> (s: &'static str)
    ensures
        s@ == strength_name(size),
{
    match size {
        KeySize::Aes256 => "AES-256",
        KeySize::Aes128 => "AES-128",
    }
}

pub fn lock_note_text(locked: bool) -> (s: &'static str)
    ensures
        s@ == lock_note(locked),
{
    if locked {
        "memory-locked"
    } else {
        "in RAM (page-lock unavailable)"
    }
}

pub fn generated_text(count: usize, size: KeySize, locked: bool) -> (s: String)
    ensures
        s@ == generated_message(count as nat, size, locked),
{
    let mut s = String::from_str("Generated ");
    push_decimal(&mut s, count as u128);
    s.append(" ");
    s.append(strength_text(size));
    s.append(" key(s) — ");
    s.append(lock_note_text(locked));
    s.append(".");
    s
}

pub fn keys_cleared_text() -> (s: String)
    ensures
        s@ == keys_cleared_message(),
{
    String::from_str("Keys cleared and wiped from memory.")
}

pub fn copied_with_wipe_text(index: usize, secs: u64) -> (s: String)
    ensures
        s@ == copied_with_wipe_message(index as nat, secs as nat),
{
    let mut s = String::from_str("Copied key #");
    push_decimal(&mut s, index as u128 + 1);
    s.append(" — clipboard wipes in ");
    push_decimal(&mut s, secs as u128);
    s.append("s.");
    s
}

pub fn copied_without_wipe_text(index: usize) -> (s: String)
    ensures
        s@ == copied_without_wipe_message(index as nat),
{
    let mut s = String::from_str("Copied key #");
    push_decimal(&mut s, index as u128 + 1);
    s.append(" (clipboard auto-wipe is off).");
    s
}

pub fn copy_failed_text(err: &str) -> (s: String)
    ensures
        s@ == copy_failed_message(err@),
{
    let mut s = String::from_str("Copy failed: ");
    s.append(err);
    s
}

pub fn clipboard_wiped_text() -> (s: String)
    ensures
        s@ == clipboard_wiped_message(),
{
    String::from_str("Clipboard wiped.")
}

pub fn wipe_skipped_text() -> (s: String)
    ensures
        s@ == wipe_skipped_message(),
{
    String::from_str("Clipboard wipe skipped (contents changed).")
}

pub fn auto_cleared_text() -> (s: String)
    ensures
        s@ == auto_cleared_message(),
{
    String::from_str("Keys auto-cleared and wiped from memory.")
}

/// The countdown shown while a clipboard wipe is pending.
pub fn clipboard_countdown_text(secs: u128) -> (s: String)
    ensures
        s@ == clipboard_countdown(secs as nat),
{
    let mut s = String::from_str("clipboard wipe in ");
    push_decimal(&mut s, secs);
    s.append("s");
    s
}

/// The countdown shown while an automatic clearing of the keys is pending;
/// a separator follows when the clipboard countdown is shown beside it.
pub fn keys_countdown_text(secs: u128, after_clipboard: bool) -> (s: String)
    ensures
        s@ == keys_countdown(secs as nat, after_clipboard),
{
    let mut s = String::from_str("keys clear in ");
    push_decimal(&mut s, secs);
    s.append("s");
    if after_clipboard {
        s.append("  \u{00B7}  ");
    } else {
        s.append("");
    }
    s
}

/// The note of how many keys are held in memory.
pub fn keys_in_ram_text(count: usize) -> (s: String)
    ensures
        s@ == keys_in_ram(count as nat),
{
    let mut s = String::from_str("\u{00B7} ");
    push_decimal(&mut s, count as u128);
    s.append(" in RAM");
    s
}

/// The badge in front of the key at zero-based `index`.
pub fn index_badge_text(index: usize) -> (s: String)
    ensures
        s@ == index_badge(index as nat),
{
    two_digit_string(index as u128 + 1)
}

} // verus!

//! Clipboard bookkeeping with verified auto-wipe.
//!
//! Copying a secret to the system clipboard is inherently risky (clipboard
//! history managers, other processes). The risk is reduced by remembering
//! exactly what was placed there and wiping it after a timeout, but only if
//! the clipboard still holds that value, so that something the user copied
//! since is never clobbered.
//!
//! This type holds the decisions; the program that owns the system clipboard
//! performs the reads and writes that they call for.

use vstd::prelude::*;
use crate::security::{wipe_string, SecretText};

verus! {

pub struct ClipboardManager {
    /// The last value written to the clipboard, kept so it can be verified
    /// before wiping.
    last_set: Option<SecretText>,
    /// Why the system clipboard could not be opened, if it could not.
    init_error: Option<String>,
}

/// Whether a wipe is due: the clipboard is usable, a value of ours is
/// pending, and the clipboard still reads back exactly that value.
pub open spec fn wipe_decision(
    available: bool,
    pending: Option<Seq<char>>,
    current: Option<Seq<char>>,
) -> bool {
    available && pending is Some && current is Some && current->0 == pending->0
}

/// The view of an optional string.
pub open spec fn opt_text(s: Option<String>) -> Option<Seq<char>> {
    match s {
        Some(t) => Some(t@),
        None => None,
    }
}

impl ClipboardManager {
    /// Whether the system clipboard could be opened.
    pub closed spec fn available(&self) -> bool {
        self.init_error is None
    }

    /// The value we last placed on the clipboard and have not yet wiped.
    pub closed spec fn pending(&self) -> Option<Seq<char>> {
        match self.last_set {
            Some(t) => Some(t@),
            None => None,
        }
    }

    /// The error met when opening the system clipboard.
    pub closed spec fn open_error(&self) -> Option<Seq<char>> {
        opt_text(self.init_error)
    }

    /// A manager for a clipboard that opened, or failed to open with
    /// `init_error`.
    pub fn new(init_error: Option<String>) -> (m: Self)
        ensures
            m.open_error() == opt_text(init_error),
            m.available() <==> init_error is None,
            m.pending() is None,
    {
        ClipboardManager { last_set: None, init_error }
    }

    pub fn init_error(&self) -> (e: Option<&str>)
        ensures
            e is Some <==> self.open_error() is Some,
            e matches Some(t) ==> t@ == self.open_error()->0,
    {
        match &self.init_error {
            Some(e) => Some(e.as_str()),
            None => None,
        }
    }

    /// Whether the system clipboard can be written.
    pub fn is_available(&self) -> (b: bool)
        ensures
            b == self.available(),
    {
        self.init_error.is_none()
    }

    /// Records the copy of `text` to the clipboard. `written` is the outcome
    /// of writing it, which the caller attempts only when the clipboard is
    /// available; when it is not, the copy fails with "Clipboard unavailable".
    pub fn set(&mut self, text: SecretText, written: Result<(), String>) -> (r: Result<(), String>)
        ensures
            final(self).open_error() == old(self).open_error(),
            final(self).available() == old(self).available(),
            !old(self).available() ==> (r matches Err(e) && e@ == "Clipboard unavailable"@),
            old(self).available() && written is Err ==> r == written,
            r is Ok <==> old(self).available() && written is Ok,
            r is Ok ==> final(self).pending() == Some(text@),
            r is Err ==> final(self).pending() == old(self).pending(),
    {
        if self.init_error.is_some() {
            return Err(String::from_str("Clipboard unavailable"));
        }
        match written {
            Ok(()) => {
                self.last_set = Some(text);
                Ok(())
            },
            Err(e) => Err(e),
        }
    }

    /// Whether a wipe check needs to read the clipboard: it is usable and holds a
    /// value of ours.
    pub fn needs_check(&self) -> (b: bool)
        ensures
            b == (self.available() && self.pending() is Some),
    {
        self.init_error.is_none() && self.last_set.is_some()
    }

    /// Whether a wipe is called for when the clipboard holds `current`
    /// (`None` when it could not be read): the clipboard is usable and still
    /// holds exactly the value we last set.
    pub fn still_ours(&self, current: &Option<String>) -> (b: bool)
        ensures
            b == wipe_decision(self.available(), self.pending(), opt_text(*current)),
    {
        if self.init_error.is_some() {
            return false;
        }
        match (&self.last_set, current) {
            (Some(ours), Some(cur)) => string_eq_str(cur, ours.as_str()),
            _ => false,
        }
    }

    /// Ends a wipe check. `current` is what the clipboard held (`None` when
    /// it could not be read); `wiped` is the outcome of overwriting and then
    /// clearing the clipboard, which the caller attempts only when
    /// `still_ours` said so, and which is ignored otherwise. Either way the
    /// value we set is forgotten, so a wipe happens at most once per copy,
    /// and the text read back is wiped from memory.
    ///
    /// Returns true if a wipe was performed.
    pub fn wipe_if_ours(&mut self, current: Option<String>, wiped: Result<(), String>) -> (r: bool)
        ensures
            r == (wipe_decision(old(self).available(), old(self).pending(), opt_text(current))
                && wiped is Ok),
            final(self).pending() is None,
            final(self).open_error() == old(self).open_error(),
            final(self).available() == old(self).available(),
    {
        let ours = self.still_ours(&current);
        self.last_set = None;
        if let Some(mut text) = current {
            wipe_string(&mut text);
        }
        ours && wiped.is_ok()
    }
}

/// Compares the texts character by character, without copying either.
fn string_eq_str(a: &String, b: &str) -> (r: bool)
    ensures
        r == (a@ == b@),
{
    let s = a.as_str();
    let n = s.unicode_len();
    if n != b.unicode_len() {
        return false;
    }
    let mut i: usize = 0;
    while i < n
        invariant
            s@ == a@,
            n == a@.len(),
            n == b@.len(),
            i <= n,
            forall|j: int| 0 <= j < i ==> a@[j] == b@[j],
        decreases n - i,
    {
        if s.get_char(i) != b.get_char(i) {
            assert(a@[i as int] != b@[i as int]);
            return false;
        }
        i = i + 1;
    }
    assert(a@ =~= b@);
    true
}

} // verus!

//! The key generator's state: options, generated keys, clipboard bookkeeping,
//! status line and timers, with the actions that change them.
//!
//! Time is a count of milliseconds on a monotonic clock, supplied by the
//! caller. Reads and writes of the system clipboard are performed by the
//! caller too: the methods here say when one is called for and take its
//! outcome.

use vstd::prelude::*;
use crate::clipboard::{opt_text, wipe_decision, ClipboardManager};
use crate::config::{clamped_key_count, default_config, key_bytes, key_hex_len, Config, MAX_KEYS};
use crate::crypto::{generate_key, hex_of, is_rng_failure, to_hex};
use crate::messages::{
    aborted_message, aborted_text, auto_cleared_message, auto_cleared_text,
    clipboard_unavailable_message, clipboard_unavailable_text, clipboard_wiped_message,
    clipboard_wiped_text, copied_with_wipe_message, copied_with_wipe_text,
    copied_without_wipe_message, copied_without_wipe_text, copy_failed_message, copy_failed_text,
    generated_message, generated_text, keys_cleared_message, keys_cleared_text, ready_message,
    ready_text, wipe_skipped_message, wipe_skipped_text,
};
use crate::security::{SecretBytes, SecretText};
use crate::text::{mask_of, mask_string};
use crate::theme::{for_system, system_palette, Palette, Rgb};

verus! {

/// One generated key plus its on-screen reveal state.
struct KeyEntry {
    secret: SecretBytes,
    revealed: bool,
}

impl KeyEntry {
    fn hex(&self, uppercase: bool) -> (s: SecretText)
        ensures
            s@ == hex_of(self.secret@, uppercase),
    {
        to_hex(self.secret.as_slice(), uppercase)
    }
}

/// Whether the draws from the entropy source are complete for a generation
/// of `n` keys: no more than `n`, and `n` unless one of them failed.
pub open spec fn draws_settled(draws: Seq<Result<SecretBytes, String>>, n: int) -> bool {
    &&& draws.len() <= n
    &&& (draws.len() == n || exists|k: int| 0 <= k < draws.len() && draws[k] is Err)
}

/// Every draw succeeded.
pub open spec fn all_drawn(draws: Seq<Result<SecretBytes, String>>) -> bool {
    forall|i: int| 0 <= i < draws.len() ==> (#[trigger] draws[i]) is Ok
}

/// Draw `k` is the first that failed.
pub open spec fn first_failure(draws: Seq<Result<SecretBytes, String>>, k: int) -> bool {
    &&& 0 <= k < draws.len()
    &&& draws[k] is Err
    &&& forall|j: int| 0 <= j < k ==> (#[trigger] draws[j]) is Ok
}

/// Whether every entry's key is locked into RAM.
fn entries_locked(entries: &Vec<KeyEntry>) -> (b: bool)
    ensures
        b == forall|i: int| 0 <= i < entries@.len() ==> (#[trigger] entries@[i]).secret.locked(),
{
    let n = entries.len();
    for i in 0..n
        invariant
            n == entries@.len(),
            forall|j: int| 0 <= j < i ==> (#[trigger] entries@[j]).secret.locked(),
    {
        if !entries[i].secret.is_locked() {
            return false;
        }
    }
    true
}

/// What the user asked for in one frame of the interface.
pub enum Action {
    Generate,
    ClearAll,
    Copy(usize),
    ToggleReveal(usize),
    RevealAll(bool),
}

/// How the status line is presented.
#[derive(Clone, Copy, PartialEq, Eq, Structural, Debug)]
pub enum StatusKind {
    Info,
    Good,
    Error,
}

/// What the timers report: whether the clipboard was wiped, and whether to
/// draw again soon so that a live countdown keeps ticking.
#[derive(Clone, Copy, PartialEq, Eq, Structural, Debug)]
pub struct TimerOutcome {
    pub clipboard_wiped: bool,
    pub repaint: bool,
}

/// A key's hex text to be written to the system clipboard, for the key at
/// `index`.
pub struct CopyRequest {
    index: usize,
    text: SecretText,
}

impl CopyRequest {
    #[verifier::type_invariant]
    spec fn index_in_range(self) -> bool {
        self.index < MAX_KEYS
    }

    pub closed spec fn spec_index(self) -> nat {
        self.index as nat
    }

    pub closed spec fn spec_text(self) -> Seq<char> {
        self.text@
    }

    pub fn index(&self) -> (i: usize)
        ensures
            i == self.spec_index(),
            i < MAX_KEYS,
    {
        proof {
            use_type_invariant(self);
        }
        self.index
    }

    /// The text to place on the clipboard.
    pub fn text(&self) -> (t: &SecretText)
        ensures
            t@ == self.spec_text(),
    {
        &self.text
    }
}

/// The instant `secs` seconds after `now`, in milliseconds.
pub open spec fn deadline_after(now: u128, secs: u64) -> int {
    now + secs * 1000
}

/// Whether the instant `secs` seconds after `now` can be represented.
pub open spec fn deadline_fits(now: u128, secs: u64) -> bool {
    deadline_after(now, secs) <= u128::MAX
}

/// Whether the instant `secs` seconds after `now` can be represented; the
/// operations that set a deadline require it.
pub fn deadline_representable(now: u128, secs: u64) -> (b: bool)
    ensures
        b == deadline_fits(now, secs),
{
    (secs as u128) * 1000 <= u128::MAX - now
}

/// The colour of the status dot for a kind of status.
pub open spec fn status_rgb(p: Palette, kind: StatusKind) -> Rgb {
    match kind {
        StatusKind::Good => p.ok,
        StatusKind::Error => p.danger,
        StatusKind::Info => p.accent,
    }
}

/// The colour of the status dot for a kind of status.
pub fn status_color(p: Palette, kind: StatusKind) -> (c: Rgb)
    ensures
        c == status_rgb(p, kind),
{
    match kind {
        StatusKind::Good => p.ok,
        StatusKind::Error => p.danger,
        StatusKind::Info => p.accent,
    }
}

/// Whether the deadline, if any, has been reached at `now`.
pub open spec fn due(deadline: Option<u128>, now: u128) -> bool {
    deadline matches Some(d) && now >= d
}

/// Whole seconds left until the deadline, if any.
pub open spec fn seconds_left(deadline: Option<u128>, now: u128) -> Option<u128> {
    match deadline {
        Some(d) => Some((if d >= now { (d - now) / 1000 } else { 0 }) as u128),
        None => None,
    }
}

/// Whole seconds left until `deadline`, if there is one, at `now`.
pub fn secs_left(deadline: Option<u128>, now: u128) -> (r: Option<u128>)
    ensures
        r == seconds_left(deadline, now),
        deadline is None <==> r is None,
        deadline matches Some(d) ==> (d >= now ==> r->0 * 1000 <= d - now < (r->0 + 1) * 1000),
        deadline matches Some(d) ==> (d < now ==> r->0 == 0),
{
    match deadline {
        Some(d) => Some(d.saturating_sub(now) / 1000),
        None => None,
    }
}

/// ASCII lowercase of a character; other characters are unchanged.
pub open spec fn ascii_lower(c: char) -> char {
    if 'A' <= c <= 'Z' {
        ((c as int) + 32) as char
    } else {
        c
    }
}

/// Equality of two texts when ASCII letters are compared without case.
pub open spec fn eq_ignore_ascii_case(a: Seq<char>, b: Seq<char>) -> bool {
    a.len() == b.len() && forall|i: int| 0 <= i < a.len() ==> ascii_lower(#[trigger] a[i]) == ascii_lower(b[i])
}

/// The theme forced by the value of the `DMR_THEME` variable: light for
/// "light" in any case, dark for any other value, none when it is unset.
pub open spec fn theme_override_of(value: Option<Seq<char>>) -> Option<bool> {
    match value {
        Some(t) => Some(!eq_ignore_ascii_case(t, "light"@)),
        None => None,
    }
}

/// Whether the theme is dark: a forced theme wins; otherwise the system's
/// preference, when it is known; otherwise the current one.
pub open spec fn resolve_dark(theme_override: Option<bool>, system_dark: Option<bool>, current: bool) -> bool {
    match theme_override {
        Some(d) => d,
        None => match system_dark {
            Some(d) => d,
            None => current,
        },
    }
}

fn ascii_lower_char(c: char) -> (r: char)
    ensures
        r == ascii_lower(c),
{
    if 'A' <= c && c <= 'Z' {
        (((c as u32) + 32) as u8) as char
    } else {
        c
    }
}

/// The theme forced by the value of the `DMR_THEME` environment variable.
pub fn theme_override_from(value: Option<&str>) -> (r: Option<bool>)
    ensures
        r == theme_override_of(
            match value {
                Some(t) => Some(t@),
                None => None,
            },
        ),
{
    match value {
        None => None,
        Some(t) => {
            let light = "light";
            proof {
                reveal_strlit("light");
            }
            let n = t.unicode_len();
            let m = light.unicode_len();
            if n != m {
                return Some(true);
            }
            let mut i: usize = 0;
            while i < n
                invariant
                    n == t@.len(),
                    m == light@.len(),
                    light@ == "light"@,
                    value == Some(t),
                    n == m,
                    i <= n,
                    forall|j: int| 0 <= j < i ==> ascii_lower(#[trigger] t@[j]) == ascii_lower(light@[j]),
                decreases n - i,
            {
                if ascii_lower_char(t.get_char(i)) != ascii_lower_char(light.get_char(i)) {
                    assert(!eq_ignore_ascii_case(t@, light@)) by {
                        assert(ascii_lower(t@[i as int]) != ascii_lower(light@[i as int]));
                    }
                    return Some(true);
                }
                i = i + 1;
            }
            Some(false)
        },
    }
}

/// The whole state of the key generator.
pub struct KeygenApp {
    config: Config,
    keys: Vec<KeyEntry>,
    clipboard: ClipboardManager,
    /// Whether the dark palette is in use; the palette follows from it.
    dark_mode: bool,
    /// Forces a theme regardless of the OS; `None` follows the system.
    theme_override: Option<bool>,
    status: String,
    status_kind: StatusKind,
    clipboard_wipe_deadline: Option<u128>,
    keys_clear_deadline: Option<u128>,
}

impl KeygenApp {
    #[verifier::type_invariant]
    spec fn well_formed(self) -> bool {
        self.keys.len() <= MAX_KEYS
    }

    pub closed spec fn options(self) -> Config {
        self.config
    }

    pub closed spec fn key_total(self) -> nat {
        self.keys@.len()
    }

    /// The bytes of the key at position `i`.
    pub closed spec fn key_material(self, i: int) -> Seq<u8> {
        self.keys@[i].secret@
    }

    /// Whether the key at position `i` is shown in clear.
    pub closed spec fn key_shown(self, i: int) -> bool {
        self.keys@[i].revealed
    }

    /// Whether the key at position `i` is locked into RAM.
    pub closed spec fn key_locked(self, i: int) -> bool {
        self.keys@[i].secret.locked()
    }

    pub closed spec fn status_line(self) -> Seq<char> {
        self.status@
    }

    pub closed spec fn status_class(self) -> StatusKind {
        self.status_kind
    }

    pub closed spec fn clipboard_state(self) -> ClipboardManager {
        self.clipboard
    }

    /// When the clipboard is next to be wiped, in milliseconds.
    pub closed spec fn wipe_deadline(self) -> Option<u128> {
        self.clipboard_wipe_deadline
    }

    /// When the keys are next to be cleared, in milliseconds.
    pub closed spec fn clear_deadline(self) -> Option<u128> {
        self.keys_clear_deadline
    }

    pub closed spec fn is_dark(self) -> bool {
        self.dark_mode
    }

    pub closed spec fn forced_theme(self) -> Option<bool> {
        self.theme_override
    }

    pub closed spec fn current_palette(self) -> Palette {
        system_palette(self.dark_mode)
    }

    /// Whether every key is locked into RAM.
    pub open spec fn all_locked(self) -> bool {
        forall|i: int| 0 <= i < self.key_total() ==> #[trigger] self.key_locked(i)
    }

    /// The two states hold the same keys, shown the same way.
    pub open spec fn same_keys(self, other: Self) -> bool {
        &&& self.key_total() == other.key_total()
        &&& forall|i: int|
            0 <= i < self.key_total() ==> {
                &&& #[trigger] self.key_material(i) == other.key_material(i)
                &&& self.key_shown(i) == other.key_shown(i)
                &&& self.key_locked(i) == other.key_locked(i)
            }
    }

    /// The two states agree on the theme.
    pub open spec fn same_theme(self, other: Self) -> bool {
        &&& self.is_dark() == other.is_dark()
        &&& self.forced_theme() == other.forced_theme()
        &&& self.current_palette() == other.current_palette()
    }

    /// The two states agree on the clipboard.
    pub open spec fn same_clipboard(self, other: Self) -> bool {
        &&& self.clipboard_state().pending() == other.clipboard_state().pending()
        &&& self.clipboard_state().open_error() == other.clipboard_state().open_error()
        &&& self.clipboard_state().available() == other.clipboard_state().available()
    }

    /// The two states agree on the status line.
    pub open spec fn same_status(self, other: Self) -> bool {
        &&& self.status_line() == other.status_line()
        &&& self.status_class() == other.status_class()
    }

    /// Nothing differs between the two states.
    pub open spec fn same_state(self, other: Self) -> bool {
        &&& self.options() == other.options()
        &&& self.same_keys(other)
        &&& self.same_theme(other)
        &&& self.same_clipboard(other)
        &&& self.same_status(other)
        &&& self.wipe_deadline() == other.wipe_deadline()
        &&& self.clear_deadline() == other.clear_deadline()
    }

    /// `self` is `before` with the theme following `system_dark`, the OS
    /// preference when the system reports one, unless a theme is forced.
    pub open spec fn theme_synced_from(self, before: Self, system_dark: Option<bool>) -> bool {
        &&& self.is_dark() == resolve_dark(before.forced_theme(), system_dark, before.is_dark())
        &&& self.current_palette() == system_palette(self.is_dark())
        &&& self.forced_theme() == before.forced_theme()
        &&& self.options() == before.options()
        &&& self.same_keys(before)
        &&& self.same_clipboard(before)
        &&& self.same_status(before)
        &&& self.wipe_deadline() == before.wipe_deadline()
        &&& self.clear_deadline() == before.clear_deadline()
    }

    /// The state at startup, with the theme forced by `theme_override` or
    /// else the system's (`system_dark`), and the clipboard opened or failed
    /// to open with `clipboard_init_error`.
    pub fn new(theme_override: Option<bool>, system_dark: bool, clipboard_init_error: Option<String>) -> (app: Self)
        ensures
            app.options() == default_config(),
            app.key_total() == 0,
            app.is_dark() == resolve_dark(theme_override, Some(system_dark), system_dark),
            app.forced_theme() == theme_override,
            app.current_palette() == system_palette(app.is_dark()),
            app.clipboard_state().open_error() == opt_text(clipboard_init_error),
            app.clipboard_state().available() <==> clipboard_init_error is None,
            app.clipboard_state().pending() is None,
            app.wipe_deadline() is None,
            app.clear_deadline() is None,
            clipboard_init_error matches Some(e) ==> app.status_line() == clipboard_unavailable_message(e@)
                && app.status_class() == StatusKind::Error,
            clipboard_init_error is None ==> app.status_line() == ready_message() && app.status_class()
                == StatusKind::Info,
    {
        let dark = match theme_override {
            Some(d) => d,
            None => system_dark,
        };
        let clipboard = ClipboardManager::new(clipboard_init_error);
        let (status, status_kind) = match clipboard.init_error() {
            Some(err) => (clipboard_unavailable_text(err), StatusKind::Error),
            None => (ready_text(), StatusKind::Info),
        };
        KeygenApp {
            config: Config::default(),
            keys: Vec::new(),
            clipboard,
            dark_mode: dark,
            theme_override,
            status,
            status_kind,
            clipboard_wipe_deadline: None,
            keys_clear_deadline: None,
        }
    }

    /// Follows the OS light/dark preference (`system_dark`, when the system
    /// reports one) unless a theme is forced, and returns the palette to
    /// apply.
    pub fn sync_theme(&mut self, system_dark: Option<bool>) -> (p: Palette)
        ensures
            final(self).theme_synced_from(*old(self), system_dark),
            p == final(self).current_palette(),
    {
        proof {
            use_type_invariant(&*self);
        }
        let dark = match self.theme_override {
            Some(d) => d,
            None => match system_dark {
                Some(d) => d,
                None => self.dark_mode,
            },
        };
        self.dark_mode = dark;
        for_system(dark)
    }

    /// `all_locked` is the lock state of every entry.
    proof fn lemma_all_locked(self, b: bool)
        requires
            b == forall|i: int| 0 <= i < self.keys@.len() ==> (#[trigger] self.keys@[i]).secret.locked(),
        ensures
            self.all_locked() == b,
    {
        if b {
            assert forall|j: int| 0 <= j < self.key_total() implies #[trigger] self.key_locked(j) by {
                assert(self.keys@[j].secret.locked());
            }
        } else {
            let j = choose|j: int| 0 <= j < self.keys@.len() && !(#[trigger] self.keys@[j]).secret.locked();
            assert(!self.key_locked(j));
        }
    }

    /// The parts of a successful generation make one.
    proof fn lemma_generation_succeeded(self, c: Config, now: u128)
        requires
            self.key_total() == clamped_key_count(c.num_keys as int),
            forall|i: int|
                #![trigger self.key_material(i)]
                #![trigger self.key_shown(i)]
                0 <= i < self.key_total() ==> self.key_material(i).len() == key_bytes(c.key_size)
                    && self.key_shown(i) == !c.start_hidden,
            self.status_line() == generated_message(self.key_total(), c.key_size, self.all_locked()),
            self.status_class() == StatusKind::Good,
            self.clear_deadline() == if c.auto_clear_enabled {
                Some(deadline_after(now, c.auto_clear_secs) as u128)
            } else {
                None
            },
        ensures
            self.generation_succeeded(c, now),
    {
    }

    fn set_status(&mut self, msg: String, kind: StatusKind)
        ensures
            final(self).status@ == msg@,
            final(self).status_kind == kind,
            final(self).config == old(self).config,
            final(self).keys == old(self).keys,
            final(self).clipboard == old(self).clipboard,
            final(self).dark_mode == old(self).dark_mode,
            final(self).theme_override == old(self).theme_override,
            final(self).clipboard_wipe_deadline == old(self).clipboard_wipe_deadline,
            final(self).keys_clear_deadline == old(self).keys_clear_deadline,
    {
        proof {
            use_type_invariant(&*self);
        }
        self.status = msg;
        self.status_kind = kind;
    }

    /// The keys hold what a successful generation with options `c` at time
    /// `now` produces.
    pub open spec fn generation_succeeded(self, c: Config, now: u128) -> bool {
        let n = clamped_key_count(c.num_keys as int);
        &&& self.key_total() == n
        &&& forall|i: int|
            #![trigger self.key_material(i)]
            #![trigger self.key_shown(i)]
            0 <= i < n ==> {
                &&& self.key_material(i).len() == key_bytes(c.key_size)
                &&& self.key_shown(i) == !c.start_hidden
            }
        &&& self.status_line() == generated_message(n as nat, c.key_size, self.all_locked())
        &&& self.status_class() == StatusKind::Good
        &&& self.clear_deadline() == if c.auto_clear_enabled {
            Some(deadline_after(now, c.auto_clear_secs) as u128)
        } else {
            None
        }
    }

    /// No key is held after the entropy source failed during a generation.
    pub open spec fn generation_aborted(self) -> bool {
        &&& self.key_total() == 0
        &&& self.status_class() == StatusKind::Error
        &&& self.clear_deadline() is None
        &&& exists|e: Seq<char>| is_rng_failure(e) && self.status_line() == aborted_message(e)
    }

    /// `self` is what a generation at `now` makes of `before`.
    pub open spec fn generated_from(self, before: Self, now: u128) -> bool {
        &&& self.options() == before.options()
        &&& self.same_theme(before)
        &&& self.same_clipboard(before)
        &&& self.wipe_deadline() == before.wipe_deadline()
        &&& (self.generation_succeeded(before.options(), now) || self.generation_aborted())
    }

    /// Replaces the keys with a fresh set of `Config::key_count` keys from
    /// the OS CSPRNG. The old keys are wiped first. If the entropy source
    /// fails, generation is aborted and no key is kept. Which of the two
    /// happens is decided by the draws, as `finish_generation` states.
    pub fn generate(&mut self, now: u128)
        requires
            old(self).options().auto_clear_enabled ==> deadline_fits(now, old(self).options().auto_clear_secs),
        ensures
            final(self).generated_from(*old(self), now),
    {
        proof {
            use_type_invariant(&*self);
        }
        // Dropping old entries zeroizes their key material immediately.
        self.keys = Vec::new();
        let n = self.config.key_count();
        let byte_len = self.config.key_size.bytes();
        let mut draws: Vec<Result<SecretBytes, String>> = Vec::new();
        let mut failed = false;
        let mut i: usize = 0;
        while i < n && !failed
            invariant
                n == clamped_key_count(self.config.num_keys as int),
                byte_len == key_bytes(self.config.key_size),
                i <= n,
                draws@.len() == i,
                forall|j: int|
                    0 <= j < i ==> {
                        &&& (#[trigger] draws@[j]) is Ok ==> draws@[j]->Ok_0@.len() == byte_len
                        &&& draws@[j] is Err ==> is_rng_failure(draws@[j]->Err_0@)
                    },
                forall|j: int| 0 <= j < i && !(failed && j == i - 1) ==> (#[trigger] draws@[j]) is Ok,
                failed ==> i > 0 && draws@[i - 1] is Err,
            decreases n - i,
        {
            let draw = generate_key(byte_len);
            failed = draw.is_err();
            draws.push(draw);
            i = i + 1;
        }
        let ghost d = draws@;
        assert(first_failure(d, i - 1) || all_drawn(d));
        self.finish_generation(draws, now);
        proof {
            if !all_drawn(d) {
                assert(first_failure(d, i - 1));
                assert(is_rng_failure(d[i - 1]->Err_0@));
            }
        }
    }

    /// Ends a generation whose draws from the entropy source, in order, are
    /// `draws`: as many as the options ask for, or up to and including the
    /// first failure. When every draw succeeded, the keys are the drawn
    /// secrets and the status reports them; at the first failed draw the
    /// generation is aborted with that draw's error, and no key is kept.
    pub fn finish_generation(&mut self, draws: Vec<Result<SecretBytes, String>>, now: u128)
        requires
            draws_settled(draws@, clamped_key_count(old(self).options().num_keys as int)),
            forall|i: int|
                0 <= i < draws@.len() && (#[trigger] draws@[i]) is Ok ==> draws@[i]->Ok_0@.len() == key_bytes(
                    old(self).options().key_size,
                ),
            old(self).options().auto_clear_enabled ==> deadline_fits(now, old(self).options().auto_clear_secs),
        ensures
            final(self).options() == old(self).options(),
            final(self).same_theme(*old(self)),
            final(self).same_clipboard(*old(self)),
            final(self).wipe_deadline() == old(self).wipe_deadline(),
            all_drawn(draws@) ==> {
                &&& final(self).generation_succeeded(old(self).options(), now)
                &&& forall|i: int| 0 <= i < draws@.len() ==> #[trigger] final(self).key_material(i) == draws@[i]->Ok_0@
            },
            forall|k: int|
                first_failure(draws@, k) ==> {
                    &&& final(self).key_total() == 0
                    &&& final(self).status_line() == aborted_message(draws@[k]->Err_0@)
                    &&& final(self).status_class() == StatusKind::Error
                    &&& final(self).clear_deadline() is None
                },
    {
        proof {
            use_type_invariant(&*self);
        }
        self.keys = Vec::new();
        let ghost all = draws@;
        let revealed = !self.config.start_hidden;
        let n = draws.len();
        let mut rest = draws;
        let mut fresh: Vec<KeyEntry> = Vec::new();
        let mut i: usize = 0;
        while i < n
            invariant
                self.config == old(self).config,
                self.keys@.len() == 0,
                self.clipboard == old(self).clipboard,
                self.dark_mode == old(self).dark_mode,
                self.theme_override == old(self).theme_override,
                self.clipboard_wipe_deadline == old(self).clipboard_wipe_deadline,
                all == draws@,
                n == all.len(),
                draws_settled(all, clamped_key_count(self.config.num_keys as int)),
                forall|j: int|
                    0 <= j < all.len() && (#[trigger] all[j]) is Ok ==> all[j]->Ok_0@.len() == key_bytes(
                        self.config.key_size,
                    ),
                self.config.auto_clear_enabled ==> deadline_fits(now, self.config.auto_clear_secs),
                n <= MAX_KEYS,
                revealed == !self.config.start_hidden,
                i <= n,
                rest@ == all.subrange(i as int, n as int),
                fresh@.len() == i,
                forall|j: int|
                    0 <= j < i ==> {
                        &&& (#[trigger] all[j]) is Ok
                        &&& fresh@[j].secret@ == all[j]->Ok_0@
                        &&& fresh@[j].revealed == revealed
                    },
            decreases n - i,
        {
            let draw = rest.remove(0);
            assert(draw == all[i as int]);
            match draw {
                Ok(secret) => {
                    fresh.push(KeyEntry { secret, revealed });
                },
                Err(e) => {
                    let msg = aborted_text(e.as_str());
                    self.set_status(msg, StatusKind::Error);
                    self.keys_clear_deadline = None;
                    assert forall|k: int| first_failure(all, k) implies k == i by {
                        if k < i {
                            assert(all[k] is Ok);
                        } else if k > i {
                            assert(all[i as int] is Ok);
                        }
                    }
                    return ;
                },
            }
            i = i + 1;
        }
        assert(forall|k: int| !first_failure(all, k));
        let locked = entries_locked(&fresh);
        self.keys = fresh;
        let msg = generated_text(n, self.config.key_size, locked);
        self.set_status(msg, StatusKind::Good);
        self.keys_clear_deadline = if self.config.auto_clear_enabled {
            Some(now + (self.config.auto_clear_secs as u128) * 1000)
        } else {
            None
        };
        proof {
            self.lemma_all_locked(locked);
            assert(n == clamped_key_count(self.config.num_keys as int));
            let c = old(self).options();
            assert forall|i: int|
                #![trigger self.key_material(i)]
                #![trigger self.key_shown(i)]
                0 <= i < n implies self.key_material(i) == all[i]->Ok_0@ && self.key_material(i).len()
                == key_bytes(c.key_size) && self.key_shown(i) == !c.start_hidden by {
                assert(all[i] is Ok);
            }
            self.lemma_generation_succeeded(c, now);
        }
    }

    /// `self` is `before` after all keys were cleared by the user.
    pub open spec fn cleared_from(self, before: Self) -> bool {
        &&& self.key_total() == 0
        &&& self.clear_deadline() is None
        &&& self.options() == before.options()
        &&& self.same_theme(before)
        &&& self.same_clipboard(before)
        &&& self.wipe_deadline() == before.wipe_deadline()
        &&& before.key_total() > 0 ==> self.status_line() == keys_cleared_message() && self.status_class()
            == StatusKind::Good
        &&& before.key_total() == 0 ==> self.same_status(before)
    }

    /// Removes and wipes every key, and cancels their automatic clearing.
    pub fn clear_all(&mut self)
        ensures
            final(self).cleared_from(*old(self)),
    {
        proof {
            use_type_invariant(&*self);
        }
        let had = self.keys.len() > 0;
        self.keys = Vec::new();
        self.keys_clear_deadline = None;
        if had {
            self.set_status(keys_cleared_text(), StatusKind::Good);
        }
    }

    /// The hex text of the key at `index`, in the configured case, to be
    /// written to the clipboard; `None` if there is no such key.
    pub fn copy_request(&self, index: usize) -> (r: Option<CopyRequest>)
        ensures
            r is Some <==> index < self.key_total(),
            r matches Some(q) ==> q.spec_index() == index && q.spec_text() == hex_of(
                self.key_material(index as int),
                self.options().uppercase,
            ),
    {
        proof {
            use_type_invariant(self);
        }
        if index < self.keys.len() {
            let text = self.keys[index].hex(self.config.uppercase);
            Some(CopyRequest { index, text })
        } else {
            None
        }
    }

    /// `self` is `before` after the copy of `text`, the key at `index`, to
    /// the clipboard at `now`, where `written` is the outcome of the write.
    pub open spec fn copied_from(
        self,
        before: Self,
        index: nat,
        text: Seq<char>,
        written: Result<(), String>,
        now: u128,
    ) -> bool {
        let ok = before.clipboard_state().available() && written is Ok;
        let c = before.options();
        let err = if before.clipboard_state().available() {
            written->Err_0@
        } else {
            "Clipboard unavailable"@
        };
        &&& self.options() == c
        &&& self.same_keys(before)
        &&& self.same_theme(before)
        &&& self.clear_deadline() == before.clear_deadline()
        &&& self.clipboard_state().open_error() == before.clipboard_state().open_error()
        &&& self.clipboard_state().available() == before.clipboard_state().available()
        &&& ok ==> self.clipboard_state().pending() == Some(text)
        &&& !ok ==> self.clipboard_state().pending() == before.clipboard_state().pending()
        &&& ok && c.clipboard_wipe_enabled ==> {
            &&& self.wipe_deadline() == Some(deadline_after(now, c.clipboard_wipe_secs) as u128)
            &&& self.status_line() == copied_with_wipe_message(index, c.clipboard_wipe_secs as nat)
            &&& self.status_class() == StatusKind::Good
        }
        &&& ok && !c.clipboard_wipe_enabled ==> {
            &&& self.wipe_deadline() is None
            &&& self.status_line() == copied_without_wipe_message(index)
            &&& self.status_class() == StatusKind::Info
        }
        &&& !ok ==> {
            &&& self.wipe_deadline() == before.wipe_deadline()
            &&& self.status_line() == copy_failed_message(err)
            &&& self.status_class() == StatusKind::Error
        }
    }

    /// Records the copy of a key to the clipboard. `written` is the outcome
    /// of writing `request.text()` to the system clipboard, which the caller
    /// attempts only when the clipboard is available. On success a wipe is
    /// scheduled if the options ask for one.
    pub fn finish_copy(&mut self, request: CopyRequest, written: Result<(), String>, now: u128)
        requires
            old(self).clipboard_state().available() && written is Ok
                && old(self).options().clipboard_wipe_enabled ==> deadline_fits(
                now,
                old(self).options().clipboard_wipe_secs,
            ),
        ensures
            final(self).copied_from(*old(self), request.spec_index(), request.spec_text(), written, now),
    {
        proof {
            use_type_invariant(&*self);
            use_type_invariant(&request);
        }
        let index = request.index;
        let ghost text = request.text@;
        let mut clipboard = ClipboardManager::new(None);
        std::mem::swap(&mut clipboard, &mut self.clipboard);
        let outcome = clipboard.set(request.text, written);
        self.clipboard = clipboard;
        match outcome {
            Ok(()) => {
                if self.config.clipboard_wipe_enabled {
                    self.clipboard_wipe_deadline = Some(now + (self.config.clipboard_wipe_secs as u128) * 1000);
                    let msg = copied_with_wipe_text(index, self.config.clipboard_wipe_secs);
                    self.set_status(msg, StatusKind::Good);
                } else {
                    self.clipboard_wipe_deadline = None;
                    let msg = copied_without_wipe_text(index);
                    self.set_status(msg, StatusKind::Info);
                }
            },
            Err(e) => {
                let msg = copy_failed_text(e.as_str());
                self.set_status(msg, StatusKind::Error);
            },
        }
    }

    /// `self` is `before` with the key at `index`, if any, shown or hidden
    /// the other way round.
    pub open spec fn toggled_from(self, before: Self, index: int) -> bool {
        &&& self.key_total() == before.key_total()
        &&& forall|i: int|
            0 <= i < self.key_total() ==> {
                &&& #[trigger] self.key_material(i) == before.key_material(i)
                &&& self.key_locked(i) == before.key_locked(i)
                &&& self.key_shown(i) == if i == index {
                    !before.key_shown(i)
                } else {
                    before.key_shown(i)
                }
            }
        &&& self.options() == before.options()
        &&& self.same_theme(before)
        &&& self.same_clipboard(before)
        &&& self.same_status(before)
        &&& self.wipe_deadline() == before.wipe_deadline()
        &&& self.clear_deadline() == before.clear_deadline()
    }

    /// `self` is `before` with every key shown (`shown`) or hidden.
    pub open spec fn revealed_all_from(self, before: Self, shown: bool) -> bool {
        &&& self.key_total() == before.key_total()
        &&& forall|i: int|
            0 <= i < self.key_total() ==> {
                &&& #[trigger] self.key_material(i) == before.key_material(i)
                &&& self.key_locked(i) == before.key_locked(i)
                &&& self.key_shown(i) == shown
            }
        &&& self.options() == before.options()
        &&& self.same_theme(before)
        &&& self.same_clipboard(before)
        &&& self.same_status(before)
        &&& self.wipe_deadline() == before.wipe_deadline()
        &&& self.clear_deadline() == before.clear_deadline()
    }

    fn toggle_reveal(&mut self, index: usize)
        ensures
            final(self).toggled_from(*old(self), index as int),
    {
        proof {
            use_type_invariant(&*self);
        }
        if index < self.keys.len() {
            let shown = self.keys[index].revealed;
            self.keys[index].revealed = !shown;
        }
    }

    fn reveal_all(&mut self, shown: bool)
        ensures
            final(self).revealed_all_from(*old(self), shown),
    {
        proof {
            use_type_invariant(&*self);
        }
        let n = self.keys.len();
        for i in 0..n
            invariant
                n == old(self).keys@.len(),
                n <= MAX_KEYS,
                self.keys@.len() == n,
                forall|j: int|
                    0 <= j < n ==> {
                        &&& (#[trigger] self.keys@[j]).secret == old(self).keys@[j].secret
                        &&& self.keys@[j].revealed == if j < i {
                            shown
                        } else {
                            old(self).keys@[j].revealed
                        }
                    },
                self.config == old(self).config,
                self.clipboard == old(self).clipboard,
                self.dark_mode == old(self).dark_mode,
                self.theme_override == old(self).theme_override,
                self.status == old(self).status,
                self.status_kind == old(self).status_kind,
                self.clipboard_wipe_deadline == old(self).clipboard_wipe_deadline,
                self.keys_clear_deadline == old(self).keys_clear_deadline,
        {
            self.keys[i].revealed = shown;
        }
    }

    /// Performs a user action at `now`. A copy is not finished here: the
    /// request it returns names the text to write to the system clipboard,
    /// and `finish_copy` records the outcome.
    pub fn apply(&mut self, action: Action, now: u128) -> (r: Option<CopyRequest>)
        requires
            action is Generate && old(self).options().auto_clear_enabled ==> deadline_fits(
                now,
                old(self).options().auto_clear_secs,
            ),
        ensures
            match action {
                Action::Generate => r is None && final(self).generated_from(*old(self), now),
                Action::ClearAll => r is None && final(self).cleared_from(*old(self)),
                Action::Copy(i) => {
                    &&& final(self).same_state(*old(self))
                    &&& r is Some <==> i < old(self).key_total()
                    &&& r matches Some(q) ==> q.spec_index() == i && q.spec_text() == hex_of(
                        old(self).key_material(i as int),
                        old(self).options().uppercase,
                    )
                },
                Action::ToggleReveal(i) => r is None && final(self).toggled_from(*old(self), i as int),
                Action::RevealAll(v) => r is None && final(self).revealed_all_from(*old(self), v),
            },
    {
        match action {
            Action::Generate => {
                self.generate(now);
                None
            },
            Action::ClearAll => {
                self.clear_all();
                None
            },
            Action::Copy(i) => self.copy_request(i),
            Action::ToggleReveal(i) => {
                self.toggle_reveal(i);
                None
            },
            Action::RevealAll(v) => {
                self.reveal_all(v);
                None
            },
        }
    }

    /// `self` is `before` after the timers ran at `now`, where `current` is
    /// what the system clipboard held (`None` when it was not or could not
    /// be read), `wiped` the outcome of overwriting and clearing it, and
    /// `out` what the timers report.
    pub open spec fn timers_ran(
        self,
        before: Self,
        now: u128,
        current: Option<Seq<char>>,
        wiped: Result<(), String>,
        out: TimerOutcome,
    ) -> bool {
        let wipe_due = due(before.wipe_deadline(), now);
        let clear_due = due(before.clear_deadline(), now);
        let ours = wipe_decision(
            before.clipboard_state().available(),
            before.clipboard_state().pending(),
            current,
        );
        &&& out.clipboard_wiped == (wipe_due && ours && wiped is Ok)
        &&& self.options() == before.options()
        &&& self.same_theme(before)
        &&& self.clipboard_state().open_error() == before.clipboard_state().open_error()
        &&& self.clipboard_state().available() == before.clipboard_state().available()
        &&& wipe_due ==> self.wipe_deadline() is None && self.clipboard_state().pending() is None
        &&& !wipe_due ==> self.wipe_deadline() == before.wipe_deadline()
            && self.clipboard_state().pending() == before.clipboard_state().pending()
        &&& clear_due ==> {
            &&& self.key_total() == 0
            &&& self.clear_deadline() is None
            &&& self.status_line() == auto_cleared_message()
            &&& self.status_class() == StatusKind::Info
        }
        &&& !clear_due ==> self.same_keys(before) && self.clear_deadline() == before.clear_deadline()
        &&& !clear_due && wipe_due ==> {
            &&& self.status_line() == if out.clipboard_wiped {
                clipboard_wiped_message()
            } else {
                wipe_skipped_message()
            }
            &&& self.status_class() == StatusKind::Info
        }
        &&& !clear_due && !wipe_due ==> self.same_status(before)
        &&& out.repaint == (self.wipe_deadline() is Some || self.clear_deadline() is Some)
    }

    /// Whether running the timers at `now` needs to know what the system
    /// clipboard holds: a wipe is due and a value of ours is pending.
    pub fn clipboard_read_needed(&self, now: u128) -> (b: bool)
        ensures
            b == (due(self.wipe_deadline(), now) && self.clipboard_state().available()
                && self.clipboard_state().pending() is Some),
    {
        match self.clipboard_wipe_deadline {
            Some(deadline) => now >= deadline && self.clipboard.needs_check(),
            None => false,
        }
    }

    /// Whether the caller should overwrite and clear the system clipboard
    /// at `now`, given `current`, what it holds: a wipe is due and the
    /// clipboard still holds the value we set.
    pub fn wipe_wanted(&self, now: u128, current: &Option<String>) -> (b: bool)
        ensures
            b == (due(self.wipe_deadline(), now) && wipe_decision(
                self.clipboard_state().available(),
                self.clipboard_state().pending(),
                opt_text(*current),
            )),
    {
        match self.clipboard_wipe_deadline {
            Some(deadline) => now >= deadline && self.clipboard.still_ours(current),
            None => false,
        }
    }

    /// Fires the timers that are due at `now`: the clipboard wipe and the
    /// automatic clearing of the keys. `current` is what the clipboard holds
    /// (read when `clipboard_read_needed` said so), and `wiped` the outcome
    /// of overwriting and clearing it, attempted when `wipe_wanted` said so
    /// and ignored otherwise.
    pub fn process_timers(&mut self, now: u128, current: Option<String>, wiped: Result<(), String>) -> (out: TimerOutcome)
        ensures
            final(self).timers_ran(*old(self), now, opt_text(current), wiped, out),
    {
        proof {
            use_type_invariant(&*self);
        }
        let mut performed = false;
        if let Some(deadline) = self.clipboard_wipe_deadline {
            if now >= deadline {
                let mut clipboard = ClipboardManager::new(None);
                std::mem::swap(&mut clipboard, &mut self.clipboard);
                performed = clipboard.wipe_if_ours(current, wiped);
                self.clipboard = clipboard;
                self.clipboard_wipe_deadline = None;
                let msg = if performed {
                    clipboard_wiped_text()
                } else {
                    wipe_skipped_text()
                };
                self.set_status(msg, StatusKind::Info);
            }
        }
        if let Some(deadline) = self.keys_clear_deadline {
            if now >= deadline {
                self.keys = Vec::new();
                self.keys_clear_deadline = None;
                self.set_status(auto_cleared_text(), StatusKind::Info);
            }
        }
        let repaint = self.clipboard_wipe_deadline.is_some() || self.keys_clear_deadline.is_some();
        TimerOutcome { clipboard_wiped: performed, repaint }
    }

    /// Whether leaving the program needs to know what the system clipboard
    /// holds: a value of ours is pending on a usable clipboard.
    pub fn exit_read_needed(&self) -> (b: bool)
        ensures
            b == (self.clipboard_state().available() && self.clipboard_state().pending() is Some),
    {
        self.clipboard.needs_check()
    }

    /// Whether, on leaving the program, the caller should overwrite and
    /// clear the system clipboard, given `current`, what it holds.
    pub fn exit_wipe_wanted(&self, current: &Option<String>) -> (b: bool)
        ensures
            b == wipe_decision(
                self.clipboard_state().available(),
                self.clipboard_state().pending(),
                opt_text(*current),
            ),
    {
        self.clipboard.still_ours(current)
    }

    /// On leaving the program: wipes every key from memory and ends the
    /// clipboard check, given `current`, what the clipboard holds, and
    /// `wiped`, the outcome of the overwrite and clear attempted when
    /// `exit_wipe_wanted` said so. Returns true if a wipe was performed.
    pub fn on_exit(&mut self, current: Option<String>, wiped: Result<(), String>) -> (performed: bool)
        ensures
            performed == (wipe_decision(
                old(self).clipboard_state().available(),
                old(self).clipboard_state().pending(),
                opt_text(current),
            ) && wiped is Ok),
            final(self).clipboard_state().pending() is None,
            final(self).key_total() == 0,
            final(self).options() == old(self).options(),
            final(self).same_theme(*old(self)),
            final(self).same_status(*old(self)),
            final(self).clipboard_state().open_error() == old(self).clipboard_state().open_error(),
            final(self).clipboard_state().available() == old(self).clipboard_state().available(),
            final(self).wipe_deadline() == old(self).wipe_deadline(),
            final(self).clear_deadline() == old(self).clear_deadline(),
    {
        proof {
            use_type_invariant(&*self);
        }
        let mut clipboard = ClipboardManager::new(None);
        std::mem::swap(&mut clipboard, &mut self.clipboard);
        let performed = clipboard.wipe_if_ours(current, wiped);
        self.clipboard = clipboard;
        self.keys = Vec::new();
        performed
    }

    pub fn config(&self) -> (c: Config)
        ensures
            c == self.options(),
    {
        self.config
    }

    /// Replaces the options; nothing else changes until the next action.
    pub fn set_config(&mut self, config: Config)
        ensures
            final(self).options() == config,
            final(self).same_keys(*old(self)),
            final(self).same_theme(*old(self)),
            final(self).same_clipboard(*old(self)),
            final(self).same_status(*old(self)),
            final(self).wipe_deadline() == old(self).wipe_deadline(),
            final(self).clear_deadline() == old(self).clear_deadline(),
    {
        proof {
            use_type_invariant(&*self);
        }
        self.config = config;
    }

    pub fn key_count(&self) -> (n: usize)
        ensures
            n == self.key_total(),
            n <= MAX_KEYS,
    {
        proof {
            use_type_invariant(self);
        }
        self.keys.len()
    }

    /// Whether the key at `index` is shown in clear.
    pub fn is_revealed(&self, index: usize) -> (b: bool)
        requires
            index < self.key_total(),
        ensures
            b == self.key_shown(index as int),
    {
        self.keys[index].revealed
    }

    /// The hex text of the key at `index`, in the configured case.
    pub fn key_hex(&self, index: usize) -> (s: SecretText)
        requires
            index < self.key_total(),
        ensures
            s@ == hex_of(self.key_material(index as int), self.options().uppercase),
    {
        self.keys[index].hex(self.config.uppercase)
    }

    /// What the row of the key at `index` shows: its hex in the configured
    /// case when the key is revealed, otherwise a mask as long as a key of
    /// the configured strength (at most 64 dots).
    pub fn key_display(&self, index: usize) -> (s: SecretText)
        requires
            index < self.key_total(),
        ensures
            s@ == if self.key_shown(index as int) {
                hex_of(self.key_material(index as int), self.options().uppercase)
            } else {
                mask_of(key_hex_len(self.options().key_size))
            },
    {
        if self.keys[index].revealed {
            self.keys[index].hex(self.config.uppercase)
        } else {
            SecretText::new(mask_string(self.config.key_size.hex_len()))
        }
    }

    /// Whether every key is locked into RAM.
    pub fn keys_locked(&self) -> (b: bool)
        ensures
            b == self.all_locked(),
    {
        let b = entries_locked(&self.keys);
        proof {
            self.lemma_all_locked(b);
        }
        b
    }

    pub fn status(&self) -> (s: &str)
        ensures
            s@ == self.status_line(),
    {
        self.status.as_str()
    }

    pub fn status_kind(&self) -> (k: StatusKind)
        ensures
            k == self.status_class(),
    {
        self.status_kind
    }

    pub fn dark_mode(&self) -> (b: bool)
        ensures
            b == self.is_dark(),
    {
        self.dark_mode
    }

    /// The palette of the current theme.
    pub fn palette(&self) -> (p: Palette)
        ensures
            p == self.current_palette(),
    {
        for_system(self.dark_mode)
    }

    pub fn clipboard(&self) -> (c: &ClipboardManager)
        ensures
            *c == self.clipboard_state(),
    {
        &self.clipboard
    }

    pub fn clipboard_wipe_deadline(&self) -> (d: Option<u128>)
        ensures
            d == self.wipe_deadline(),
    {
        self.clipboard_wipe_deadline
    }

    pub fn keys_clear_deadline(&self) -> (d: Option<u128>)
        ensures
            d == self.clear_deadline(),
    {
        self.keys_clear_deadline
    }
}

} // verus!

//! Properties of the key generator that span several operations.

use vstd::prelude::*;
use crate::app::{deadline_after, deadline_fits, due, seconds_left, KeygenApp, TimerOutcome};
use crate::theme::system_palette;
use crate::config::{clamped_key_count, key_hex_len, Config, MAX_KEYS, MIN_KEYS};
use crate::crypto::{hex_of, lemma_hex_shape};

verus! {

/// Every key of a successful generation is shown with exactly the number of
/// hex characters its strength names (64 for AES-256, 32 for AES-128), and a
/// generation produces between `MIN_KEYS` and `MAX_KEYS` keys.
pub proof fn lemma_generated_keys_shape(app: KeygenApp, c: Config, now: u128, i: int, uppercase: bool)
    requires
        app.generation_succeeded(c, now),
        0 <= i < app.key_total(),
    ensures
        hex_of(app.key_material(i), uppercase).len() == key_hex_len(c.key_size),
        MIN_KEYS <= app.key_total() <= MAX_KEYS,
        app.key_total() == clamped_key_count(c.num_keys as int),
{
    lemma_hex_shape(app.key_material(i), uppercase);
}

/// A copied key that is still on the clipboard when the wipe timer fires is
/// wiped, provided the overwrite and clear succeed; if the clipboard holds
/// anything else, it is left alone.
pub proof fn lemma_copy_then_wipe(
    before: KeygenApp,
    copied: KeygenApp,
    after: KeygenApp,
    index: nat,
    text: Seq<char>,
    written: Result<(), String>,
    now: u128,
    later: u128,
    current: Option<Seq<char>>,
    wiped: Result<(), String>,
    out: TimerOutcome,
)
    requires
        copied.copied_from(before, index, text, written, now),
        written is Ok,
        before.clipboard_state().available(),
        before.options().clipboard_wipe_enabled,
        deadline_fits(now, before.options().clipboard_wipe_secs),
        later >= deadline_after(now, before.options().clipboard_wipe_secs),
        after.timers_ran(copied, later, current, wiped, out),
    ensures
        out.clipboard_wiped <==> current == Some(text) && wiped is Ok,
        after.clipboard_state().pending() is None,
        after.wipe_deadline() is None,
{
}

/// The clipboard is reported wiped only when it still held exactly the
/// value the program placed there and the overwrite and clear succeeded:
/// something the user copied since is never clobbered, and a failed wipe is
/// never reported as done.
pub proof fn lemma_wipe_never_clobbers(
    before: KeygenApp,
    after: KeygenApp,
    now: u128,
    current: Option<Seq<char>>,
    wiped: Result<(), String>,
    out: TimerOutcome,
)
    requires
        after.timers_ran(before, now, current, wiped, out),
        out.clipboard_wiped,
    ensures
        before.clipboard_state().pending() is Some,
        current == before.clipboard_state().pending(),
        wiped is Ok,
{
}

/// A copied value is checked for wiping at most once: once the wipe timer
/// has fired, later timers never wipe until something new is copied.
pub proof fn lemma_wipe_at_most_once(
    a0: KeygenApp,
    a1: KeygenApp,
    a2: KeygenApp,
    t1: u128,
    t2: u128,
    c1: Option<Seq<char>>,
    c2: Option<Seq<char>>,
    w1: Result<(), String>,
    w2: Result<(), String>,
    o1: TimerOutcome,
    o2: TimerOutcome,
)
    requires
        a1.timers_ran(a0, t1, c1, w1, o1),
        due(a0.wipe_deadline(), t1),
        a2.timers_ran(a1, t2, c2, w2, o2),
    ensures
        !o2.clipboard_wiped,
{
}

/// With automatic clearing on, the keys of a generation are gone from memory
/// once the timers run at or after the clearing deadline.
pub proof fn lemma_generate_then_auto_clear(
    before: KeygenApp,
    generated: KeygenApp,
    after: KeygenApp,
    now: u128,
    later: u128,
    current: Option<Seq<char>>,
    wiped: Result<(), String>,
    out: TimerOutcome,
)
    requires
        generated.generated_from(before, now),
        before.options().auto_clear_enabled,
        deadline_fits(now, before.options().auto_clear_secs),
        later >= deadline_after(now, before.options().auto_clear_secs),
        after.timers_ran(generated, later, current, wiped, out),
    ensures
        after.key_total() == 0,
        after.clear_deadline() is None,
{
}

/// Across a frame (the theme follows the system, then any actions, copies
/// and timers run, each keeping the theme), a forced theme stays forced and
/// wins over the system's, and the palette in use always matches the theme.
pub proof fn lemma_frame_theme(
    start: KeygenApp,
    synced: KeygenApp,
    end: KeygenApp,
    system_dark: Option<bool>,
)
    requires
        synced.theme_synced_from(start, system_dark),
        end.same_theme(synced),
    ensures
        end.forced_theme() == start.forced_theme(),
        end.current_palette() == system_palette(end.is_dark()),
        end.current_palette().dark == end.is_dark(),
        start.forced_theme() matches Some(b) ==> end.is_dark() == b,
        start.forced_theme() is None ==> (system_dark matches Some(b) ==> end.is_dark() == b),
{
}

/// Operations that keep the theme compose: the theme after two of them is
/// the theme before the first.
pub proof fn lemma_same_theme_chain(a: KeygenApp, b: KeygenApp, c: KeygenApp)
    requires
        b.same_theme(a),
        c.same_theme(b),
    ensures
        c.same_theme(a),
{
}

/// Showing or hiding a key twice in a row restores the state.
pub proof fn lemma_toggle_twice(a0: KeygenApp, a1: KeygenApp, a2: KeygenApp, index: int)
    requires
        a1.toggled_from(a0, index),
        a2.toggled_from(a1, index),
    ensures
        a2.same_state(a0),
{
}

/// Clamping leaves a count inside `MIN_KEYS..=MAX_KEYS` unchanged and sends
/// one outside the range to the nearest end of it.
pub proof fn lemma_clamp_keeps_counts_in_range(requested: int)
    ensures
        MIN_KEYS <= requested <= MAX_KEYS ==> clamped_key_count(requested) == requested,
        requested < MIN_KEYS ==> clamped_key_count(requested) == MIN_KEYS,
        requested > MAX_KEYS ==> clamped_key_count(requested) == MAX_KEYS,
        MIN_KEYS <= clamped_key_count(requested) <= MAX_KEYS,
{
}

/// A successful generation asked for a count between 1 and 100 holds exactly
/// that many keys.
pub proof fn lemma_generation_gives_requested_count(app: KeygenApp, c: Config, now: u128)
    requires
        app.generation_succeeded(c, now),
        MIN_KEYS <= c.num_keys <= MAX_KEYS,
    ensures
        app.key_total() == c.num_keys,
{
}

/// A copied key is wiped no earlier and no later than the configured delay:
/// the wipe timer is not due at any instant before `secs` seconds after the
/// copy, and is due from then on.
pub proof fn lemma_copy_wipe_deadline_is_the_delay(
    before: KeygenApp,
    copied: KeygenApp,
    index: nat,
    text: Seq<char>,
    written: Result<(), String>,
    now: u128,
    t: u128,
)
    requires
        copied.copied_from(before, index, text, written, now),
        written is Ok,
        before.clipboard_state().available(),
        before.options().clipboard_wipe_enabled,
        now + before.options().clipboard_wipe_secs * 1000 <= u128::MAX,
    ensures
        copied.wipe_deadline() is Some,
        copied.wipe_deadline()->0 == now + before.options().clipboard_wipe_secs * 1000,
        now <= t < now + before.options().clipboard_wipe_secs * 1000 ==> !due(copied.wipe_deadline(), t),
        t >= now + before.options().clipboard_wipe_secs * 1000 ==> due(copied.wipe_deadline(), t),
{
}

/// The keys of a generation are cleared no earlier and no later than the
/// configured delay.
pub proof fn lemma_generation_clear_deadline_is_the_delay(app: KeygenApp, c: Config, now: u128, t: u128)
    requires
        app.generation_succeeded(c, now),
        c.auto_clear_enabled,
        now + c.auto_clear_secs * 1000 <= u128::MAX,
    ensures
        app.clear_deadline() is Some,
        app.clear_deadline()->0 == now + c.auto_clear_secs * 1000,
        now <= t < now + c.auto_clear_secs * 1000 ==> !due(app.clear_deadline(), t),
        t >= now + c.auto_clear_secs * 1000 ==> due(app.clear_deadline(), t),
{
}

/// A timer fires only once its deadline is reached: run before the clearing
/// deadline, the timers keep every key and the deadline; run before the
/// wipe deadline, they wipe nothing and keep the pending value and the
/// deadline.
pub proof fn lemma_timers_wait_for_deadlines(
    before: KeygenApp,
    after: KeygenApp,
    now: u128,
    current: Option<Seq<char>>,
    wiped: Result<(), String>,
    out: TimerOutcome,
)
    requires
        after.timers_ran(before, now, current, wiped, out),
    ensures
        before.clear_deadline() matches Some(d) && now < d ==> after.same_keys(before)
            && after.clear_deadline() == before.clear_deadline(),
        before.wipe_deadline() matches Some(d) && now < d ==> !out.clipboard_wiped
            && after.wipe_deadline() == before.wipe_deadline()
            && after.clipboard_state().pending() == before.clipboard_state().pending(),
        before.clear_deadline() matches Some(d) && now >= d ==> after.key_total() == 0
            && after.clear_deadline() is None,
        before.wipe_deadline() matches Some(d) && now >= d ==> after.wipe_deadline() is None
            && after.clipboard_state().pending() is None,
        before.clear_deadline() is None ==> after.same_keys(before) && after.clear_deadline() is None,
        before.wipe_deadline() is None ==> !out.clipboard_wiped && after.wipe_deadline() is None,
{
}

/// The seconds shown before a deadline are the whole seconds left: never
/// more than the time left, and less than one second short of it.
pub proof fn lemma_seconds_left_are_whole_seconds(deadline: Option<u128>, now: u128)
    ensures
        deadline is None <==> seconds_left(deadline, now) is None,
        deadline matches Some(d) ==> (d >= now ==> seconds_left(deadline, now)->0 * 1000 <= d - now
            < (seconds_left(deadline, now)->0 + 1) * 1000),
        deadline matches Some(d) ==> (d < now ==> seconds_left(deadline, now)->0 == 0),
{
}

} // verus!

//! User options, held in memory only and never persisted.

use vstd::prelude::*;

verus! {

/// AES key strength, expressed by raw key size.
#[derive(Clone, Copy, PartialEq, Eq, Structural, Debug)]
pub enum KeySize {
    Aes128,
    Aes256,
}

/// Number of raw key bytes of a key strength.
pub open spec fn key_bytes(size: KeySize) -> nat {
    match size {
        KeySize::Aes128 => 16,
        KeySize::Aes256 => 32,
    }
}

/// Number of hex characters needed to show a key of this strength.
pub open spec fn key_hex_len(size: KeySize) -> nat {
    2 * key_bytes(size)
}

/// Text shown beside the radio button of a key strength.
pub open spec fn key_label(size: KeySize) -> Seq<char> {
    match size {
        KeySize::Aes128 => "AES-128  (32 hex chars)"@,
        KeySize::Aes256 => "AES-256  (64 hex chars)"@,
    }
}

impl KeySize {
    pub fn bytes(self) -> (n: usize)
        ensures
            n == key_bytes(self),
    {
        match self {
            KeySize::Aes128 => 16,
            KeySize::Aes256 => 32,
        }
    }

    pub fn hex_len(self) -> (n: usize)
        ensures
            n == key_hex_len(self),
    {
        self.bytes() * 2
    }

    pub fn label(self) -> (s: &'static str)
        ensures
            s@ == key_label(self),
    {
        match self {
            KeySize::Aes128 => "AES-128  (32 hex chars)",
            KeySize::Aes256 => "AES-256  (64 hex chars)",
        }
    }
}

/// Largest number of keys produced by one generation.
pub const MAX_KEYS: usize = 100;

/// Smallest number of keys produced by one generation.
pub const MIN_KEYS: usize = 1;

/// The number of keys a generation produces when `requested` were asked for.
pub open spec fn clamped_key_count(requested: int) -> int {
    if requested < MIN_KEYS {
        MIN_KEYS as int
    } else if requested > MAX_KEYS {
        MAX_KEYS as int
    } else {
        requested
    }
}

#[derive(Clone, Copy, PartialEq, Eq, Structural, Debug)]
pub struct Config {
    pub num_keys: usize,
    pub key_size: KeySize,
    /// DMR programming software varies; uppercase hex is the common default.
    pub uppercase: bool,
    pub start_hidden: bool,
    pub clipboard_wipe_enabled: bool,
    pub clipboard_wipe_secs: u64,
    pub auto_clear_enabled: bool,
    pub auto_clear_secs: u64,
}

/// The options in effect when the program starts.
pub open spec fn default_config() -> Config {
    Config {
        num_keys: 1,
        key_size: KeySize::Aes256,
        uppercase: true,
        start_hidden: false,
        clipboard_wipe_enabled: true,
        clipboard_wipe_secs: 20,
        auto_clear_enabled: true,
        auto_clear_secs: 120,
    }
}

impl Config {
    /// How many keys a generation with these options produces: the requested
    /// number, clamped to `MIN_KEYS..=MAX_KEYS`.
    pub fn key_count(&self) -> (n: usize)
        ensures
            n == clamped_key_count(self.num_keys as int),
            MIN_KEYS <= n <= MAX_KEYS,
            MIN_KEYS <= self.num_keys <= MAX_KEYS ==> n == self.num_keys,
            self.num_keys < MIN_KEYS ==> n == MIN_KEYS,
            self.num_keys > MAX_KEYS ==> n == MAX_KEYS,
    {
        if self.num_keys < MIN_KEYS {
            MIN_KEYS
        } else if self.num_keys > MAX_KEYS {
            MAX_KEYS
        } else {
            self.num_keys
        }
    }
}

impl Default for Config {
    fn default() -> (c: Self)
        ensures
            c == default_config(),
    {
        Config {
            num_keys: 1,
            key_size: KeySize::Aes256,
            uppercase: true,
            start_hidden: false,
            clipboard_wipe_enabled: true,
            clipboard_wipe_secs: 20,
            auto_clear_enabled: true,
            auto_clear_secs: 120,
        }
    }
}

} // verus!

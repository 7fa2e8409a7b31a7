//! Key generation and hex encoding.
//!
//! Randomness comes straight from the operating system CSPRNG via the
//! `getrandom` crate (BCryptGenRandom on Windows, getrandom(2)/getentropy on
//! Linux and macOS), which is suitable for generating cryptographic keys.

use vstd::prelude::*;
use crate::config::{key_bytes, key_hex_len, KeySize};
use crate::security::{SecretBytes, SecretText};

verus! {

#[verifier::external_type_specification]
#[verifier::external_body]
pub struct ExRngError(getrandom::Error);

/// Calls `getrandom::getrandom` on the whole buffer. The bytes written, and
/// whether the operating system source succeeds on a non-empty buffer, are
/// not claimed; the call writes into the given slice, so the length never
/// changes, and the crate documents immediate success for an empty buffer.
#[verifier::external_body]
fn fill_random(buf: &mut Vec<u8>) -> (r: Result<(), getrandom::Error>)
    ensures
        final(buf)@.len() == old(buf)@.len(),
        old(buf)@.len() == 0 ==> r is Ok,
{
    getrandom::getrandom(buf.as_mut_slice())
}

/// Renders a `getrandom::Error` with its `Display` impl. The text comes from
/// the operating system's description of the error code, so nothing is
/// claimed of it.
#[verifier::external_body]
fn rng_error_text(e: &getrandom::Error) -> (text: String) {
    e.to_string()
}

/// Calls `String::with_capacity`: an empty string whose buffer already
/// holds `capacity` bytes, so that filling it up to that size never moves
/// its contents.
#[verifier::external_body]
fn string_with_capacity(capacity: usize) -> (s: String)
    ensures
        s@ == Seq::<char>::empty(),
{
    String::with_capacity(capacity)
}

/// Calls `String::push`: the character is appended.
#[verifier::external_body]
pub(crate) fn push_char(s: &mut String, c: char)
    ensures
        final(s)@ == old(s)@.push(c),
{
    s.push(c);
}

/// The message of a failed key generation whose entropy source reported
/// `detail`.
pub open spec fn rng_failure_message(detail: Seq<char>) -> Seq<char> {
    "OS RNG failure: "@ + detail
}

/// Whether `msg` reports a failure of the entropy source.
pub open spec fn is_rng_failure(msg: Seq<char>) -> bool {
    exists|detail: Seq<char>| msg == rng_failure_message(detail)
}

/// Generate one secret of `byte_len` cryptographically random bytes.
///
/// Returns an error only if the OS entropy source itself fails, in which case
/// no key material is produced (fail closed rather than emit weak keys).
pub fn generate_key(byte_len: usize) -> (r: Result<SecretBytes, String>)
    ensures
        r matches Ok(k) ==> k@.len() == byte_len,
        r matches Err(m) ==> is_rng_failure(m@),
        byte_len == 0 ==> r is Ok,
{
    let mut buf: Vec<u8> = vec![0u8; byte_len];
    let filled = fill_random(&mut buf);
    let outcome = match filled {
        Ok(()) => Ok(()),
        Err(e) => Err(rng_error_text(&e)),
    };
    let r = key_from_entropy(buf, outcome);
    assert(r is Err ==> r->Err_0@ == rng_failure_message(outcome->Err_0@));
    r
}

/// Turns the outcome of filling `buf` from the entropy source into a key:
/// the filled buffer on success, the failure message otherwise.
pub fn key_from_entropy(buf: Vec<u8>, outcome: Result<(), String>) -> (r: Result<SecretBytes, String>)
    ensures
        r is Ok <==> outcome is Ok,
        r matches Ok(k) ==> k@ == buf@,
        r matches Err(m) ==> m@ == rng_failure_message(outcome->Err_0@),
{
    match outcome {
        Ok(()) => Ok(SecretBytes::new(buf)),
        Err(detail) => {
            let mut msg = String::from_str("OS RNG failure: ");
            msg.append(detail.as_str());
            Err(msg)
        },
    }
}

/// The hex digit of a value below 16.
pub open spec fn hex_digit(v: int, uppercase: bool) -> char {
    if v < 10 {
        (v + 48) as char
    } else if uppercase {
        (v + 55) as char
    } else {
        (v + 87) as char
    }
}

/// The hex rendering of `bytes`: two digits per byte, high nibble first.
pub open spec fn hex_of(bytes: Seq<u8>, uppercase: bool) -> Seq<char> {
    Seq::new(
        2 * bytes.len(),
        |i: int|
            if i % 2 == 0 {
                hex_digit(bytes[i / 2] as int / 16, uppercase)
            } else {
                hex_digit(bytes[i / 2] as int % 16, uppercase)
            },
    )
}

fn hex_char(v: u8, uppercase: bool) -> (c: char)
    requires
        v < 16,
    ensures
        c == hex_digit(v as int, uppercase),
{
    if v < 10 {
        (v + 48) as char
    } else if uppercase {
        (v + 55) as char
    } else {
        (v + 87) as char
    }
}

/// Encode bytes as a hex string, in upper or lower case. The buffer is sized
/// for the whole rendering before it is filled, so it is never moved, and
/// the returned text is wiped when dropped: the secret hex does not linger
/// in freed heap memory.
pub fn to_hex(bytes: &[u8], uppercase: bool) -> (s: SecretText)
    ensures
        s@ == hex_of(bytes@, uppercase),
{
    let n = bytes.len();
    // Two ASCII digits per byte: reserving them up front means the buffer
    // is never reallocated, so no copy of the hex is left behind in freed
    // memory. (Sizes beyond `usize` cannot be reserved; the string then grows.)
    let capacity = if n <= usize::MAX / 2 {
        n * 2
    } else {
        n
    };
    let mut out = string_with_capacity(capacity);
    for i in 0..n
        invariant
            n == bytes@.len(),
            out@ == hex_of(bytes@.take(i as int), uppercase),
    {
        let b = bytes[i];
        let hi = b >> 4;
        let lo = b & 0x0f;
        assert(hi == b / 16 && lo == b % 16 && hi < 16) by (bit_vector)
            requires
                hi == b >> 4,
                lo == b & 0x0f,
        ;
        push_char(&mut out, hex_char(hi, uppercase));
        push_char(&mut out, hex_char(lo, uppercase));
        assert(out@ =~= hex_of(bytes@.take(i + 1), uppercase));
    }
    assert(bytes@.take(n as int) =~= bytes@);
    SecretText::new(out)
}

/// The value of a hex digit of either case; -1 for any other character.
pub open spec fn hex_value(c: char) -> int {
    let n = c as int;
    if 48 <= n <= 57 {
        n - 48
    } else if 65 <= n <= 70 {
        n - 55
    } else if 97 <= n <= 102 {
        n - 87
    } else {
        -1
    }
}

/// Whether `c` is a hex digit of the given case (`0-9` and `A-F` or `a-f`).
pub open spec fn is_hex_digit(c: char, uppercase: bool) -> bool {
    let n = c as int;
    ||| 48 <= n <= 57
    ||| uppercase && 65 <= n <= 70
    ||| !uppercase && 97 <= n <= 102
}

/// Reads a hex rendering back into bytes, two digits per byte.
pub open spec fn hex_decode(s: Seq<char>) -> Seq<u8> {
    Seq::new(s.len() / 2, |i: int| (16 * hex_value(s[2 * i]) + hex_value(s[2 * i + 1])) as u8)
}

/// Each value below 16 has a digit of the requested case that reads back as
/// the same value.
pub proof fn lemma_hex_digit(v: int, uppercase: bool)
    requires
        0 <= v < 16,
    ensures
        hex_value(hex_digit(v, uppercase)) == v,
        is_hex_digit(hex_digit(v, uppercase), uppercase),
{
}

/// A hex rendering holds two characters per byte, each a digit of the
/// requested case.
pub proof fn lemma_hex_shape(bytes: Seq<u8>, uppercase: bool)
    ensures
        hex_of(bytes, uppercase).len() == 2 * bytes.len(),
        forall|i: int|
            0 <= i < 2 * bytes.len() ==> is_hex_digit(#[trigger] hex_of(bytes, uppercase)[i], uppercase),
{
    assert forall|i: int| 0 <= i < 2 * bytes.len() implies is_hex_digit(
        #[trigger] hex_of(bytes, uppercase)[i],
        uppercase,
    ) by {
        lemma_hex_digit(bytes[i / 2] as int / 16, uppercase);
        lemma_hex_digit(bytes[i / 2] as int % 16, uppercase);
    }
}

/// Reading a hex rendering back gives the original bytes, in either case.
pub proof fn lemma_hex_round_trip(bytes: Seq<u8>, uppercase: bool)
    ensures
        hex_decode(hex_of(bytes, uppercase)) == bytes,
{
    let h = hex_of(bytes, uppercase);
    assert forall|i: int| 0 <= i < bytes.len() implies #[trigger] hex_decode(h)[i] == bytes[i] by {
        let b = bytes[i] as int;
        assert(h[2 * i] == hex_digit(b / 16, uppercase)) by {
            assert((2 * i) % 2 == 0 && (2 * i) / 2 == i);
        }
        assert(h[2 * i + 1] == hex_digit(b % 16, uppercase)) by {
            assert((2 * i + 1) % 2 == 1 && (2 * i + 1) / 2 == i);
        }
        lemma_hex_digit(b / 16, uppercase);
        lemma_hex_digit(b % 16, uppercase);
        assert(16 * (b / 16) + b % 16 == b);
    }
    assert(hex_decode(h) =~= bytes);
}

/// Different keys never share a hex rendering of the same case.
pub proof fn lemma_hex_injective(a: Seq<u8>, b: Seq<u8>, uppercase: bool)
    requires
        hex_of(a, uppercase) == hex_of(b, uppercase),
    ensures
        a == b,
{
    lemma_hex_round_trip(a, uppercase);
    lemma_hex_round_trip(b, uppercase);
}

/// The upper- and lower-case renderings of a key stand for the same bytes.
pub proof fn lemma_hex_case_agnostic(bytes: Seq<u8>)
    ensures
        hex_decode(hex_of(bytes, true)) == hex_decode(hex_of(bytes, false)),
{
    lemma_hex_round_trip(bytes, true);
    lemma_hex_round_trip(bytes, false);
}

/// A key of a given strength is shown with exactly the number of hex
/// characters that strength names: 64 for AES-256, 32 for AES-128.
pub proof fn lemma_key_hex_length(size: KeySize, bytes: Seq<u8>, uppercase: bool)
    requires
        bytes.len() == key_bytes(size),
    ensures
        hex_of(bytes, uppercase).len() == key_hex_len(size),
        size == KeySize::Aes256 ==> hex_of(bytes, uppercase).len() == 64,
        size == KeySize::Aes128 ==> hex_of(bytes, uppercase).len() == 32,
{
}

} // verus!

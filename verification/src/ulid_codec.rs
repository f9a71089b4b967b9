//! ULIDs: their canonical 26-character Crockford base32 text, reading such
//! text back, and drawing fresh ones.

use vstd::prelude::*;
use vstd::arithmetic::div_mod::{
    lemma_basic_div, lemma_div_denominator, lemma_fundamental_div_mod, lemma_small_mod,
};
use vstd::arithmetic::power2::{lemma2_to64, lemma_pow2_adds, lemma_pow2_pos, pow2};
use vstd::utf8::{encode_utf8, is_ascii_chars, is_ascii_chars_encode_utf8};

verus! {

/// The number of characters in the canonical text of a ULID.
pub open spec fn ulid_text_len() -> nat {
    26
}

/// Crockford's base32 alphabet, in digit order.
pub open spec fn crockford_alphabet() -> Seq<char> {
    seq![
        '0', '1', '2', '3', '4', '5', '6', '7', '8', '9',
        'A', 'B', 'C', 'D', 'E', 'F', 'G', 'H', 'J', 'K',
        'M', 'N', 'P', 'Q', 'R', 'S', 'T', 'V', 'W', 'X', 'Y', 'Z',
    ]
}

/// The canonical text of a ULID: 26 base32 digits, most significant first,
/// the first digit holding the top 3 bits.
pub open spec fn ulid_text(value: u128) -> Seq<char> {
    Seq::new(
        26,
        |p: int| crockford_alphabet()[((value as nat / pow2((5 * (25 - p)) as nat)) % 32) as int],
    )
}

/// `c` with ASCII lower-case letters taken to upper case.
pub open spec fn ascii_upper(c: char) -> int {
    if 'a' <= c <= 'z' { c as int - 32 } else { c as int }
}

/// The value of a base32 digit, read case-insensitively; `None` for a
/// character outside the alphabet (which leaves out I, L, O and U).
pub open spec fn crockford_value(c: char) -> Option<nat> {
    let u = ascii_upper(c);
    if 48 <= u <= 57 {
        Some((u - 48) as nat)
    } else if 65 <= u <= 72 {
        Some((u - 55) as nat)
    } else if 74 <= u <= 75 {
        Some((u - 56) as nat)
    } else if 77 <= u <= 78 {
        Some((u - 57) as nat)
    } else if 80 <= u <= 84 {
        Some((u - 58) as nat)
    } else if 86 <= u <= 90 {
        Some((u - 59) as nat)
    } else {
        None
    }
}

/// Whether every character of `s` is a base32 digit.
pub open spec fn all_crockford(s: Seq<char>) -> bool {
    forall|i: int| 0 <= i < s.len() ==> (#[trigger] crockford_value(s[i])) is Some
}

/// The number that the base32 digits of `s` spell, most significant first.
pub open spec fn crockford_number(s: Seq<char>) -> nat
    decreases s.len(),
{
    if s.len() == 0 {
        0
    } else {
        crockford_number(s.drop_last()) * 32 + crockford_value(s.last()).unwrap()
    }
}

/// 2 to the 128th.
pub open spec fn u128_modulus() -> nat {
    u128::MAX as nat + 1
}

/// Why a text is not a ULID.
#[derive(Clone, Copy, Debug, PartialEq, Eq, Structural)]
pub enum UlidDecodeError {
    /// The text is not 26 bytes long.
    InvalidLength,
    /// A character is not a base32 digit.
    InvalidChar,
}

/// What reading `text` as a ULID gives: a text whose UTF-8 encoding is
/// not 26 bytes long is refused
/// for its length; one that is, for its first character that is not a
/// base32 digit; otherwise the value is the number the digits spell, with
/// the bits above the 128th dropped.
pub open spec fn ulid_decoding(text: Seq<char>) -> Result<u128, UlidDecodeError> {
    if encode_utf8(text).len() != ulid_text_len() {
        Err(UlidDecodeError::InvalidLength)
    } else if !all_crockford(text) {
        Err(UlidDecodeError::InvalidChar)
    } else {
        Ok((crockford_number(text) % u128_modulus()) as u128)
    }
}

/// Each character of the alphabet is ASCII and reads back as its position.
proof fn lemma_alphabet_reads_back(d: int)
    requires
        0 <= d < 32,
    ensures
        crockford_value(crockford_alphabet()[d]) == Some(d as nat),
        '\0' <= crockford_alphabet()[d] <= '\u{7f}',
{
}

/// The number spelled by the first `k` digits of a ULID's text is the
/// value with its last `26 - k` digits shifted out.
proof fn lemma_text_prefix_number(v: u128, k: nat)
    requires
        k <= 26,
    ensures
        crockford_number(ulid_text(v).take(k as int)) == v as nat / pow2((5 * (26 - k)) as nat),
    decreases k,
{
    let t = ulid_text(v);
    if k == 0 {
        lemma2_to64();
        lemma_pow2_adds(64, 64);
        lemma_pow2_adds(128, 2);
        assert(pow2(130) == pow2(64) * pow2(64) * 4);
        assert(t.take(0) =~= Seq::<char>::empty());
        lemma_basic_div(v as int, pow2(130) as int);
    } else {
        let j = (k - 1) as nat;
        lemma_text_prefix_number(v, j);
        let low = pow2((5 * (26 - k)) as nat);
        let high = pow2((5 * (26 - j)) as nat);
        lemma2_to64();
        lemma_pow2_adds((5 * (26 - k)) as nat, 5);
        lemma_pow2_pos((5 * (26 - k)) as nat);
        assert(high == low * 32);
        assert(t.take(k as int).drop_last() =~= t.take(j as int));
        let x = v as nat / low;
        let d = (x % 32) as int;
        assert(t.take(k as int).last() == crockford_alphabet()[d]);
        lemma_alphabet_reads_back(d);
        lemma_div_denominator(v as int, low as int, 32);
        lemma_fundamental_div_mod(x as int, 32);
    }
}

/// Reading back the canonical text of a ULID gives the ULID: the text that
/// the dispatcher writes for an identifier is one it accepts as that
/// identifier.
pub proof fn lemma_ulid_text_round_trip(v: u128)
    ensures
        ulid_decoding(ulid_text(v)) == Ok::<u128, UlidDecodeError>(v),
{
    let t = ulid_text(v);
    assert forall|i: int| 0 <= i < t.len() implies '\0' <= #[trigger] t[i] <= '\u{7f}'
        && crockford_value(t[i]) is Some by {
        lemma_alphabet_reads_back(((v as nat / pow2((5 * (25 - i)) as nat)) % 32) as int);
    }
    assert(is_ascii_chars(t));
    is_ascii_chars_encode_utf8(t);
    assert(all_crockford(t));
    lemma_text_prefix_number(v, 26);
    assert(t.take(26) =~= t);
    lemma2_to64();
    assert(crockford_number(t) == v as nat);
    lemma_small_mod(v as nat, u128_modulus());
    assert(encode_utf8(t).len() == ulid_text_len());
}

/// Calls `ulid::Ulid::from_string`. The contract restates the crate's
/// decoder (`base32::decode`): a text whose UTF-8 length is not 26 bytes is
/// refused with `InvalidLength`; one of 26 bytes is accepted exactly when
/// every character is a base32 digit (case-insensitive; a byte outside
/// ASCII is never one), and otherwise refused with `InvalidChar`; the value
/// is the number the digits spell, the shifts dropping the bits above the
/// 128th.
#[verifier::external_body]
pub(crate) fn decode_ulid(text: &str) -> (res: Result<u128, UlidDecodeError>)
    ensures
        res == ulid_decoding(text@),
{
    match ulid::Ulid::from_string(text) {
        Ok(u) => Ok(u.0),
        Err(ulid::DecodeError::InvalidLength) => Err(UlidDecodeError::InvalidLength),
        Err(ulid::DecodeError::InvalidChar) => Err(UlidDecodeError::InvalidChar),
    }
}

/// Calls `ulid::Ulid::to_string` (the inherent method, `base32::encode`):
/// the text is the 26 base32 digits of the value.
#[verifier::external_body]
pub(crate) fn encode_ulid(value: u128) -> (res: String)
    ensures
        res@ == ulid_text(value),
{
    ulid::Ulid(value).to_string()
}

/// Calls `ulid::Ulid::new`, which reads the clock and a random source:
/// nothing is promised of the value.
#[verifier::external_body]
pub(crate) fn fresh_ulid() -> u128 {
    ulid::Ulid::new().0
}

/// Calls `jiff::Timestamp::now` and returns it as nanoseconds since the Unix
/// epoch (`Timestamp::as_nanosecond`): the value depends on the clock, and
/// nothing is promised of it.
#[verifier::external_body]
pub(crate) fn now_nanoseconds() -> i128 {
    jiff::Timestamp::now().as_nanosecond()
}

} // verus!

//! Decoding of controller GUIDs as the controller database writes them.
//!
//! A GUID is 32 hexadecimal characters: eight 16-bit words, each written with
//! its low byte first. In order the words are the bus, a checksum of the
//! device name, the vendor id, a zero word, the product id, a second zero
//! word, the version, and a driver tag.

use vstd::prelude::*;
use crate::text::chars_of;

verus! {

/// Number of characters that make up one 16-bit word.
pub const GUID_CHUNKS: usize = 4;

/// Number of characters in a GUID.
pub const GUID_LEN: usize = 32;

/// The identity that a GUID carries.
#[derive(Debug, Clone, Copy, PartialEq, Eq, Structural)]
pub struct Guid {
    pub vendor: u16,
    pub product: u16,
    pub version: u16,
    pub crc: u16,
}

/// Value of a hexadecimal digit, in either case.
pub open spec fn hex_value(c: char) -> Option<int> {
    if '0' <= c && c <= '9' {
        Some(c as int - '0' as int)
    } else if 'a' <= c && c <= 'f' {
        Some(c as int - 'a' as int + 10)
    } else if 'A' <= c && c <= 'F' {
        Some(c as int - 'A' as int + 10)
    } else {
        None
    }
}

/// Whether the four characters of word `k` are all hexadecimal digits.
pub open spec fn word_is_hex(s: Seq<char>, k: int) -> bool {
    &&& hex_value(s[4 * k]) is Some
    &&& hex_value(s[4 * k + 1]) is Some
    &&& hex_value(s[4 * k + 2]) is Some
    &&& hex_value(s[4 * k + 3]) is Some
}

/// Word `k` of the GUID text: the first two digits are its low byte, the
/// last two its high byte.
pub open spec fn word_value(s: Seq<char>, k: int) -> int {
    (hex_value(s[4 * k + 2])->0 * 16 + hex_value(s[4 * k + 3])->0) * 256
        + hex_value(s[4 * k])->0 * 16 + hex_value(s[4 * k + 1])->0
}

/// What a GUID text decodes to: nothing unless it is 32 hexadecimal digits
/// whose fourth and sixth words are zero.
pub open spec fn decode_guid(s: Seq<char>) -> Option<Guid> {
    if s.len() != 32 {
        None
    } else if !(forall|k: int| 0 <= k < 8 ==> word_is_hex(s, k)) {
        None
    } else if word_value(s, 3) != 0 || word_value(s, 5) != 0 {
        None
    } else {
        Some(
            Guid {
                vendor: word_value(s, 2) as u16,
                product: word_value(s, 4) as u16,
                version: word_value(s, 6) as u16,
                crc: word_value(s, 1) as u16,
            },
        )
    }
}

/// The lower-case hexadecimal digit for a value below 16.
pub open spec fn hex_char(n: int) -> char {
    if n < 10 {
        (('0' as int) + n) as char
    } else {
        (('a' as int) + n - 10) as char
    }
}

/// The four characters that write a 16-bit word, low byte first.
pub open spec fn encode_word(w: u16) -> Seq<char> {
    seq![
        hex_char((w as int % 256) / 16),
        hex_char(w as int % 16),
        hex_char(w as int / 4096),
        hex_char((w as int / 256) % 16),
    ]
}

/// The text that writes a sequence of 16-bit words, four characters each.
pub open spec fn encode_words(words: Seq<u16>) -> Seq<char> {
    Seq::new(4 * words.len(), |i: int| encode_word(words[i / 4])[i % 4])
}

/// The GUID text for eight words.
pub open spec fn encode_guid(
    bus: u16,
    crc: u16,
    vendor: u16,
    zero1: u16,
    product: u16,
    zero2: u16,
    version: u16,
    driver: u16,
) -> Seq<char> {
    encode_words(seq![bus, crc, vendor, zero1, product, zero2, version, driver])
}

proof fn lemma_hex_char(n: int)
    requires
        0 <= n < 16,
    ensures
        hex_value(hex_char(n)) == Some(n),
{
}

proof fn lemma_encoded_word(words: Seq<u16>, k: int)
    requires
        0 <= k < words.len(),
    ensures
        word_is_hex(encode_words(words), k),
        word_value(encode_words(words), k) == words[k],
{
    let s = encode_words(words);
    let w = words[k];
    let e = encode_word(w);
    assert(s[4 * k] == e[0]);
    assert(s[4 * k + 1] == e[1]);
    assert(s[4 * k + 2] == e[2]);
    assert(s[4 * k + 3] == e[3]);
    let v = w as int;
    lemma_hex_char((v % 256) / 16);
    lemma_hex_char(v % 16);
    lemma_hex_char(v / 4096);
    lemma_hex_char((v / 256) % 16);
    assert(((v / 4096) * 16 + (v / 256) % 16) * 256 + ((v % 256) / 16) * 16 + v % 16 == v);
}

/// Decoding inverts encoding: the text written for eight words decodes to
/// the vendor, product, version and checksum among them when both zero
/// words are zero, and to nothing when either is not.
pub proof fn lemma_guid_round_trip(
    bus: u16,
    crc: u16,
    vendor: u16,
    zero1: u16,
    product: u16,
    zero2: u16,
    version: u16,
    driver: u16,
)
    ensures
        decode_guid(encode_guid(bus, crc, vendor, zero1, product, zero2, version, driver)) == if zero1
            == 0 && zero2 == 0 {
            Some(Guid { vendor, product, version, crc })
        } else {
            None
        },
{
    let words = seq![bus, crc, vendor, zero1, product, zero2, version, driver];
    let s = encode_words(words);
    assert(s.len() == 32);
    assert forall|k: int| 0 <= k < 8 implies word_is_hex(s, k) by {
        lemma_encoded_word(words, k);
    }
    lemma_encoded_word(words, 1);
    lemma_encoded_word(words, 2);
    lemma_encoded_word(words, 3);
    lemma_encoded_word(words, 4);
    lemma_encoded_word(words, 5);
    lemma_encoded_word(words, 6);
}

/// Value of a hexadecimal digit, in either case.
pub fn hex_digit(c: char) -> (out: Option<u16>)
    ensures
        out is Some <==> hex_value(c) is Some,
        out is Some ==> out->0 as int == hex_value(c)->0 && out->0 < 16,
{
    if '0' <= c && c <= '9' {
        Some((c as u8 - '0' as u8) as u16)
    } else if 'a' <= c && c <= 'f' {
        Some((c as u8 - 'a' as u8 + 10) as u16)
    } else if 'A' <= c && c <= 'F' {
        Some((c as u8 - 'A' as u8 + 10) as u16)
    } else {
        None
    }
}

/// Word `k` of a GUID text, or nothing when one of its characters is no
/// hexadecimal digit.
fn parse_word(s: &[char], k: usize) -> (out: Option<u16>)
    requires
        s.len() == 32,
        k < 8,
    ensures
        out is Some <==> word_is_hex(s@, k as int),
        out is Some ==> out->0 as int == word_value(s@, k as int),
{
    let base: usize = GUID_CHUNKS * k;
    let d0 = hex_digit(s[base]);
    let d1 = hex_digit(s[base + 1]);
    let d2 = hex_digit(s[base + 2]);
    let d3 = hex_digit(s[base + 3]);
    match (d0, d1, d2, d3) {
        (Some(a), Some(b), Some(c), Some(d)) => Some((c * 16 + d) * 256 + a * 16 + b),
        _ => None,
    }
}

/// Decodes a GUID text into the identity that it carries.
pub fn parse_guid(guid_str: &str) -> (out: Option<Guid>)
    ensures
        out == decode_guid(guid_str@),
{
    let chars = chars_of(guid_str);
    guid_from_chars(chars.as_slice())
}

/// Decodes the GUID text held in `s`.
pub fn guid_from_chars(s: &[char]) -> (out: Option<Guid>)
    ensures
        out == decode_guid(s@),
{
    if s.len() != GUID_LEN {
        return None;
    }
    let mut words: Vec<u16> = Vec::new();
    let mut k: usize = 0;
    while k < 8
        invariant
            s.len() == 32,
            k <= 8,
            words.len() == k,
            forall|j: int| 0 <= j < k ==> word_is_hex(s@, j) && words[j] as int == word_value(s@, j),
        decreases 8 - k,
    {
        match parse_word(s, k) {
            Some(w) => {
                words.push(w);
            },
            None => {
                return None;
            },
        }
        k += 1;
    }
    let (zero1, zero2) = (words[3], words[5]);
    if zero1 != 0 || zero2 != 0 {
        None
    } else {
        Some(Guid { vendor: words[2], product: words[4], version: words[6], crc: words[1] })
    }
}

impl Guid {
    /// Decodes a GUID text; see [`decode_guid`] for what is accepted.
    pub fn from_guid_string(guid_str: &str) -> (out: Option<Self>)
        ensures
            out == decode_guid(guid_str@),
    {
        parse_guid(guid_str)
    }

    /// The vendor id.
    pub fn vendor(&self) -> (out: &u16)
        ensures
            *out == self.vendor,
    {
        &self.vendor
    }

    /// The product id.
    pub fn product(&self) -> (out: &u16)
        ensures
            *out == self.product,
    {
        &self.product
    }

    /// The version.
    pub fn version(&self) -> (out: &u16)
        ensures
            *out == self.version,
    {
        &self.version
    }

    /// The checksum of the device name.
    pub fn crc(&self) -> (out: &u16)
        ensures
            *out == self.crc,
    {
        &self.crc
    }
}

} // verus!

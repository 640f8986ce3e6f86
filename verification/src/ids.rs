//! Random identifiers: version-4 UUIDs for new bookings, flights and staff.

use vstd::prelude::*;
use crate::random::{draw_bytes16, RandomSourceError};

verus! {

pub open spec fn is_lower_hex_digit(c: char) -> bool {
    ('0' <= c && c <= '9') || ('a' <= c && c <= 'f')
}

/// The text of a UUID in hyphenated lower-case form: 36 characters, hyphens
/// at positions 8, 13, 18 and 23, lower-case hex digits elsewhere.
pub open spec fn is_uuid_text(s: Seq<char>) -> bool {
    &&& s.len() == 36
    &&& forall|i: int|
        0 <= i < 36 ==> if i == 8 || i == 13 || i == 18 || i == 23 {
            #[trigger] s[i] == '-'
        } else {
            is_lower_hex_digit(s[i])
        }
}

/// Every issued identifier has the hyphenated lower-case UUID form.
pub proof fn lemma_v4_is_uuid_text(s: Seq<char>)
    requires
        is_uuid_v4_text(s),
    ensures
        is_uuid_text(s),
{
}

/// Whether `s` is a UUID in hyphenated lower-case form.
pub fn is_uuid(s: &str) -> (r: bool)
    ensures
        r == is_uuid_text(s@),
{
    let n = s.unicode_len();
    if n != 36 {
        return false;
    }
    let mut i: usize = 0;
    while i < 36
        invariant
            n == s@.len(),
            n == 36,
            i <= 36,
            forall|k: int|
                0 <= k < i ==> if k == 8 || k == 13 || k == 18 || k == 23 {
                    #[trigger] s@[k] == '-'
                } else {
                    is_lower_hex_digit(s@[k])
                },
        decreases 36 - i,
    {
        let c = s.get_char(i);
        let ok = if i == 8 || i == 13 || i == 18 || i == 23 {
            c == '-'
        } else {
            ('0' <= c && c <= '9') || ('a' <= c && c <= 'f')
        };
        if !ok {
            return false;
        }
        i = i + 1;
    }
    true
}

/// The text of a version-4, RFC 4122-variant UUID in hyphenated lower-case
/// form, e.g. `67e55044-10b1-426f-9247-bb680e5fe0c8`.
pub open spec fn is_uuid_v4_text(s: Seq<char>) -> bool {
    &&& s.len() == 36
    &&& forall|i: int|
        0 <= i < 36 ==> if i == 8 || i == 13 || i == 18 || i == 23 {
            #[trigger] s[i] == '-'
        } else {
            is_lower_hex_digit(s[i])
        }
    &&& s[14] == '4'
    &&& (s[19] == '8' || s[19] == '9' || s[19] == 'a' || s[19] == 'b')
}

/// The lower-case hex digit of a nibble (values above 15 do not occur).
pub open spec fn hex_char(n: u8) -> char {
    if n == 0 {
        '0'
    } else if n == 1 {
        '1'
    } else if n == 2 {
        '2'
    } else if n == 3 {
        '3'
    } else if n == 4 {
        '4'
    } else if n == 5 {
        '5'
    } else if n == 6 {
        '6'
    } else if n == 7 {
        '7'
    } else if n == 8 {
        '8'
    } else if n == 9 {
        '9'
    } else if n == 10 {
        'a'
    } else if n == 11 {
        'b'
    } else if n == 12 {
        'c'
    } else if n == 13 {
        'd'
    } else if n == 14 {
        'e'
    } else {
        'f'
    }
}

/// Byte `j` of a version-4 UUID built from the random bytes `b`: the high
/// nibble of byte 6 becomes the version 4, the top two bits of byte 8 the
/// variant `10`.
pub open spec fn uuid_v4_byte(b: Seq<u8>, j: int) -> u8 {
    if j == 6 {
        (b[6] & 0x0f) | 0x40
    } else if j == 8 {
        (b[8] & 0x3f) | 0x80
    } else {
        b[j]
    }
}

/// The number of hyphens before position `i` of the hyphenated form.
pub open spec fn hyphens_before(i: int) -> int {
    (if i > 8 { 1int } else { 0 }) + (if i > 13 { 1int } else { 0 }) + (if i > 18 { 1int } else { 0 }) + (
    if i > 23 { 1int } else { 0 })
}

/// Character `i` of the hyphenated lower-case text of the UUID built from `b`:
/// each byte in order as two hex digits, high nibble first, with hyphens
/// after the 4th, 6th, 8th and 10th byte.
pub open spec fn uuid_text_char(b: Seq<u8>, i: int) -> char {
    if i == 8 || i == 13 || i == 18 || i == 23 {
        '-'
    } else {
        let k = i - hyphens_before(i);
        let v = uuid_v4_byte(b, k / 2);
        if k % 2 == 0 {
            hex_char(v >> 4)
        } else {
            hex_char(v & 0x0f)
        }
    }
}

/// The hyphenated lower-case text of the version-4 UUID built from the
/// sixteen random bytes `b`.
pub open spec fn uuid_v4_text_of(b: Seq<u8>) -> Seq<char> {
    Seq::new(36, |i: int| uuid_text_char(b, i))
}

/// Calls `uuid::Builder::from_random_bytes(..).into_uuid()` and renders the
/// UUID with `to_string`. `from_random_bytes` sets the version and variant
/// bits of bytes 6 and 8; `Display` writes `format_hyphenated`: each byte as
/// two lower-case hex digits, with hyphens after bytes 4, 6, 8 and 10.
#[verifier::external_body]
fn format_uuid_v4(bytes: [u8; 16]) -> (r: String)
    ensures
        r@ == uuid_v4_text_of(bytes@),
{
    uuid::Builder::from_random_bytes(bytes).into_uuid().to_string()
}

/// Any sixteen bytes give the text of a version-4 UUID.
pub proof fn lemma_uuid_v4_text_shape(b: Seq<u8>)
    requires
        b.len() == 16,
    ensures
        is_uuid_v4_text(uuid_v4_text_of(b)),
{
    let t = uuid_v4_text_of(b);
    let b6 = b[6];
    let b8 = b[8];
    assert(((b6 & 0x0f) | 0x40) >> 4 == 4u8) by (bit_vector);
    assert({
        let x = ((b8 & 0x3f) | 0x80) >> 4;
        x == 8u8 || x == 9u8 || x == 10u8 || x == 11u8
    }) by (bit_vector);
    assert(t[14] == '4');
    assert(t[19] == '8' || t[19] == '9' || t[19] == 'a' || t[19] == 'b');
}

proof fn lemma_hex_char_injective(a: u8, b: u8)
    requires
        a < 16,
        b < 16,
        hex_char(a) == hex_char(b),
    ensures
        a == b,
{
}

proof fn lemma_byte_from_nibbles(x: u8, y: u8)
    requires
        x >> 4 == y >> 4,
        x & 0x0f == y & 0x0f,
    ensures
        x == y,
{
    assert(x >> 4 == y >> 4 && x & 0x0f == y & 0x0f ==> x == y) by (bit_vector);
}

/// The identifier carries the bytes it was built from: two UUID texts are
/// equal only when the bytes agree everywhere outside the version and variant
/// bits, so different draws there give different identifiers.
pub proof fn lemma_uuid_text_determines_bytes(b1: Seq<u8>, b2: Seq<u8>)
    requires
        b1.len() == 16,
        b2.len() == 16,
        uuid_v4_text_of(b1) == uuid_v4_text_of(b2),
    ensures
        forall|j: int| 0 <= j < 16 ==> #[trigger] uuid_v4_byte(b1, j) == uuid_v4_byte(b2, j),
{
    let t1 = uuid_v4_text_of(b1);
    let t2 = uuid_v4_text_of(b2);
    assert forall|j: int| 0 <= j < 16 implies #[trigger] uuid_v4_byte(b1, j) == uuid_v4_byte(b2, j) by {
        let h: int = if j < 4 {
            0
        } else if j < 6 {
            1
        } else if j < 8 {
            2
        } else if j < 10 {
            3
        } else {
            4
        };
        let i = 2 * j + h;
        assert(hyphens_before(i) == h);
        assert(hyphens_before(i + 1) == h);
        assert(t1[i] == t2[i]);
        assert(t1[i + 1] == t2[i + 1]);
        let x = uuid_v4_byte(b1, j);
        let y = uuid_v4_byte(b2, j);
        assert((i - h) / 2 == j && (i - h) % 2 == 0);
        assert((i + 1 - h) / 2 == j && (i + 1 - h) % 2 == 1);
        assert(t1[i] == hex_char(x >> 4));
        assert(t2[i] == hex_char(y >> 4));
        assert(t1[i + 1] == hex_char(x & 0x0f));
        assert(t2[i + 1] == hex_char(y & 0x0f));
        assert(x >> 4 < 16 && y >> 4 < 16 && x & 0x0f < 16 && y & 0x0f < 16) by (bit_vector);
        lemma_hex_char_injective(x >> 4, y >> 4);
        lemma_hex_char_injective(x & 0x0f, y & 0x0f);
        lemma_byte_from_nibbles(x, y);
    }
}

/// The text of the version-4 UUID built from sixteen random bytes.
pub fn uuid_v4_text(bytes: [u8; 16]) -> (r: String)
    ensures
        r@ == uuid_v4_text_of(bytes@),
        is_uuid_v4_text(r@),
{
    let r = format_uuid_v4(bytes);
    proof {
        lemma_uuid_v4_text_shape(bytes@);
    }
    r
}

/// Draws a fresh identifier: a random version-4 UUID in hyphenated
/// lower-case form.
pub fn new_uuid_v4_text() -> (r: Result<String, RandomSourceError>)
    ensures
        r matches Ok(s) ==> is_uuid_v4_text(s@),
        r matches Err(e) ==> e == RandomSourceError::Unavailable,
{
    let bytes = draw_bytes16()?;
    Ok(uuid_v4_text(bytes))
}

} // verus!

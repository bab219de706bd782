//! Command payload decoding: six hexadecimal characters for a colour, one to
//! six decimal digits for a servo angle. A malformed payload is rejected
//! whole — no partial value is ever produced.

use vstd::prelude::*;

verus! {

/// Why a command payload was rejected before any actuator was touched.
#[derive(Clone, Copy, Debug, PartialEq, Eq, Structural)]
pub enum DecodeError {
    /// The payload has the wrong number of bytes for the command.
    WrongLength,
    /// A byte of a colour payload is not an ASCII hexadecimal digit.
    NotHex,
    /// A byte of an angle payload is not an ASCII decimal digit.
    NotDecimal,
}

/// One decoded colour command: three independent 8-bit intensities.
#[derive(Clone, Copy, Debug, PartialEq, Eq, Structural)]
pub struct Color {
    pub r: u8,
    pub g: u8,
    pub b: u8,
}

/// ASCII hexadecimal digit, either case.
pub open spec fn is_hex_digit(b: u8) -> bool {
    (48 <= b && b <= 57) || (97 <= b && b <= 102) || (65 <= b && b <= 70)
}

/// The value of one hexadecimal digit.
pub open spec fn hex_val(b: u8) -> u8
    recommends
        is_hex_digit(b),
{
    if 48 <= b && b <= 57 {
        (b - 48) as u8
    } else if 97 <= b && b <= 102 {
        (b - 97 + 10) as u8
    } else {
        (b - 65 + 10) as u8
    }
}

/// The byte encoded by two hexadecimal digits, high digit first.
pub open spec fn hex_pair_val(hi: u8, lo: u8) -> u8
    recommends
        is_hex_digit(hi),
        is_hex_digit(lo),
{
    (16 * hex_val(hi) + hex_val(lo)) as u8
}

/// A colour payload: exactly six hexadecimal characters `rrggbb`.
pub open spec fn valid_color_payload(s: Seq<u8>) -> bool {
    s.len() == 6 && (forall|i: int| 0 <= i < 6 ==> is_hex_digit(#[trigger] s[i]))
}

/// The colour a valid payload encodes.
pub open spec fn color_of(s: Seq<u8>) -> Color
    recommends
        valid_color_payload(s),
{
    Color {
        r: hex_pair_val(s[0], s[1]),
        g: hex_pair_val(s[2], s[3]),
        b: hex_pair_val(s[4], s[5]),
    }
}

fn hex_digit(b: u8) -> (r: Option<u8>)
    ensures
        r is Some <==> is_hex_digit(b),
        is_hex_digit(b) ==> r == Some(hex_val(b)),
{
    if 48 <= b && b <= 57 {
        Some(b - 48)
    } else if 97 <= b && b <= 102 {
        Some(b - 97 + 10)
    } else if 65 <= b && b <= 70 {
        Some(b - 65 + 10)
    } else {
        None
    }
}

fn hex_byte(hi: u8, lo: u8) -> (r: Option<u8>)
    ensures
        r is Some <==> is_hex_digit(hi) && is_hex_digit(lo),
        is_hex_digit(hi) && is_hex_digit(lo) ==> r == Some(hex_pair_val(hi, lo)),
{
    match (hex_digit(hi), hex_digit(lo)) {
        (Some(h), Some(l)) => Some(16 * h + l),
        _ => None,
    }
}

impl Color {
    /// Decodes a six-character hexadecimal payload `rrggbb`. Wrong length and
    /// non-hexadecimal bytes are distinct failures; nothing is decoded
    /// partially.
    pub fn try_from(payload: &[u8]) -> (r: Result<Color, DecodeError>)
        ensures
            r == (if payload@.len() != 6 {
                Err::<Color, DecodeError>(DecodeError::WrongLength)
            } else if !valid_color_payload(payload@) {
                Err::<Color, DecodeError>(DecodeError::NotHex)
            } else {
                Ok::<Color, DecodeError>(color_of(payload@))
            }),
    {
        if payload.len() != 6 {
            return Err(DecodeError::WrongLength);
        }
        let red = hex_byte(payload[0], payload[1]);
        let green = hex_byte(payload[2], payload[3]);
        let blue = hex_byte(payload[4], payload[5]);
        match (red, green, blue) {
            (Some(r), Some(g), Some(b)) => {
                proof {
                    assert forall|i: int| 0 <= i < 6 implies is_hex_digit(#[trigger] payload@[i]) by {
                        assert(is_hex_digit(payload@[0]));
                        assert(is_hex_digit(payload@[1]));
                        assert(is_hex_digit(payload@[2]));
                        assert(is_hex_digit(payload@[3]));
                        assert(is_hex_digit(payload@[4]));
                        assert(is_hex_digit(payload@[5]));
                    }
                }
                Ok(Color { r, g, b })
            },
            _ => {
                proof {
                    if valid_color_payload(payload@) {
                        assert(is_hex_digit(payload@[0]));
                        assert(is_hex_digit(payload@[1]));
                        assert(is_hex_digit(payload@[2]));
                        assert(is_hex_digit(payload@[3]));
                        assert(is_hex_digit(payload@[4]));
                        assert(is_hex_digit(payload@[5]));
                    }
                }
                Err(DecodeError::NotHex)
            },
        }
    }
}

/// ASCII decimal digit.
pub open spec fn is_dec_digit(b: u8) -> bool {
    48 <= b && b <= 57
}

/// An angle payload: one to six ASCII decimal digits.
pub open spec fn valid_angle_payload(s: Seq<u8>) -> bool {
    1 <= s.len() <= 6 && (forall|i: int| 0 <= i < s.len() ==> is_dec_digit(#[trigger] s[i]))
}

/// The unsigned integer a run of decimal digits encodes, most significant
/// digit first.
pub open spec fn dec_val(s: Seq<u8>) -> int
    recommends
        forall|i: int| 0 <= i < s.len() ==> is_dec_digit(#[trigger] s[i]),
    decreases s.len(),
{
    if s.len() == 0 {
        0
    } else {
        10 * dec_val(s.drop_last()) + (s.last() - 48)
    }
}

/// Ten to the `n`th power.
pub open spec fn pow10(n: nat) -> int
    decreases n,
{
    if n == 0 {
        1
    } else {
        10 * pow10((n - 1) as nat)
    }
}

proof fn lemma_dec_val_bounds(s: Seq<u8>)
    requires
        forall|i: int| 0 <= i < s.len() ==> is_dec_digit(#[trigger] s[i]),
    ensures
        0 <= dec_val(s) < pow10(s.len()),
    decreases s.len(),
{
    if s.len() > 0 {
        assert(forall|i: int|
            0 <= i < s.drop_last().len() ==> is_dec_digit(#[trigger] s.drop_last()[i]));
        lemma_dec_val_bounds(s.drop_last());
        assert(is_dec_digit(s.last()));
    }
}

proof fn lemma_pow10_small(n: nat)
    requires
        n <= 6,
    ensures
        pow10(n) <= pow10(6),
        pow10(6) == 1000000,
{
    assert(pow10(0) == 1);
    assert(pow10(1) == 10);
    assert(pow10(2) == 100);
    assert(pow10(3) == 1000);
    assert(pow10(4) == 10000);
    assert(pow10(5) == 100000);
    assert(pow10(6) == 1000000);
}

/// Parses an angle payload of one to six ASCII decimal digits into the
/// unsigned integer it spells. Wrong length and non-decimal bytes are
/// distinct failures.
pub fn parse_angle(payload: &[u8]) -> (r: Result<u32, DecodeError>)
    ensures
        r == (if payload@.len() < 1 || payload@.len() > 6 {
            Err::<u32, DecodeError>(DecodeError::WrongLength)
        } else if !valid_angle_payload(payload@) {
            Err::<u32, DecodeError>(DecodeError::NotDecimal)
        } else {
            Ok::<u32, DecodeError>(dec_val(payload@) as u32)
        }),
        valid_angle_payload(payload@) ==> 0 <= dec_val(payload@) < 1000000,
{
    if payload.len() < 1 || payload.len() > 6 {
        return Err(DecodeError::WrongLength);
    }
    let mut acc: u32 = 0;
    let mut i: usize = 0;
    while i < payload.len()
        invariant
            1 <= payload@.len() <= 6,
            i <= payload@.len(),
            forall|j: int| 0 <= j < i ==> is_dec_digit(#[trigger] payload@[j]),
            acc == dec_val(payload@.take(i as int)),
        decreases payload@.len() - i,
    {
        let b = payload[i];
        if b < 48 || b > 57 {
            return Err(DecodeError::NotDecimal);
        }
        proof {
            let taken = payload@.take(i as int);
            assert(forall|j: int| 0 <= j < taken.len() ==> is_dec_digit(#[trigger] taken[j]));
            lemma_dec_val_bounds(taken);
            lemma_pow10_small(i as nat);
            assert(payload@.take(i + 1).drop_last() =~= taken);
            assert(payload@.take(i + 1).last() == payload@[i as int]);
        }
        acc = 10 * acc + (b - 48) as u32;
        i = i + 1;
    }
    proof {
        assert(payload@.take(i as int) =~= payload@);
        lemma_dec_val_bounds(payload@);
        lemma_pow10_small(payload@.len());
    }
    Ok(acc)
}

} // verus!

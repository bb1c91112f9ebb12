//! Hex encoding of identifiers, through the `hex` crate.

use vstd::prelude::*;
use vstd::string::*;
use vstd::array::*;
use vstd::utf8::*;
use crate::text::{decimal_chars, decimal_string};

verus! {

/// The lowercase hex digit for `d` (`0 <= d < 16`).
pub open spec fn hex_digit_lower(d: int) -> char {
    if d < 10 {
        (48 + d) as char
    } else {
        (87 + d) as char
    }
}

/// Lowercase hex text of `bytes`, two digits per byte, high nibble first.
pub open spec fn hex_lower(bytes: Seq<u8>) -> Seq<char>
    decreases bytes.len(),
{
    if bytes.len() == 0 {
        Seq::empty()
    } else {
        hex_lower(bytes.drop_last()) + seq![
            hex_digit_lower(bytes.last() as int / 16),
            hex_digit_lower(bytes.last() as int % 16),
        ]
    }
}

/// The value of an ASCII hex digit of either case, or -1 for any other byte.
pub open spec fn hex_value(c: u8) -> int {
    if 48 <= c <= 57 {
        c - 48
    } else if 97 <= c <= 102 {
        c - 87
    } else if 65 <= c <= 70 {
        c - 55
    } else {
        -1
    }
}

pub open spec fn is_hex_byte(c: u8) -> bool {
    hex_value(c) >= 0
}

pub open spec fn all_hex(b: Seq<u8>) -> bool {
    forall|i: int| 0 <= i < b.len() ==> is_hex_byte(#[trigger] b[i])
}

/// `i` is the position of the first byte of `b` that is not a hex digit.
pub open spec fn first_non_hex(b: Seq<u8>, i: int) -> bool {
    &&& 0 <= i < b.len()
    &&& !is_hex_byte(b[i])
    &&& forall|j: int| 0 <= j < i ==> is_hex_byte(#[trigger] b[j])
}

/// The bytes that an even-length all-hex text stands for.
pub open spec fn hex_decoded(b: Seq<u8>) -> Seq<u8> {
    Seq::new(b.len() / 2, |i: int| (hex_value(b[2 * i]) * 16 + hex_value(b[2 * i + 1])) as u8)
}

/// Why a hex text was refused.
#[derive(Debug, Clone, Copy, PartialEq, Eq, Structural)]
pub enum HexDecodeError {
    /// A byte that is not a hex digit, and its position.
    InvalidHexCharacter { c: char, index: usize },
    /// The text has an odd number of digits.
    OddLength,
    /// The text decodes to the wrong number of bytes.
    InvalidStringLength,
}

/// What `hex::decode` gives for the text whose bytes are `b`.
pub open spec fn hex_decode_result(b: Seq<u8>, r: Result<Vec<u8>, HexDecodeError>) -> bool {
    &&& b.len() % 2 != 0 ==> r == Err::<Vec<u8>, HexDecodeError>(HexDecodeError::OddLength)
    &&& b.len() % 2 == 0 && all_hex(b) ==> (r matches Ok(v) && v@ == hex_decoded(b))
    &&& b.len() % 2 == 0 && !all_hex(b) ==> (r matches Err(HexDecodeError::InvalidHexCharacter { c, index })
        && first_non_hex(b, index as int) && c == (b[index as int] as char))
}

/// `hex::encode`: lowercase hex of `bytes`.
#[verifier::external_body]
pub(crate) fn hex_encode(bytes: &[u8]) -> (s: String)
    ensures
        s@ == hex_lower(bytes@),
{
    hex::encode(bytes)
}

/// `hex::decode` on the bytes of `s`: both digit cases are accepted; an odd
/// length is refused first, then the first byte that is not a digit.
#[verifier::external_body]
fn hex_decode(s: &str) -> (r: Result<Vec<u8>, HexDecodeError>)
    ensures
        hex_decode_result(s.spec_bytes(), r),
{
    match hex::decode(s) {
        Ok(v) => Ok(v),
        Err(hex::FromHexError::InvalidHexCharacter { c, index }) => Err(
            HexDecodeError::InvalidHexCharacter { c, index },
        ),
        Err(hex::FromHexError::OddLength) => Err(HexDecodeError::OddLength),
        Err(hex::FromHexError::InvalidStringLength) => Err(HexDecodeError::InvalidStringLength),
    }
}

/// What decoding a hex identifier of exactly `n` bytes gives for the text `b`.
pub open spec fn hex_exact_result(b: Seq<u8>, n: nat, r: Result<Vec<u8>, HexDecodeError>) -> bool {
    &&& b.len() % 2 != 0 ==> r == Err::<Vec<u8>, HexDecodeError>(HexDecodeError::OddLength)
    &&& b.len() % 2 == 0 && !all_hex(b) ==> (r matches Err(HexDecodeError::InvalidHexCharacter { c, index })
        && first_non_hex(b, index as int) && c == (b[index as int] as char))
    &&& b.len() % 2 == 0 && all_hex(b) && b.len() != 2 * n ==> r == Err::<Vec<u8>, HexDecodeError>(
        HexDecodeError::InvalidStringLength,
    )
    &&& b.len() == 2 * n && all_hex(b) ==> (r matches Ok(v) && v@ == hex_decoded(b))
}

/// Decode a hex identifier that must come to exactly `n` bytes.
pub fn decode_hex_exact(s: &str, n: usize) -> (r: Result<Vec<u8>, HexDecodeError>)
    ensures
        hex_exact_result(s.spec_bytes(), n as nat, r),
        r matches Ok(v) ==> v@.len() == n,
{
    let v = hex_decode(s)?;
    if v.len() != n {
        return Err(HexDecodeError::InvalidStringLength);
    }
    Ok(v)
}

/// `format!("{:?}", c)`: the character quoted and escaped as Rust's debug form prints it.
pub uninterp spec fn char_debug_text(c: char) -> Seq<char>;

/// `format!("{:?}", c)`.
#[verifier::external_body]
fn char_debug(c: char) -> (s: String)
    ensures
        s@ == char_debug_text(c),
{
    format!("{:?}", c)
}

impl HexDecodeError {
    pub open spec fn spec_message(self) -> Seq<char> {
        match self {
            HexDecodeError::InvalidHexCharacter { c, index } => "Invalid character "@ + char_debug_text(c)
                + " at position "@ + decimal_chars(index as nat),
            HexDecodeError::OddLength => "Odd number of digits"@,
            HexDecodeError::InvalidStringLength => "Invalid string length"@,
        }
    }

    /// The error's text, as hex's `Display` words it.
    pub fn message(&self) -> (s: String)
        ensures
            s@ == self.spec_message(),
    {
        match self {
            HexDecodeError::InvalidHexCharacter { c, index } => {
                let mut s = String::from_str("Invalid character ");
                s.append(char_debug(*c).as_str());
                s.append(" at position ");
                s.append(decimal_string(*index as u64).as_str());
                s
            },
            HexDecodeError::OddLength => String::from_str("Odd number of digits"),
            HexDecodeError::InvalidStringLength => String::from_str("Invalid string length"),
        }
    }
}

/// Why an actor id was refused.
#[derive(Debug, Clone, Copy, PartialEq, Eq, Structural)]
pub enum ActorIdError {
    /// The text is not hex.
    Hex(HexDecodeError),
    /// The text is hex but not 16 bytes long.
    WrongLength,
}

impl ActorIdError {
    pub open spec fn spec_message(self) -> Seq<char> {
        match self {
            ActorIdError::Hex(e) => "Invalid actor ID: "@ + e.spec_message(),
            ActorIdError::WrongLength => "Actor ID must be 16 bytes"@,
        }
    }

    pub fn message(&self) -> (s: String)
        ensures
            s@ == self.spec_message(),
    {
        match self {
            ActorIdError::Hex(e) => {
                let mut s = String::from_str("Invalid actor ID: ");
                s.append(e.message().as_str());
                s
            },
            ActorIdError::WrongLength => String::from_str("Actor ID must be 16 bytes"),
        }
    }
}

/// Parse a 16-byte actor id from its hex text.
pub fn parse_actor_id(hex: &str) -> (r: Result<[u8; 16], ActorIdError>)
    ensures
        ({
            let b = hex.spec_bytes();
            &&& b.len() % 2 != 0 ==> r == Err::<[u8; 16], ActorIdError>(
                ActorIdError::Hex(HexDecodeError::OddLength),
            )
            &&& b.len() % 2 == 0 && !all_hex(b) ==> (r matches Err(
                ActorIdError::Hex(HexDecodeError::InvalidHexCharacter { c, index }),
            ) && first_non_hex(b, index as int) && c == (b[index as int] as char))
            &&& b.len() % 2 == 0 && all_hex(b) && b.len() != 32 ==> r == Err::<
                [u8; 16],
                ActorIdError,
            >(ActorIdError::WrongLength)
            &&& b.len() == 32 && all_hex(b) ==> (r matches Ok(a) && a@ == hex_decoded(b))
        }),
{
    let v = match hex_decode(hex) {
        Ok(v) => v,
        Err(e) => {
            return Err(ActorIdError::Hex(e));
        },
    };
    if v.len() != 16 {
        return Err(ActorIdError::WrongLength);
    }
    let mut a = [0u8; 16];
    let mut i: usize = 0;
    while i < 16
        invariant
            v@.len() == 16,
            i <= 16,
            forall|k: int| 0 <= k < i ==> a@[k] == v@[k],
        decreases 16 - i,
    {
        a.set(i, v[i]);
        i = i + 1;
    }
    proof {
        assert(a@ =~= v@);
    }
    Ok(a)
}

/// Each byte of `b` sits at positions `2i` and `2i + 1` of its hex text.
pub proof fn lemma_hex_lower_index(b: Seq<u8>)
    ensures
        hex_lower(b).len() == 2 * b.len(),
        forall|i: int| 0 <= i < b.len() ==> #[trigger] hex_lower(b)[2 * i] == hex_digit_lower(b[i] as int / 16)
            && hex_lower(b)[2 * i + 1] == hex_digit_lower(b[i] as int % 16),
    decreases b.len(),
{
    if b.len() > 0 {
        let prev = b.drop_last();
        lemma_hex_lower_index(prev);
        assert forall|i: int| 0 <= i < b.len() implies #[trigger] hex_lower(b)[2 * i] == hex_digit_lower(
            b[i] as int / 16,
        ) && hex_lower(b)[2 * i + 1] == hex_digit_lower(b[i] as int % 16) by {
            if i < b.len() - 1 {
                assert(prev[i] == b[i]);
                assert(hex_lower(prev)[2 * i] == hex_digit_lower(prev[i] as int / 16));
            }
        }
    }
}

/// The byte of a lowercase hex digit reads back as the digit's value.
proof fn lemma_hex_digit_value(d: int)
    requires
        0 <= d < 16,
    ensures
        '\0' <= hex_digit_lower(d) <= '\u{7f}',
        hex_value(hex_digit_lower(d) as u8) == d,
{
}

/// Hex text is ASCII, two bytes per input byte, and decodes back to the
/// bytes it was made from.
pub proof fn lemma_hex_roundtrip(b: Seq<u8>)
    ensures
        encode_utf8(hex_lower(b)).len() == 2 * b.len(),
        all_hex(encode_utf8(hex_lower(b))),
        hex_decoded(encode_utf8(hex_lower(b))) == b,
{
    let t = hex_lower(b);
    lemma_hex_lower_index(b);
    assert forall|k: int| 0 <= k < t.len() implies '\0' <= #[trigger] t[k] <= '\u{7f}' by {
        let i = k / 2;
        assert(t[2 * i] == hex_digit_lower(b[i] as int / 16));
        assert(t[2 * i + 1] == hex_digit_lower(b[i] as int % 16));
        lemma_hex_digit_value(b[i] as int / 16);
        lemma_hex_digit_value(b[i] as int % 16);
        if k % 2 == 0 {
            assert(k == 2 * i);
        } else {
            assert(k == 2 * i + 1);
        }
    }
    assert(is_ascii_chars(t));
    is_ascii_chars_encode_utf8(t);
    let e = encode_utf8(t);
    assert forall|k: int| 0 <= k < e.len() implies is_hex_byte(#[trigger] e[k]) by {
        let i = k / 2;
        assert(e[k] == t[k] as u8);
        assert(t[2 * i] == hex_digit_lower(b[i] as int / 16));
        assert(t[2 * i + 1] == hex_digit_lower(b[i] as int % 16));
        lemma_hex_digit_value(b[i] as int / 16);
        lemma_hex_digit_value(b[i] as int % 16);
        if k % 2 == 0 {
            assert(k == 2 * i);
        } else {
            assert(k == 2 * i + 1);
        }
    }
    assert forall|i: int| 0 <= i < b.len() implies #[trigger] hex_decoded(e)[i] == b[i] by {
        assert(t[2 * i] == hex_digit_lower(b[i] as int / 16));
        assert(t[2 * i + 1] == hex_digit_lower(b[i] as int % 16));
        assert(e[2 * i] == t[2 * i] as u8);
        assert(e[2 * i + 1] == t[2 * i + 1] as u8);
        lemma_hex_digit_value(b[i] as int / 16);
        lemma_hex_digit_value(b[i] as int % 16);
    }
    assert(hex_decoded(e) =~= b);
}

} // verus!

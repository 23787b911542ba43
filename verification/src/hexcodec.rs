//! Lower-case hex encoding and hex decoding of byte strings, as the `hex`
//! crate performs them, with the round trip between the two proved.

use vstd::prelude::*;
use vstd::utf8::{encode_utf8, is_ascii_chars, is_ascii_chars_encode_utf8};

verus! {

/// Why a hex string could not be decoded.
#[derive(Debug, Clone, Copy, PartialEq, Eq, Structural)]
pub enum HexDecodeError {
    /// The byte at `index` is not one of `0-9`, `a-f`, `A-F`; `c` is that byte read as a char.
    InvalidHexCharacter { c: char, index: usize },
    /// The input has an odd number of bytes.
    OddLength,
    /// The decoded length does not fit a fixed-size output (never given for a `Vec`).
    InvalidStringLength,
}

/// The lower-case hex digit of a value below 16.
pub open spec fn hex_digit(v: int) -> char {
    if v < 10 {
        (48 + v) as char
    } else {
        (87 + v) as char
    }
}

/// The lower-case hex text of a byte string: two digits per byte, high nibble first.
pub open spec fn hex_lower(bytes: Seq<u8>) -> Seq<char>
    decreases bytes.len(),
{
    if bytes.len() == 0 {
        Seq::empty()
    } else {
        seq![hex_digit(bytes[0] as int / 16), hex_digit(bytes[0] as int % 16)] + hex_lower(bytes.drop_first())
    }
}

/// The value of a hex digit byte (either case), or `None` for any other byte.
pub open spec fn hex_value(c: u8) -> Option<int> {
    if 48 <= c <= 57 {
        Some(c - 48)
    } else if 97 <= c <= 102 {
        Some(c - 87)
    } else if 65 <= c <= 70 {
        Some(c - 55)
    } else {
        None
    }
}

/// Decodes the digit pairs of `text` from position `i` on, reporting the first
/// byte that is not a hex digit.
pub open spec fn hex_decode_from(text: Seq<u8>, i: nat) -> Result<Seq<u8>, HexDecodeError>
    decreases text.len() - i,
{
    if i + 1 >= text.len() {
        Ok(Seq::empty())
    } else if hex_value(text[i as int]) is None {
        Err(HexDecodeError::InvalidHexCharacter { c: text[i as int] as char, index: i as usize })
    } else if hex_value(text[i + 1int]) is None {
        Err(HexDecodeError::InvalidHexCharacter { c: text[i + 1int] as char, index: (i + 1) as usize })
    } else {
        match hex_decode_from(text, i + 2) {
            Ok(rest) => Ok(
                seq![(hex_value(text[i as int]).unwrap() * 16 + hex_value(text[i + 1int]).unwrap()) as u8]
                    + rest,
            ),
            Err(e) => Err(e),
        }
    }
}

/// What decoding the bytes `text` as hex gives: an odd length is refused first,
/// then the first byte that is not a hex digit.
pub open spec fn hex_decode_spec(text: Seq<u8>) -> Result<Seq<u8>, HexDecodeError> {
    if text.len() % 2 != 0 {
        Err(HexDecodeError::OddLength)
    } else {
        hex_decode_from(text, 0)
    }
}

proof fn lemma_hex_digit(v: int)
    requires
        0 <= v < 16,
    ensures
        '\0' <= hex_digit(v) <= '\u{7f}',
        hex_value(hex_digit(v) as u8) == Some(v),
        is_lower_hex_digit(hex_digit(v)),
{
}

proof fn lemma_hex_lower_index(bytes: Seq<u8>)
    ensures
        hex_lower(bytes).len() == 2 * bytes.len(),
        forall|k: int|
            #![trigger bytes[k]]
            0 <= k < bytes.len() ==> hex_lower(bytes)[2 * k] == hex_digit(bytes[k] as int / 16)
                && hex_lower(bytes)[2 * k + 1] == hex_digit(bytes[k] as int % 16),
    decreases bytes.len(),
{
    if bytes.len() > 0 {
        let rest = bytes.drop_first();
        lemma_hex_lower_index(rest);
        assert forall|k: int| 0 <= k < bytes.len() implies hex_lower(bytes)[2 * k] == hex_digit(
            bytes[k] as int / 16,
        ) && hex_lower(bytes)[2 * k + 1] == hex_digit(bytes[k] as int % 16) by {
            if k > 0 {
                assert(bytes[k] == rest[k - 1]);
            }
        }
    }
}

/// `c` is one of `0-9`, `a-f`.
pub open spec fn is_lower_hex_digit(c: char) -> bool {
    ('0' <= c && c <= '9') || ('a' <= c && c <= 'f')
}

/// A hex text has two characters per byte, each a lower-case hex digit.
pub proof fn lemma_hex_lower_digits(bytes: Seq<u8>)
    ensures
        hex_lower(bytes).len() == 2 * bytes.len(),
        forall|i: int| 0 <= i < hex_lower(bytes).len() ==> is_lower_hex_digit(#[trigger] hex_lower(bytes)[i]),
{
    lemma_hex_lower_index(bytes);
    let t = hex_lower(bytes);
    assert forall|i: int| 0 <= i < t.len() implies is_lower_hex_digit(#[trigger] t[i]) by {
        let k = i / 2;
        assert(bytes[k] == bytes[k]);
        lemma_hex_digit(bytes[k] as int / 16);
        lemma_hex_digit(bytes[k] as int % 16);
        if i % 2 == 0 {
            assert(i == 2 * k);
        } else {
            assert(i == 2 * k + 1);
        }
    }
}

/// Every character of a hex text is ASCII.
pub proof fn lemma_hex_lower_is_ascii(bytes: Seq<u8>)
    ensures
        is_ascii_chars(hex_lower(bytes)),
{
    lemma_hex_lower_index(bytes);
    let t = hex_lower(bytes);
    assert forall|i: int| 0 <= i < t.len() implies '\0' <= #[trigger] t[i] <= '\u{7f}' by {
        let k = i / 2;
        assert(bytes[k] == bytes[k]);
        lemma_hex_digit(bytes[k] as int / 16);
        lemma_hex_digit(bytes[k] as int % 16);
        if i % 2 == 0 {
            assert(i == 2 * k);
        } else {
            assert(i == 2 * k + 1);
        }
    }
}

proof fn lemma_decode_pairs(bytes: Seq<u8>, text: Seq<u8>, k: nat)
    requires
        k <= bytes.len(),
        text.len() == 2 * bytes.len(),
        forall|j: int|
            #![trigger bytes[j]]
            0 <= j < bytes.len() ==> text[2 * j] == hex_digit(bytes[j] as int / 16) as u8
                && text[2 * j + 1] == hex_digit(bytes[j] as int % 16) as u8,
    ensures
        hex_decode_from(text, 2 * k) == Ok::<Seq<u8>, HexDecodeError>(
            bytes.subrange(k as int, bytes.len() as int),
        ),
    decreases bytes.len() - k,
{
    if k < bytes.len() {
        lemma_decode_pairs(bytes, text, k + 1);
        let b = bytes[k as int];
        lemma_hex_digit(b as int / 16);
        lemma_hex_digit(b as int % 16);
        assert(text[2 * k as int] == hex_digit(b as int / 16) as u8);
        assert(text[2 * k + 1int] == hex_digit(b as int % 16) as u8);
        assert((b as int / 16) * 16 + b as int % 16 == b as int);
        assert(bytes.subrange(k as int, bytes.len() as int) =~= seq![b] + bytes.subrange(
            k + 1int,
            bytes.len() as int,
        ));
    } else {
        assert(bytes.subrange(k as int, bytes.len() as int) =~= Seq::<u8>::empty());
    }
}

/// Decoding the UTF-8 bytes of the hex text of `bytes` gives `bytes` back.
pub proof fn lemma_hex_round_trip(bytes: Seq<u8>)
    ensures
        hex_decode_spec(encode_utf8(hex_lower(bytes))) == Ok::<Seq<u8>, HexDecodeError>(bytes),
{
    let t = hex_lower(bytes);
    lemma_hex_lower_index(bytes);
    lemma_hex_lower_is_ascii(bytes);
    is_ascii_chars_encode_utf8(t);
    let text = encode_utf8(t);
    assert forall|j: int| 0 <= j < bytes.len() implies text[2 * j] == hex_digit(
        bytes[j] as int / 16,
    ) as u8 && text[2 * j + 1] == hex_digit(#[trigger] bytes[j] as int % 16) as u8 by {
        assert(t[2 * j] as u8 == text[2 * j]);
        assert(t[2 * j + 1] as u8 == text[2 * j + 1]);
    }
    lemma_decode_pairs(bytes, text, 0);
    assert(bytes.subrange(0, bytes.len() as int) =~= bytes);
}

proof fn lemma_decode_from_valid(text: Seq<u8>, k: nat)
    requires
        text.len() % 2 == 0,
        2 * k <= text.len(),
        forall|j: int| 0 <= j < text.len() ==> hex_value(#[trigger] text[j]) is Some,
    ensures
        hex_decode_from(text, 2 * k) is Ok,
        hex_decode_from(text, 2 * k)->Ok_0.len() == text.len() / 2 - k,
        forall|m: int|
            #![trigger hex_decode_from(text, 2 * k)->Ok_0[m]]
            0 <= m < text.len() / 2 - k ==> hex_decode_from(text, 2 * k)->Ok_0[m] == (hex_value(
                text[2 * (k + m)],
            ).unwrap() * 16 + hex_value(text[2 * (k + m) + 1]).unwrap()) as u8,
    decreases text.len() - 2 * k,
{
    if 2 * k + 1 < text.len() {
        assert(hex_value(text[2 * k as int]) is Some);
        assert(hex_value(text[2 * k + 1int]) is Some);
        lemma_decode_from_valid(text, k + 1);
        assert(2 * (k + 1) == 2 * k + 2);
        let rest = hex_decode_from(text, 2 * k + 2)->Ok_0;
        let whole = hex_decode_from(text, 2 * k)->Ok_0;
        assert forall|m: int| 0 <= m < text.len() / 2 - k implies #[trigger] whole[m] == (hex_value(
            text[2 * (k + m)],
        ).unwrap() * 16 + hex_value(text[2 * (k + m) + 1]).unwrap()) as u8 by {
            if m > 0 {
                assert(whole[m] == rest[m - 1]);
                assert(2 * ((k + 1) + (m - 1)) == 2 * (k + m));
                assert(rest[m - 1] == (hex_value(text[2 * ((k + 1) + (m - 1))]).unwrap() * 16
                    + hex_value(text[2 * ((k + 1) + (m - 1)) + 1]).unwrap()) as u8);
            }
        }
    }
}

proof fn lemma_decode_from_invalid(text: Seq<u8>, k: nat, p: int)
    requires
        text.len() % 2 == 0,
        2 * k <= p < text.len(),
        hex_value(text[p]) is None,
    ensures
        hex_decode_from(text, 2 * k) is Err,
    decreases text.len() - 2 * k,
{
    if hex_value(text[2 * k as int]) is Some && hex_value(text[2 * k + 1int]) is Some {
        assert(p >= 2 * k + 2);
        lemma_decode_from_invalid(text, k + 1, p);
        assert(2 * (k + 1) == 2 * k + 2);
    }
}

/// Text of even length made only of hex digits (either case) decodes: one
/// byte per digit pair, the first digit being the high nibble.
pub proof fn lemma_hex_decode_digits(text: Seq<u8>)
    requires
        text.len() % 2 == 0,
        forall|j: int| 0 <= j < text.len() ==> hex_value(#[trigger] text[j]) is Some,
    ensures
        hex_decode_spec(text) is Ok,
        hex_decode_spec(text)->Ok_0.len() == text.len() / 2,
        forall|m: int|
            #![trigger hex_decode_spec(text)->Ok_0[m]]
            0 <= m < text.len() / 2 ==> hex_decode_spec(text)->Ok_0[m] == (hex_value(
                text[2 * m],
            ).unwrap() * 16 + hex_value(text[2 * m + 1]).unwrap()) as u8,
{
    lemma_decode_from_valid(text, 0);
    let r = hex_decode_spec(text)->Ok_0;
    assert forall|m: int| 0 <= m < text.len() / 2 implies #[trigger] r[m] == (hex_value(
        text[2 * m],
    ).unwrap() * 16 + hex_value(text[2 * m + 1]).unwrap()) as u8 by {
        assert(2 * (0 + m) == 2 * m);
    }
}

/// Text of even length with a byte that is not a hex digit is refused.
pub proof fn lemma_hex_decode_refuses_non_digit(text: Seq<u8>, p: int)
    requires
        text.len() % 2 == 0,
        0 <= p < text.len(),
        hex_value(text[p]) is None,
    ensures
        hex_decode_spec(text) is Err,
{
    lemma_decode_from_invalid(text, 0, p);
}

/// `hex::encode`: the lower-case hex text of `data`, two digits per byte,
/// high nibble first (trusted).
#[verifier::external_body]
pub(crate) fn hex_encode(data: &[u8]) -> (text: String)
    ensures
        text@ == hex_lower(data@),
{
    hex::encode(data)
}

/// `hex::decode`: decodes `data` (upper- or lower-case digits), refusing an odd
/// length first and otherwise the first byte that is not a digit, as its
/// source does (trusted). The crate's error is carried over variant by variant.
#[verifier::external_body]
pub(crate) fn hex_decode(data: &[u8]) -> (decoded: Result<Vec<u8>, HexDecodeError>)
    ensures
        match hex_decode_spec(data@) {
            Ok(bytes) => decoded is Ok && decoded->Ok_0@ == bytes,
            Err(e) => decoded == Err::<Vec<u8>, HexDecodeError>(e),
        },
{
    match hex::decode(data) {
        Ok(bytes) => Ok(bytes),
        Err(hex::FromHexError::InvalidHexCharacter { c, index }) => Err(
            HexDecodeError::InvalidHexCharacter { c, index },
        ),
        Err(hex::FromHexError::OddLength) => Err(HexDecodeError::OddLength),
        Err(hex::FromHexError::InvalidStringLength) => Err(HexDecodeError::InvalidStringLength),
    }
}

} // verus!

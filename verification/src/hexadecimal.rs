//! Hexadecimal text, as it appears in key files and transaction proposals.

use crate::index;
use vstd::prelude::*;

verus! {

/// Why a text is not hexadecimal.
#[derive(Clone, Copy, PartialEq, Eq, Debug, Structural)]
pub enum HexError {
    /// The byte at `index` is no hexadecimal digit; `c` is the character with that byte's code.
    InvalidHexCharacter { c: char, index: usize },
    /// The text has an odd number of bytes.
    OddLength,
    /// The text does not hold exactly as many bytes as asked for.
    InvalidStringLength,
}

/// The value of a hexadecimal digit, given by its ASCII code.
pub open spec fn digit_value(code: u8) -> Option<int> {
    if 0x30 <= code <= 0x39 {
        Some(code - 0x30)
    } else if 0x41 <= code <= 0x46 {
        Some(code - 0x41 + 10)
    } else if 0x61 <= code <= 0x66 {
        Some(code - 0x61 + 10)
    } else {
        None
    }
}

/// The lower-case hexadecimal digit with the given value.
pub open spec fn digit_char(value: int) -> char {
    if value < 10 {
        (0x30 + value) as char
    } else {
        (0x61 + value - 10) as char
    }
}

/// How many bytes at the start of `text` are hexadecimal digits, up to the first that is none.
pub open spec fn leading_digits(text: Seq<u8>) -> nat
    decreases text.len(),
{
    if text.len() == 0 || digit_value(text[0]) is None {
        0
    } else {
        1 + leading_digits(text.drop_first())
    }
}

/// The byte that the digit pair at position `i` of `text` stands for.
pub open spec fn pair_value(text: Seq<u8>, i: int) -> u8 {
    (16 * digit_value(text[2 * i])->0 + digit_value(text[2 * i + 1])->0) as u8
}

/// The complaint about the first byte of `text` that is no digit.
pub open spec fn first_fault(text: Seq<u8>) -> HexError {
    let at = leading_digits(text);
    HexError::InvalidHexCharacter { c: text[at as int] as char, index: at as usize }
}

/// The bytes that `chars` denote in hexadecimal, two digits each, or the reason why there are
/// none. Positions count the bytes of the text's UTF-8 form.
pub open spec fn decoded(chars: Seq<char>) -> Result<Seq<u8>, HexError> {
    let text = vstd::utf8::encode_utf8(chars);
    if text.len() % 2 != 0 {
        Err(HexError::OddLength)
    } else if leading_digits(text) < text.len() {
        Err(first_fault(text))
    } else {
        Ok(Seq::new(text.len() / 2, |i: int| pair_value(text, i)))
    }
}

/// The lower-case hexadecimal text of `bytes`, two digits for each byte.
pub open spec fn encoded(bytes: Seq<u8>) -> Seq<char> {
    Seq::new(
        2 * bytes.len(),
        |i: int|
            if i % 2 == 0 {
                digit_char((bytes[i / 2] / 16) as int)
            } else {
                digit_char((bytes[i / 2] % 16) as int)
            },
    )
}

/// Whether decoding `chars` into a buffer of `len` bytes succeeds, and why not.
pub open spec fn decoded_into(chars: Seq<char>, len: nat) -> Result<(), HexError> {
    let text = vstd::utf8::encode_utf8(chars);
    if text.len() % 2 != 0 {
        Err(HexError::OddLength)
    } else if text.len() != 2 * len {
        Err(HexError::InvalidStringLength)
    } else if leading_digits(text) < text.len() {
        Err(first_fault(text))
    } else {
        Ok(())
    }
}

/// What decoding `chars` leaves in a buffer that held `before`: nothing is touched when the
/// length is wrong, and otherwise every byte in front of the first faulty pair is written.
pub open spec fn overwritten(chars: Seq<char>, before: Seq<u8>) -> Seq<u8> {
    let text = vstd::utf8::encode_utf8(chars);
    if text.len() != 2 * before.len() {
        before
    } else {
        Seq::new(
            before.len(),
            |i: int|
                if 2 * i + 1 < leading_digits(text) {
                    pair_value(text, i)
                } else {
                    before[i]
                },
        )
    }
}

/// `hex::decode`: succeeds on an even number of digits of either case and gives one byte for
/// each pair; an odd length is reported before any digit is looked at, and after that the first
/// byte that is no digit, with its position.
#[verifier::external_body]
pub(crate) fn decode(text: &str) -> (res: Result<Vec<u8>, HexError>)
    ensures
        match res {
            Ok(bytes) => decoded(text@) == Ok::<Seq<u8>, HexError>(bytes@),
            Err(error) => decoded(text@) == Err::<Seq<u8>, HexError>(error),
        },
{
    match hex::decode(text) {
        Ok(bytes) => Ok(bytes),
        Err(hex::FromHexError::InvalidHexCharacter { c, index }) => {
            Err(HexError::InvalidHexCharacter { c, index })
        },
        Err(hex::FromHexError::OddLength) => Err(HexError::OddLength),
        Err(hex::FromHexError::InvalidStringLength) => Err(HexError::InvalidStringLength),
    }
}

/// `hex::decode_to_slice` on a buffer of 32 bytes: refuses an odd length, then a length other
/// than that of the buffer, and then the first byte that is no digit; the pairs in front of that
/// byte have been written by then, and the rest of the buffer keeps what it held.
#[verifier::external_body]
pub(crate) fn decode_to_slice(text: &str, out: &mut [u8; 32]) -> (res: Result<(), HexError>)
    ensures
        res == decoded_into(text@, 32),
        final(out)@ == overwritten(text@, old(out)@),
{
    match hex::decode_to_slice(text, out) {
        Ok(()) => Ok(()),
        Err(hex::FromHexError::InvalidHexCharacter { c, index }) => {
            Err(HexError::InvalidHexCharacter { c, index })
        },
        Err(hex::FromHexError::OddLength) => Err(HexError::OddLength),
        Err(hex::FromHexError::InvalidStringLength) => Err(HexError::InvalidStringLength),
    }
}

/// `hex::encode`: two lower-case digits for each byte, the higher half first. A text of twice
/// as many bytes has to fit into one allocation, or the call panics.
#[verifier::external_body]
pub(crate) fn encode(bytes: &[u8]) -> (text: String)
    requires
        2 * bytes@.len() <= isize::MAX,
    ensures
        text@ == encoded(bytes@),
{
    hex::encode(bytes)
}

/// How `char`'s `Debug` writes a character, between single quotes and escaped where it has no
/// printable form of its own.
pub uninterp spec fn quoted(c: char) -> Seq<char>;

/// Whether `c` is a printable ASCII character that needs no escape between single quotes.
pub open spec fn is_plain(c: char) -> bool {
    ' ' <= c <= '~' && c != '\'' && c != '\\'
}

/// The wording of a complaint about the character that `quote` shows.
pub open spec fn character_wording(quote: Seq<char>, index: usize) -> Seq<char> {
    "Invalid character "@ + quote + " at position "@ + index::decimal_text(index as nat)
}

/// The wording of a complaint about hexadecimal text.
pub open spec fn wording(error: HexError) -> Seq<char> {
    match error {
        HexError::InvalidHexCharacter { c, index } => if is_plain(c) {
            character_wording(seq!['\'', c, '\''], index)
        } else {
            character_wording(quoted(c), index)
        },
        HexError::OddLength => "Odd number of digits"@,
        HexError::InvalidStringLength => "Invalid string length"@,
    }
}

/// The `Display` form of `hex::FromHexError`: a fixed text for each error, which for an invalid
/// character quotes it as `char`'s `Debug` does and gives its position in decimal. A printable
/// ASCII character other than the quote and the backslash stands as it is between the quotes;
/// how the others are escaped is not spelled out.
#[verifier::external_body]
pub(crate) fn fault_text(error: HexError) -> (text: String)
    ensures
        match error {
            HexError::InvalidHexCharacter { c, index } => {
                &&& text@ == character_wording(quoted(c), index)
                &&& is_plain(c) ==> text@ == character_wording(seq!['\'', c, '\''], index)
            },
            HexError::OddLength => text@ == "Odd number of digits"@,
            HexError::InvalidStringLength => text@ == "Invalid string length"@,
        },
{
    match error {
        HexError::InvalidHexCharacter { c, index } => {
            hex::FromHexError::InvalidHexCharacter { c, index }.to_string()
        },
        HexError::OddLength => hex::FromHexError::OddLength.to_string(),
        HexError::InvalidStringLength => hex::FromHexError::InvalidStringLength.to_string(),
    }
}

/// Text made of digits alone has no first fault.
proof fn lemma_all_digits(text: Seq<u8>)
    requires
        forall|i: int| 0 <= i < text.len() ==> digit_value(#[trigger] text[i]) is Some,
    ensures
        leading_digits(text) == text.len(),
    decreases text.len(),
{
    if text.len() > 0 {
        lemma_all_digits(text.drop_first());
    }
}

/// The digit for a value below sixteen is an ASCII character that has this value.
proof fn lemma_digit(value: int)
    requires
        0 <= value < 16,
    ensures
        (digit_char(value) as nat) < 128,
        digit_value(digit_char(value) as u8) == Some(value),
{
}

/// The UTF-8 bytes of a hexadecimal text, one for each digit.
proof fn lemma_encoded_bytes(bytes: Seq<u8>)
    ensures
        ({
            let text = vstd::utf8::encode_utf8(encoded(bytes));
            &&& text.len() == 2 * bytes.len()
            &&& forall|i: int|
                0 <= i < bytes.len() ==> {
                    &&& digit_value(#[trigger] text[2 * i]) == Some((bytes[i] / 16) as int)
                    &&& digit_value(text[2 * i + 1]) == Some((bytes[i] % 16) as int)
                }
            &&& forall|i: int|
                0 <= i < text.len() ==> digit_value(#[trigger] text[i]) is Some
        }),
{
    let chars = encoded(bytes);
    assert forall|i: int| 0 <= i < chars.len() implies {
        &&& (#[trigger] chars[i] as nat) < 128
        &&& digit_value(chars[i] as u8) == Some(
            if i % 2 == 0 { (bytes[i / 2] / 16) as int } else { (bytes[i / 2] % 16) as int },
        )
    } by {
        lemma_digit((bytes[i / 2] / 16) as int);
        lemma_digit((bytes[i / 2] % 16) as int);
    }
    assert(vstd::utf8::is_ascii_chars(chars));
    vstd::utf8::is_ascii_chars_encode_utf8(chars);
    let text = vstd::utf8::encode_utf8(chars);
    assert forall|i: int| 0 <= i < bytes.len() implies {
        &&& digit_value(#[trigger] text[2 * i]) == Some((bytes[i] / 16) as int)
        &&& digit_value(text[2 * i + 1]) == Some((bytes[i] % 16) as int)
    } by {
        assert(text[2 * i] == chars[2 * i] as u8);
        assert(text[2 * i + 1] == chars[2 * i + 1] as u8);
    }
    assert forall|i: int| 0 <= i < text.len() implies digit_value(#[trigger] text[i]) is Some by {
        assert(text[i] == chars[i] as u8);
    }
}

/// Law: decoding the hexadecimal text of any bytes gives these bytes back.
pub proof fn law_decode_of_encode(bytes: Seq<u8>)
    ensures
        decoded(encoded(bytes)) == Ok::<Seq<u8>, HexError>(bytes),
{
    let text = vstd::utf8::encode_utf8(encoded(bytes));
    lemma_encoded_bytes(bytes);
    lemma_all_digits(text);
    let back = Seq::new(text.len() / 2, |i: int| pair_value(text, i));
    assert(back =~= bytes) by {
        assert forall|i: int| 0 <= i < bytes.len() implies back[i] == bytes[i] by {
            let _ = text[2 * i];
        }
    }
}

/// Law: decoding the hexadecimal text of any bytes into a buffer of their number succeeds and
/// leaves exactly these bytes in it, whatever it held.
pub proof fn law_overwrite_of_encode(bytes: Seq<u8>, before: Seq<u8>)
    requires
        before.len() == bytes.len(),
    ensures
        decoded_into(encoded(bytes), bytes.len()) == Ok::<(), HexError>(()),
        overwritten(encoded(bytes), before) == bytes,
{
    let text = vstd::utf8::encode_utf8(encoded(bytes));
    lemma_encoded_bytes(bytes);
    lemma_all_digits(text);
    let after = overwritten(encoded(bytes), before);
    assert(after =~= bytes) by {
        assert forall|i: int| 0 <= i < bytes.len() implies after[i] == bytes[i] by {
            let _ = text[2 * i];
        }
    }
}

/// Whether `text` is made of decimal digits and the letters from `a` to `f`.
pub open spec fn is_lower_case(text: Seq<char>) -> bool {
    forall|i: int|
        0 <= i < text.len() ==> {
            ||| '0' <= #[trigger] text[i] <= '9'
            ||| 'a' <= text[i] <= 'f'
        }
}

/// Law: hexadecimal text has two digits for each byte, all in lower case.
pub proof fn law_encoded_text(bytes: Seq<u8>)
    ensures
        encoded(bytes).len() == 2 * bytes.len(),
        is_lower_case(encoded(bytes)),
{
}

} // verus!

//! Why an operation failed.

use crate::hexadecimal;
use crate::hexadecimal::HexError;
use crate::index;
use crate::index::IndexError;
use vstd::prelude::*;

verus! {

/// Why an operation failed. `E` is an error that an outside party reported: the account
/// provider, the key image computer, the signer or the decoder of a binary message.
#[derive(Clone, PartialEq, Debug)]
pub enum OperationError<E> {
    /// The account provider gave no keys.
    AccountLoad(E),
    /// There is no key image for an output.
    KeyImage(E),
    /// The transaction could not be signed.
    Sign(E),
    /// The unsigned transaction in a proposal is not hexadecimal.
    UnsignedTxHex(HexError),
    /// The unsigned transaction in a proposal is no such message.
    UnsignedTxProto(E),
    /// The unsigned transaction in a proposal is malformed.
    UnsignedTxConvert(E),
    /// An output in a proposal is not hexadecimal.
    TxOutHex(HexError),
    /// An output in a proposal is no such message.
    TxOutProto(E),
    /// A subaddress index in a proposal is no number of 64 bits.
    SubaddressIndex(IndexError),
    /// The public key of an output in a proposal is no point of the curve.
    TxOutPublicKey(E),
    /// The name of the output file does not end in a supported extension.
    UnsupportedFormat,
}

impl<E> OperationError<E> {
    /// How the message about this error begins.
    pub open spec fn opening(self) -> Seq<char> {
        match self {
            OperationError::AccountLoad(_) => "Failed to load view account keys: "@,
            OperationError::KeyImage(_) => "Failed to compute key image: "@,
            OperationError::Sign(_) => "Failed to sign transaction: "@,
            OperationError::UnsignedTxHex(_) => "Failed to decode unsigned_tx_proto_bytes_hex: "@,
            OperationError::UnsignedTxProto(_) => "Failed to decode UnsignedTx protobuf: "@,
            OperationError::UnsignedTxConvert(_) => "Failed to convert UnsignedTx: "@,
            OperationError::TxOutHex(_) => "Failed to decode tx_out_proto: "@,
            OperationError::TxOutProto(_) => "Failed to decode TxOut protobuf: "@,
            OperationError::SubaddressIndex(_) => "Invalid subaddress_index: "@,
            OperationError::TxOutPublicKey(_) => "Invalid tx_out public key: "@,
            OperationError::UnsupportedFormat => "unsupported output file format"@,
        }
    }

    /// What the message about this error goes on with: the wording of the fault that was found
    /// here, or else `outside`, that of the error reported from outside.
    pub open spec fn detail(self, outside: Seq<char>) -> Seq<char> {
        match self {
            OperationError::UnsignedTxHex(fault) => hexadecimal::wording(fault),
            OperationError::TxOutHex(fault) => hexadecimal::wording(fault),
            OperationError::SubaddressIndex(fault) => fault.wording(),
            OperationError::UnsupportedFormat => Seq::empty(),
            _ => outside,
        }
    }

    /// The message about this error. `outside` is the wording of the error that was reported
    /// from outside, and is left out where there is none.
    pub fn message(&self, outside: &str) -> (text: String)
        ensures
            text@ == self.opening() + self.detail(outside@),
    {
        let opening: &str = match self {
            OperationError::AccountLoad(_) => "Failed to load view account keys: ",
            OperationError::KeyImage(_) => "Failed to compute key image: ",
            OperationError::Sign(_) => "Failed to sign transaction: ",
            OperationError::UnsignedTxHex(_) => "Failed to decode unsigned_tx_proto_bytes_hex: ",
            OperationError::UnsignedTxProto(_) => "Failed to decode UnsignedTx protobuf: ",
            OperationError::UnsignedTxConvert(_) => "Failed to convert UnsignedTx: ",
            OperationError::TxOutHex(_) => "Failed to decode tx_out_proto: ",
            OperationError::TxOutProto(_) => "Failed to decode TxOut protobuf: ",
            OperationError::SubaddressIndex(_) => "Invalid subaddress_index: ",
            OperationError::TxOutPublicKey(_) => "Invalid tx_out public key: ",
            OperationError::UnsupportedFormat => "unsupported output file format",
        };
        let mut text: String = opening.to_owned();
        match self {
            OperationError::UnsignedTxHex(fault) => {
                text.append(hexadecimal::fault_text(*fault).as_str())
            },
            OperationError::TxOutHex(fault) => {
                text.append(hexadecimal::fault_text(*fault).as_str())
            },
            OperationError::SubaddressIndex(fault) => text.append(fault.text()),
            OperationError::UnsupportedFormat => {
                assert(self.opening() + Seq::<char>::empty() =~= self.opening());
            },
            _ => text.append(outside),
        }
        text
    }
}

/// Law: the message about an error that was reported from outside says what failed and ends in
/// the wording of this error, whole and unchanged.
pub proof fn law_outside_messages<E>(error: OperationError<E>, outside: &str, text: String)
    requires
        call_ensures(OperationError::<E>::message, (&error, outside), text),
    ensures
        error is AccountLoad ==> text@ == "Failed to load view account keys: "@ + outside@,
        error is KeyImage ==> text@ == "Failed to compute key image: "@ + outside@,
        error is Sign ==> text@ == "Failed to sign transaction: "@ + outside@,
        error is UnsignedTxProto ==> text@ == "Failed to decode UnsignedTx protobuf: "@ + outside@,
        error is UnsignedTxConvert ==> text@ == "Failed to convert UnsignedTx: "@ + outside@,
        error is TxOutProto ==> text@ == "Failed to decode TxOut protobuf: "@ + outside@,
        error is TxOutPublicKey ==> text@ == "Invalid tx_out public key: "@ + outside@,
{
}

/// Law: the message about a fault that was found here does not depend on any wording from
/// outside: it says what was looked at and what is wrong with it, and of a character that is no
/// digit which one it is and where it stands.
pub proof fn law_own_messages<E>(error: OperationError<E>, outside: &str, text: String)
    requires
        call_ensures(OperationError::<E>::message, (&error, outside), text),
    ensures
        error matches OperationError::UnsignedTxHex(fault) ==> {
            let opening = "Failed to decode unsigned_tx_proto_bytes_hex: "@;
            match fault {
                HexError::InvalidHexCharacter { c, index } => {
                    let place = " at position "@ + index::decimal_text(index as nat);
                    let quote = if hexadecimal::is_plain(c) {
                        seq!['\'', c, '\'']
                    } else {
                        hexadecimal::quoted(c)
                    };
                    text@ == opening + ("Invalid character "@ + quote + place)
                },
                HexError::OddLength => text@ == opening + "Odd number of digits"@,
                HexError::InvalidStringLength => text@ == opening + "Invalid string length"@,
            }
        },
        error matches OperationError::TxOutHex(fault) ==> {
            let opening = "Failed to decode tx_out_proto: "@;
            match fault {
                HexError::InvalidHexCharacter { c, index } => {
                    let place = " at position "@ + index::decimal_text(index as nat);
                    let quote = if hexadecimal::is_plain(c) {
                        seq!['\'', c, '\'']
                    } else {
                        hexadecimal::quoted(c)
                    };
                    text@ == opening + ("Invalid character "@ + quote + place)
                },
                HexError::OddLength => text@ == opening + "Odd number of digits"@,
                HexError::InvalidStringLength => text@ == opening + "Invalid string length"@,
            }
        },
        error matches OperationError::SubaddressIndex(fault) ==> {
            let opening = "Invalid subaddress_index: "@;
            match fault {
                IndexError::Empty => text@ == opening + "cannot parse integer from empty string"@,
                IndexError::InvalidDigit => text@ == opening + "invalid digit found in string"@,
                IndexError::PosOverflow => text@ == opening
                    + "number too large to fit in target type"@,
            }
        },
        error is UnsupportedFormat ==> text@ == "unsupported output file format"@,
{
    match error {
        OperationError::UnsignedTxHex(HexError::InvalidHexCharacter { c, index }) => {
            lemma_character_wording(c, index);
        },
        OperationError::TxOutHex(HexError::InvalidHexCharacter { c, index }) => {
            lemma_character_wording(c, index);
        },
        OperationError::UnsupportedFormat => {
            assert(error.opening() + Seq::<char>::empty() =~= error.opening());
        },
        _ => {},
    }
}

/// The complaint about a character, with its two halves taken together.
proof fn lemma_character_wording(c: char, index: usize)
    ensures
        ({
            let place = " at position "@ + index::decimal_text(index as nat);
            &&& hexadecimal::is_plain(c) ==> hexadecimal::wording(
                HexError::InvalidHexCharacter { c, index },
            ) == "Invalid character "@ + seq!['\'', c, '\''] + place
            &&& !hexadecimal::is_plain(c) ==> hexadecimal::wording(
                HexError::InvalidHexCharacter { c, index },
            ) == "Invalid character "@ + hexadecimal::quoted(c) + place
        }),
{
    let place = " at position "@ + index::decimal_text(index as nat);
    assert(hexadecimal::character_wording(seq!['\'', c, '\''], index) =~= "Invalid character "@
        + seq!['\'', c, '\''] + place);
    assert(hexadecimal::character_wording(hexadecimal::quoted(c), index) =~= "Invalid character "@
        + hexadecimal::quoted(c) + place);
}

} // verus!

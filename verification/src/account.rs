//! Accounts: the private keys that a signer reads, and the file that imports the account into
//! a wallet.

use crate::hexadecimal;
use crate::types::{RootSpendPrivate, RootSpendPublic, RootViewPrivate};
use vstd::prelude::*;

verus! {

/// The private keys of an account, in hexadecimal.
#[derive(Clone, PartialEq, Debug)]
pub struct AccountPrivateKeys {
    /// The key that spends.
    pub spend_private_key: String,
    /// The key that finds the account's outputs.
    pub view_private_key: String,
}

/// The private keys of an account.
#[derive(Clone, Copy, PartialEq, Eq, Debug)]
pub struct Account {
    /// The key that finds the account's outputs.
    pub view_private: RootViewPrivate,
    /// The key that spends.
    pub spend_private: RootSpendPrivate,
}

/// An account without the key that spends, for import into a wallet.
#[derive(Clone, PartialEq, Debug)]
pub struct AccountImport {
    /// The name of the account.
    pub name: Option<String>,
    /// The key that others pay to, in hexadecimal.
    pub spend_public_key: String,
    /// The key that finds the account's outputs, in hexadecimal.
    pub view_private_key: String,
}

/// The file form of an account for import.
#[derive(Clone, PartialEq, Debug)]
pub struct AccountImportFile {
    /// The account.
    pub params: AccountImport,
}

/// The bytes of the key that `text` holds: those of the digit pairs in front of the first byte
/// that is no digit, and zeros from there on; zeros alone if there are not 64 bytes of text.
pub open spec fn key_bytes(text: Seq<char>) -> Seq<u8> {
    hexadecimal::overwritten(text, Seq::new(32, |i: int| 0u8))
}

/// Reads a key of 32 bytes.
fn read_key(text: &str) -> (bytes: [u8; 32])
    ensures
        bytes@ == key_bytes(text@),
{
    let mut bytes: [u8; 32] = [0u8; 32];
    assert(bytes@ =~= Seq::new(32, |i: int| 0u8));
    let _ = hexadecimal::decode_to_slice(text, &mut bytes);
    bytes
}

/// Reads the private keys of an account. Text that is no key of 32 bytes is not reported: the
/// bytes that could not be read are zero. The bytes of a key need not be those of a scalar: who
/// builds keys from them has to check that, and to refuse them otherwise.
pub fn account_from_private_keys(account_private_keys: AccountPrivateKeys) -> (account: Account)
    ensures
        account.spend_private.0@ == key_bytes(account_private_keys.spend_private_key@),
        account.view_private.0@ == key_bytes(account_private_keys.view_private_key@),
{
    let spend_bytes = read_key(account_private_keys.spend_private_key.as_str());
    let view_bytes = read_key(account_private_keys.view_private_key.as_str());
    Account {
        view_private: RootViewPrivate(view_bytes),
        spend_private: RootSpendPrivate(spend_bytes),
    }
}

impl AccountImportFile {
    /// The file that imports the account with the given keys under the given name.
    pub fn new(
        name: Option<String>,
        spend_public: &RootSpendPublic,
        view_private: &RootViewPrivate,
    ) -> (file: AccountImportFile)
        ensures
            file.params.name == name,
            file.params.spend_public_key@ == hexadecimal::encoded(spend_public.0@),
            file.params.view_private_key@ == hexadecimal::encoded(view_private.0@),
    {
        AccountImportFile {
            params: AccountImport {
                name,
                spend_public_key: hexadecimal::encode(spend_public.0.as_slice()),
                view_private_key: hexadecimal::encode(view_private.0.as_slice()),
            },
        }
    }
}

/// Law: the hexadecimal text of a key is read back as this key.
pub proof fn law_keys_read_back(bytes: Seq<u8>)
    requires
        bytes.len() == 32,
    ensures
        key_bytes(hexadecimal::encoded(bytes)) == bytes,
{
    hexadecimal::law_overwrite_of_encode(bytes, Seq::new(32, |i: int| 0u8));
}

/// Law: each private key of an account comes from its own text, and the file for an account
/// holds each key in its own place. Keys that were written in hexadecimal are read back as they
/// were, the one that spends and the one that views apart.
pub proof fn law_accounts_read_back(
    spend: Seq<u8>,
    view: Seq<u8>,
    keys: AccountPrivateKeys,
    account: Account,
)
    requires
        spend.len() == 32,
        view.len() == 32,
        keys.spend_private_key@ == hexadecimal::encoded(spend),
        keys.view_private_key@ == hexadecimal::encoded(view),
        call_ensures(account_from_private_keys, (keys,), account),
    ensures
        account.spend_private.0@ == spend,
        account.view_private.0@ == view,
{
    law_keys_read_back(spend);
    law_keys_read_back(view);
}

/// Law: text of 32 bytes in hexadecimal, in either case, is read as these bytes; text of any
/// other length is read as zeros; and of text of the right length with a fault in it the bytes
/// in front of the fault are read, and the rest is zeros.
pub proof fn law_key_text(keys: AccountPrivateKeys, account: Account)
    requires
        call_ensures(account_from_private_keys, (keys,), account),
    ensures
        hexadecimal::decoded(keys.spend_private_key@) matches Ok(bytes) ==> bytes.len() == 32
            ==> account.spend_private.0@ == bytes,
        hexadecimal::decoded(keys.view_private_key@) matches Ok(bytes) ==> bytes.len() == 32
            ==> account.view_private.0@ == bytes,
        forall|i: int|
            #![trigger account.spend_private.0@[i]]
            0 <= i < 32 ==> {
                let text = vstd::utf8::encode_utf8(keys.spend_private_key@);
                account.spend_private.0@[i] == if text.len() == 64 && 2 * i + 1
                    < hexadecimal::leading_digits(text) {
                    hexadecimal::pair_value(text, i)
                } else {
                    0
                }
            },
        forall|i: int|
            #![trigger account.view_private.0@[i]]
            0 <= i < 32 ==> {
                let text = vstd::utf8::encode_utf8(keys.view_private_key@);
                account.view_private.0@[i] == if text.len() == 64 && 2 * i + 1
                    < hexadecimal::leading_digits(text) {
                    hexadecimal::pair_value(text, i)
                } else {
                    0
                }
            },
{
    lemma_whole_key(keys.spend_private_key@);
    lemma_whole_key(keys.view_private_key@);
}

/// A key whose text is hexadecimal throughout.
proof fn lemma_whole_key(text: Seq<char>)
    ensures
        hexadecimal::decoded(text) matches Ok(bytes) ==> bytes.len() == 32 ==> key_bytes(text)
            == bytes,
{
    if let Ok(bytes) = hexadecimal::decoded(text) {
        if bytes.len() == 32 {
            assert(key_bytes(text) =~= bytes);
        }
    }
}

/// Law: the file that imports an account holds the name as it was given, and texts that are
/// read back as the two keys, each in its own place, in lower case.
pub proof fn law_import_file(
    name: Option<String>,
    spend_public: RootSpendPublic,
    view_private: RootViewPrivate,
    file: AccountImportFile,
)
    requires
        call_ensures(AccountImportFile::new, (name, &spend_public, &view_private), file),
    ensures
        file.params.name == name,
        hexadecimal::decoded(file.params.spend_public_key@) == Ok::<_, hexadecimal::HexError>(
            spend_public.0@,
        ),
        hexadecimal::decoded(file.params.view_private_key@) == Ok::<_, hexadecimal::HexError>(
            view_private.0@,
        ),
        hexadecimal::is_lower_case(file.params.spend_public_key@),
        hexadecimal::is_lower_case(file.params.view_private_key@),
{
    hexadecimal::law_decode_of_encode(spend_public.0@);
    hexadecimal::law_decode_of_encode(view_private.0@);
    hexadecimal::law_encoded_text(spend_public.0@);
    hexadecimal::law_encoded_text(view_private.0@);
}

} // verus!

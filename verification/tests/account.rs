use mc_transaction_signer::account::{
    account_from_private_keys, AccountImport, AccountImportFile, AccountPrivateKeys,
};
use mc_transaction_signer::types::{RootSpendPublic, RootViewPrivate};

fn read(text: &str) -> [u8; 32] {
    let account = account_from_private_keys(AccountPrivateKeys {
        spend_private_key: String::from(text),
        view_private_key: String::new(),
    });
    assert_eq!(account.view_private.0, [0u8; 32]);
    account.spend_private.0
}

fn counting() -> [u8; 32] {
    let mut bytes = [0u8; 32];
    for i in 0..32 {
        bytes[i] = (8 * i) as u8;
    }
    bytes
}

const COUNTING: &str = "0008101820283038404850586068707880889098a0a8b0b8c0c8d0d8e0e8f0f8";

#[test]
fn keys_are_read_in_either_case() {
    assert_eq!(read(COUNTING), counting());
    assert_eq!(read(&COUNTING.to_uppercase()), counting());
}

#[test]
fn spend_and_view_keys_are_told_apart() {
    let account = account_from_private_keys(AccountPrivateKeys {
        spend_private_key: "01".repeat(32),
        view_private_key: "2f".repeat(32),
    });
    assert_eq!(account.spend_private.0, [1u8; 32]);
    assert_eq!(account.view_private.0, [0x2fu8; 32]);
}

#[test]
fn keys_of_the_wrong_length_are_zero() {
    assert_eq!(read(""), [0u8; 32]);
    assert_eq!(read(&"f".repeat(63)), [0u8; 32]);
    assert_eq!(read(&"f".repeat(62)), [0u8; 32]);
    assert_eq!(read(&"f".repeat(66)), [0u8; 32]);
}

#[test]
fn keys_are_read_up_to_the_first_fault() {
    let mut text = "ff".repeat(32);
    text.replace_range(7..8, "x");
    let mut expected = [0u8; 32];
    expected[0] = 0xff;
    expected[1] = 0xff;
    expected[2] = 0xff;
    assert_eq!(read(&text), expected);
}

#[test]
fn import_file_holds_lower_case_text() {
    let file = AccountImportFile::new(
        Some(String::from("savings")),
        &RootSpendPublic(counting()),
        &RootViewPrivate([0xabu8; 32]),
    );
    assert_eq!(
        file,
        AccountImportFile {
            params: AccountImport {
                name: Some(String::from("savings")),
                spend_public_key: String::from(COUNTING),
                view_private_key: "ab".repeat(32),
            },
        }
    );
}

#[test]
fn import_file_without_a_name() {
    let file =
        AccountImportFile::new(None, &RootSpendPublic([0u8; 32]), &RootViewPrivate([1u8; 32]));
    assert_eq!(file.params.name, None);
}

#[test]
fn written_keys_are_read_back() {
    let file = AccountImportFile::new(
        None,
        &RootSpendPublic([0u8; 32]),
        &RootViewPrivate(counting()),
    );
    assert_eq!(read(&file.params.view_private_key), counting());
}

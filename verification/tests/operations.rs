use mc_transaction_signer::error::OperationError;
use mc_transaction_signer::files::JsonFile;
use mc_transaction_signer::hexadecimal::HexError;
use mc_transaction_signer::index::IndexError;
use mc_transaction_signer::traits::{KeyImageComputer, ViewAccountProvider};
use mc_transaction_signer::types::{
    AccountInfo, KeyImage, RootSpendPublic, RootViewPrivate, TxOutPublic, TxoSyncReq, TxoSyncResp,
    TxoSynced, TxoUnsynced, ViewAccount,
};
use mc_transaction_signer::Operations;

struct Keys(Result<ViewAccount, u8>);

impl ViewAccountProvider for Keys {
    type Error = u8;

    fn account(&self) -> Result<ViewAccount, u8> {
        self.0
    }
}

struct Images;

impl KeyImageComputer for Images {
    type Error = u64;

    fn compute_key_image(&self, subaddress: u64, key: &TxOutPublic) -> Result<KeyImage, u64> {
        if subaddress >= 100 {
            Err(subaddress)
        } else {
            Ok(KeyImage([key.0[0] + subaddress as u8; 32]))
        }
    }
}

fn account() -> ViewAccount {
    ViewAccount {
        view_private: RootViewPrivate([3u8; 32]),
        spend_public: RootSpendPublic([4u8; 32]),
    }
}

fn txo(subaddress: u64, byte: u8) -> TxoUnsynced {
    TxoUnsynced { subaddress, tx_out_public_key: TxOutPublic([byte; 32]) }
}

fn request(txos: Vec<TxoUnsynced>) -> TxoSyncReq {
    TxoSyncReq { account_id: String::from("me"), txos }
}

fn synced(byte: u8, image: u8) -> TxoSynced {
    TxoSynced { tx_out_public_key: TxOutPublic([byte; 32]), key_image: KeyImage([image; 32]) }
}

#[test]
fn every_command_works_on_the_first_account() {
    let output = String::from("a.json");
    assert_eq!(Operations::GetAccount { output: output.clone() }.account_index(), 0);
    let input = output.clone();
    assert_eq!(Operations::SignTx { input, output }.account_index(), 0);
}

#[test]
fn account_is_written() {
    assert_eq!(
        Operations::get_account(Keys(Ok(account())), 5, "a.json"),
        Ok(JsonFile {
            file_name: String::from("a.json"),
            value: AccountInfo {
                account_index: 5,
                view_private: RootViewPrivate([3u8; 32]),
                spend_public: RootSpendPublic([4u8; 32]),
            },
        })
    );
}

#[test]
fn account_errors_come_before_file_errors() {
    assert_eq!(
        Operations::get_account(Keys(Err(9)), 0, "a.txt"),
        Err(OperationError::AccountLoad(9))
    );
    assert_eq!(
        Operations::get_account(Keys(Ok(account())), 0, "a.txt"),
        Err(OperationError::UnsupportedFormat)
    );
    assert_eq!(
        Operations::account_response(Err(2u8), 0, "a.json"),
        Err(OperationError::AccountLoad(2))
    );
}

#[test]
fn key_images_come_in_the_order_of_the_request() {
    let res = Operations::sync_txos(Images, request(vec![txo(1, 10), txo(0, 20)]), "o.json");
    assert_eq!(
        res,
        Ok(JsonFile {
            file_name: String::from("o.json"),
            value: TxoSyncResp {
                account_id: String::from("me"),
                synced_txos: vec![synced(10, 11), synced(20, 20)],
            },
        })
    );
}

#[test]
fn nothing_to_sync_is_no_error() {
    let res = Operations::sync_txos(Images, request(vec![]), "o.json");
    assert_eq!(res.unwrap().value.synced_txos, vec![]);
}

#[test]
fn first_missing_key_image_ends_the_sync() {
    let txos = vec![txo(1, 10), txo(200, 20), txo(300, 30)];
    assert_eq!(
        Operations::sync_txos(Images, request(txos), "o.txt"),
        Err(OperationError::KeyImage(200))
    );
    assert_eq!(
        Operations::sync_txos(Images, request(vec![txo(1, 10)]), "o.txt"),
        Err(OperationError::UnsupportedFormat)
    );
}

#[test]
fn sync_response_pairs_outputs_and_images() {
    let res: Result<_, OperationError<u8>> = Operations::sync_response(
        request(vec![txo(0, 1), txo(0, 2)]),
        Ok(vec![KeyImage([8u8; 32]), KeyImage([9u8; 32])]),
        "o.json",
    );
    assert_eq!(res.unwrap().value.synced_txos, vec![synced(1, 8), synced(2, 9)]);
    let failed = Operations::sync_response(request(vec![txo(0, 1)]), Err(4u8), "o.json");
    assert_eq!(failed, Err(OperationError::KeyImage(4)));
}

#[test]
fn messages_name_the_failure() {
    let cases: [(OperationError<u8>, &str); 7] = [
        (OperationError::AccountLoad(0), "Failed to load view account keys: why"),
        (OperationError::KeyImage(0), "Failed to compute key image: why"),
        (OperationError::Sign(0), "Failed to sign transaction: why"),
        (OperationError::UnsignedTxProto(0), "Failed to decode UnsignedTx protobuf: why"),
        (OperationError::UnsignedTxConvert(0), "Failed to convert UnsignedTx: why"),
        (OperationError::TxOutProto(0), "Failed to decode TxOut protobuf: why"),
        (OperationError::TxOutPublicKey(0), "Invalid tx_out public key: why"),
    ];
    for (error, text) in cases {
        assert_eq!(error.message("why"), text);
    }
}

#[test]
fn messages_about_faults_found_here_are_complete() {
    let cases: [(OperationError<u8>, &str); 8] = [
        (
            OperationError::UnsignedTxHex(HexError::OddLength),
            "Failed to decode unsigned_tx_proto_bytes_hex: Odd number of digits",
        ),
        (
            OperationError::UnsignedTxHex(HexError::InvalidStringLength),
            "Failed to decode unsigned_tx_proto_bytes_hex: Invalid string length",
        ),
        (
            OperationError::TxOutHex(HexError::InvalidHexCharacter { c: 'g', index: 120 }),
            "Failed to decode tx_out_proto: Invalid character 'g' at position 120",
        ),
        (
            OperationError::TxOutHex(HexError::InvalidHexCharacter { c: '\n', index: 0 }),
            "Failed to decode tx_out_proto: Invalid character '\\n' at position 0",
        ),
        (
            OperationError::SubaddressIndex(IndexError::Empty),
            "Invalid subaddress_index: cannot parse integer from empty string",
        ),
        (
            OperationError::SubaddressIndex(IndexError::InvalidDigit),
            "Invalid subaddress_index: invalid digit found in string",
        ),
        (
            OperationError::SubaddressIndex(IndexError::PosOverflow),
            "Invalid subaddress_index: number too large to fit in target type",
        ),
        (OperationError::UnsupportedFormat, "unsupported output file format"),
    ];
    for (error, text) in cases {
        assert_eq!(error.message("why"), text);
    }
}

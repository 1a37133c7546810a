use mc_transaction_signer::error::OperationError;
use mc_transaction_signer::transaction::{
    Amount, InputRing, PreparationParameters, PresignedInputRing, RingCtError, SignableInputRing,
    SignatureRctBulletproofs, SigningData, TxPrefix, TxSignReq, TxSignSecrets, UnmaskedAmount,
};
use mc_transaction_signer::types::{Blinding, KeyImage, TxOutPublic, TxoSynced};
use mc_transaction_signer::Operations;

type Request = TxSignReq<&'static str, u8, u16>;

fn amount(value: u64) -> Amount {
    Amount { value, token_id: value + 1 }
}

fn signable(first: u8, real_input_index: usize) -> InputRing {
    InputRing::Signable(SignableInputRing {
        members: vec![
            TxOutPublic([first; 32]),
            TxOutPublic([first + 1; 32]),
            TxOutPublic([first + 2; 32]),
        ],
        real_input_index,
        amount: amount(first as u64),
    })
}

fn request(rings: Vec<InputRing>, secrets: TxSignSecrets<u8, u16>) -> Request {
    TxSignReq {
        account_id: String::from("me"),
        block_version: 3,
        tx_prefix: TxPrefix { fee: 400, fee_token_id: 8192, body: "rest" },
        rings,
        secrets,
    }
}

fn plain(rings: Vec<InputRing>) -> Request {
    request(rings, TxSignSecrets::OutputSecrets(vec![1, 2]))
}

fn signature(images: &[u8]) -> SignatureRctBulletproofs<char> {
    SignatureRctBulletproofs {
        key_images: images.iter().map(|byte| KeyImage([*byte; 32])).collect(),
        body: 's',
    }
}

fn prepared(blindings: usize) -> Result<(SigningData<u8>, char, bool), u8> {
    let mut list = Vec::new();
    for i in 0..blindings {
        list.push(Blinding([i as u8; 32]));
    }
    Ok((SigningData { pseudo_output_blindings: list, body: 7 }, 't', true))
}

#[test]
fn fee_comes_from_the_prefix() {
    assert_eq!(plain(vec![]).fee_amount(), Amount { value: 400, token_id: 8192 });
}

#[test]
fn preparation_is_told_version_fee_and_check() {
    assert_eq!(
        plain(vec![]).preparation_parameters(),
        PreparationParameters {
            block_version: 3,
            fee: Amount { value: 400, token_id: 8192 },
            check_value_is_preserved: true,
        }
    );
}

#[test]
fn signing_twice_changes_nothing_but_the_signature() {
    let first: Result<_, u8> = Ok(signature(&[5]));
    let mut other = signature(&[5]);
    other.body = 'r';
    let second: Result<_, u8> = Ok(other);
    let one = Operations::sign_tx(plain(vec![signable(10, 1)]), first, "a.json").unwrap().value;
    let two = Operations::sign_tx(plain(vec![signable(10, 1)]), second, "b.json").unwrap().value;
    assert_eq!(one.account_id, two.account_id);
    assert_eq!(one.tx.prefix, two.tx.prefix);
    assert_eq!(one.txos, two.txos);
    assert_ne!(one.tx.signature, two.tx.signature);
}

#[test]
fn rings_tell_their_amount() {
    assert_eq!(signable(20, 0).amount(), amount(20));
    let ring = InputRing::Presigned(PresignedInputRing { amount: amount(9) });
    assert_eq!(ring.amount(), amount(9));
}

#[test]
fn signed_transaction_names_its_real_inputs() {
    let req = plain(vec![signable(10, 2), signable(20, 0)]);
    let given: Result<_, u8> = Ok(signature(&[5, 6]));
    let file = Operations::sign_tx(req, given, "tx.json").unwrap();
    assert_eq!(file.file_name, "tx.json");
    assert_eq!(file.value.account_id, "me");
    assert_eq!(file.value.tx.prefix.body, "rest");
    assert_eq!(file.value.tx.prefix.fee, 400);
    assert_eq!(file.value.tx.signature, signature(&[5, 6]));
    assert_eq!(file.value.tx.fee_map_digest, Vec::<u8>::new());
    assert_eq!(
        file.value.txos,
        vec![
            TxoSynced { tx_out_public_key: TxOutPublic([12; 32]), key_image: KeyImage([5; 32]) },
            TxoSynced { tx_out_public_key: TxOutPublic([20; 32]), key_image: KeyImage([6; 32]) },
        ]
    );
}

#[test]
fn signing_errors_come_before_file_errors() {
    let failed: Result<SignatureRctBulletproofs<char>, u8> = Err(3);
    assert_eq!(
        Operations::sign_tx(plain(vec![]), failed, "tx.txt"),
        Err(OperationError::Sign(3))
    );
    let given: Result<_, u8> = Ok(signature(&[]));
    assert_eq!(
        Operations::sign_tx(plain(vec![]), given, "tx.txt"),
        Err(OperationError::UnsupportedFormat)
    );
}

#[test]
fn output_secrets_alone_give_no_unblinding_data() {
    let (data, summary, shown, digest) = plain(vec![]).get_signing_data(prepared(4)).unwrap();
    assert_eq!(data.body, 7);
    assert_eq!(data.pseudo_output_blindings.len(), 4);
    assert_eq!((summary, shown, digest), ('t', None, true));
}

#[test]
fn unblinding_data_pairs_amounts_and_blindings() {
    let rings = vec![
        signable(10, 0),
        InputRing::Presigned(PresignedInputRing { amount: amount(30) }),
    ];
    let req = request(rings, TxSignSecrets::TxOutUnblindingData(vec![70, 80]));
    let (data, _, shown, _) = req.get_signing_data(prepared(2)).unwrap();
    let shown = shown.unwrap();
    assert_eq!(data.pseudo_output_blindings.len(), 2);
    assert_eq!(shown.block_version, 3);
    assert_eq!(shown.outputs, vec![70, 80]);
    assert_eq!(
        shown.inputs,
        vec![
            UnmaskedAmount { value: 10, token_id: 11, blinding: Blinding([0; 32]) },
            UnmaskedAmount { value: 30, token_id: 31, blinding: Blinding([1; 32]) },
        ]
    );
}

#[test]
fn blindings_have_to_match_the_rings() {
    let req = request(vec![signable(1, 1)], TxSignSecrets::TxOutUnblindingData(vec![]));
    assert_eq!(req.get_signing_data(prepared(3)), Err(RingCtError::LengthMismatch(3, 1)));
}

#[test]
fn failed_preparation_is_passed_on() {
    let failed: Result<(SigningData<u8>, char, bool), u8> = Err(6);
    let req = request(vec![signable(1, 1)], TxSignSecrets::TxOutUnblindingData(vec![]));
    assert_eq!(req.get_signing_data(failed), Err(RingCtError::Preparation(6)));
}

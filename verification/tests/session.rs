use mc_transaction_signer::error::OperationError;
use mc_transaction_signer::hexadecimal::HexError;
use mc_transaction_signer::index::IndexError;
use mc_transaction_signer::proposal::{
    InputTxoJson, OutputJson, UnsignedInputTxo, UnsignedTxProposal, UnsignedTxProposalWrapper,
};
use mc_transaction_signer::session::{Progress, SigningAction, SigningEvent, SigningSession};
use mc_transaction_signer::types::KeyImage;
use mc_transaction_signer::Operations;

type Step = Result<Progress<u16, char>, OperationError<u8>>;
type Event = SigningEvent<u8>;

fn input(tx_out_proto: &str, subaddress_index: &str, amount: u16) -> UnsignedInputTxo<u16> {
    UnsignedInputTxo {
        tx_out_proto: String::from(tx_out_proto),
        tx_out_public_key: String::from("key"),
        subaddress_index: String::from(subaddress_index),
        amount,
    }
}

fn begin(unsigned_tx: &str, inputs: Vec<UnsignedInputTxo<u16>>, output: &str) -> Step {
    Operations::sign_unsigned_tx(
        UnsignedTxProposalWrapper {
            unsigned_tx_proposal: UnsignedTxProposal {
                unsigned_tx_proto_bytes_hex: String::from(unsigned_tx),
                unsigned_input_txos: inputs,
                payload_txos: vec!['p', 'q'],
                change_txos: vec!['c'],
            },
        },
        output,
    )
}

fn expect(step: Step, wanted: SigningAction) -> SigningSession<u16, char> {
    match step {
        Ok(Progress::Continue(session, action)) => {
            assert_eq!(action, wanted);
            session
        }
        other => panic!("{:?}", other),
    }
}

fn finished(step: Step) -> OutputJson<u16, char> {
    match step {
        Ok(Progress::Done(file)) => {
            assert_eq!(file.file_name, "signed.json");
            file.value
        }
        other => panic!("{:?}", other),
    }
}

fn error(step: Step) -> OperationError<u8> {
    match step {
        Err(error) => error,
        other => panic!("{:?}", other),
    }
}

fn at_first_input(inputs: Vec<UnsignedInputTxo<u16>>) -> Step {
    let session = expect(
        begin("", inputs, "signed.json"),
        SigningAction::DecodeUnsignedTx { bytes: vec![] },
    );
    session.advance(Event::UnsignedTxDecoded)
}

fn index_error(text: &str) -> IndexError {
    let session = expect(
        at_first_input(vec![input("ff", text, 1)]),
        SigningAction::DecodeTxOut { bytes: vec![0xff] },
    );
    match error(session.advance(Event::TxOutDecoded)) {
        OperationError::SubaddressIndex(kind) => kind,
        other => panic!("{:?}", other),
    }
}

fn index_of(text: &str) -> u64 {
    let session = expect(
        at_first_input(vec![input("ff", text, 1)]),
        SigningAction::DecodeTxOut { bytes: vec![0xff] },
    );
    match session.advance(Event::TxOutDecoded) {
        Ok(Progress::Continue(_, SigningAction::ComputeKeyImage { subaddress_index })) => {
            subaddress_index
        }
        other => panic!("{:?}", other),
    }
}

#[test]
fn proposal_with_two_inputs_gets_signed() {
    let inputs = vec![input("0aFf", "7", 100), input("", "+0018", 200)];
    let session = expect(
        begin("C0ffee", inputs, "signed.json"),
        SigningAction::DecodeUnsignedTx { bytes: vec![0xc0, 0xff, 0xee] },
    );
    let session = expect(
        session.advance(Event::UnsignedTxDecoded),
        SigningAction::DecodeTxOut { bytes: vec![0x0a, 0xff] },
    );
    let session = expect(
        session.advance(Event::TxOutDecoded),
        SigningAction::ComputeKeyImage { subaddress_index: 7 },
    );
    let session = expect(
        session.advance(Event::KeyImageComputed(KeyImage([0xa1; 32]))),
        SigningAction::DecodeTxOut { bytes: vec![] },
    );
    let session = expect(
        session.advance(Event::TxOutDecoded),
        SigningAction::ComputeKeyImage { subaddress_index: 18 },
    );
    let session = expect(
        session.advance(Event::KeyImageComputed(KeyImage([0x0b; 32]))),
        SigningAction::SignTx,
    );
    let signed = finished(session.advance(Event::Signed(vec![0, 15, 16, 255])));
    assert_eq!(signed.method, "sign_tx");
    assert_eq!(signed.jsonrpc, "2.0");
    assert_eq!(signed.id, 1);
    let tx = signed.params.tx_proposal;
    assert_eq!(tx.tx_proto, "000f10ff");
    assert_eq!(tx.payload_txos, vec!['p', 'q']);
    assert_eq!(tx.change_txos, vec!['c']);
    assert_eq!(
        tx.input_txos,
        vec![
            InputTxoJson {
                tx_out_proto: String::from("0aFf"),
                tx_out_public_key: String::from("key"),
                subaddress_index: String::from("7"),
                key_image: "a1".repeat(32),
                amount: 100,
            },
            InputTxoJson {
                tx_out_proto: String::new(),
                tx_out_public_key: String::from("key"),
                subaddress_index: String::from("+0018"),
                key_image: "0b".repeat(32),
                amount: 200,
            },
        ]
    );
}

#[test]
fn proposal_without_inputs_goes_straight_to_the_signature() {
    let session = expect(at_first_input(vec![]), SigningAction::SignTx);
    let signed = finished(session.advance(Event::Signed(vec![1])));
    assert_eq!(signed.params.tx_proposal.tx_proto, "01");
    assert_eq!(signed.params.tx_proposal.input_txos, vec![]);
}

#[test]
fn transaction_that_is_not_hexadecimal_is_refused() {
    assert_eq!(
        error(begin("abc", vec![], "signed.json")),
        OperationError::UnsignedTxHex(HexError::OddLength)
    );
    assert_eq!(
        error(begin("0z!0", vec![], "signed.json")),
        OperationError::UnsignedTxHex(HexError::InvalidHexCharacter { c: 'z', index: 1 })
    );
    assert_eq!(
        error(begin("00\u{e9}", vec![], "signed.json")),
        OperationError::UnsignedTxHex(HexError::InvalidHexCharacter { c: '\u{c3}', index: 2 })
    );
}

#[test]
fn transaction_faults_from_outside_are_passed_on() {
    let wanted = SigningAction::DecodeUnsignedTx { bytes: vec![0] };
    let session = expect(begin("00", vec![], "signed.json"), wanted.clone());
    assert_eq!(
        error(session.advance(Event::UnsignedTxUndecodable(1))),
        OperationError::UnsignedTxProto(1)
    );
    let session = expect(begin("00", vec![], "signed.json"), wanted);
    assert_eq!(
        error(session.advance(Event::UnsignedTxInvalid(2))),
        OperationError::UnsignedTxConvert(2)
    );
}

#[test]
fn input_that_is_not_hexadecimal_ends_the_session() {
    assert_eq!(
        error(at_first_input(vec![input("0", "x", 1)])),
        OperationError::TxOutHex(HexError::OddLength)
    );
    let session = expect(
        at_first_input(vec![input("00", "1", 1), input("0g", "x", 1)]),
        SigningAction::DecodeTxOut { bytes: vec![0] },
    );
    let session = expect(
        session.advance(Event::TxOutDecoded),
        SigningAction::ComputeKeyImage { subaddress_index: 1 },
    );
    assert_eq!(
        error(session.advance(Event::KeyImageComputed(KeyImage([0; 32])))),
        OperationError::TxOutHex(HexError::InvalidHexCharacter { c: 'g', index: 1 })
    );
}

#[test]
fn input_faults_from_outside_are_passed_on() {
    let wanted = SigningAction::DecodeTxOut { bytes: vec![0] };
    let session = expect(at_first_input(vec![input("00", "1", 1)]), wanted.clone());
    assert_eq!(
        error(session.advance(Event::TxOutUndecodable(4))),
        OperationError::TxOutProto(4)
    );
    let session = expect(at_first_input(vec![input("00", "1", 1)]), wanted);
    let session = expect(
        session.advance(Event::TxOutDecoded),
        SigningAction::ComputeKeyImage { subaddress_index: 1 },
    );
    assert_eq!(
        error(session.advance(Event::PublicKeyInvalid(5))),
        OperationError::TxOutPublicKey(5)
    );
}

#[test]
fn subaddress_indices_are_decimal_numbers() {
    assert_eq!(index_of("0"), 0);
    assert_eq!(index_of("+42"), 42);
    assert_eq!(index_of("000000000000000000000000001"), 1);
    assert_eq!(index_of("18446744073709551615"), u64::MAX);
}

#[test]
fn other_subaddress_indices_are_refused() {
    assert_eq!(index_error(""), IndexError::Empty);
    for text in ["+", "-1", " 1", "1_0", "0x1", "1.0", "++1"] {
        assert_eq!(index_error(text), IndexError::InvalidDigit);
    }
    assert_eq!(index_error("18446744073709551616"), IndexError::PosOverflow);
    assert_eq!(index_error("+99999999999999999999"), IndexError::PosOverflow);
    assert_eq!(index_error("1844674407370955161x"), IndexError::InvalidDigit);
    assert_eq!(IndexError::Empty.text(), "cannot parse integer from empty string");
    assert_eq!(IndexError::InvalidDigit.text(), "invalid digit found in string");
    assert_eq!(IndexError::PosOverflow.text(), "number too large to fit in target type");
    for (kind, text) in [
        (IndexError::Empty, ""),
        (IndexError::InvalidDigit, "x"),
        (IndexError::PosOverflow, "99999999999999999999"),
    ] {
        assert_eq!(text.parse::<u64>().unwrap_err().to_string(), kind.text());
    }
}

#[test]
fn signing_errors_are_passed_on() {
    let session = expect(at_first_input(vec![]), SigningAction::SignTx);
    assert_eq!(error(session.advance(Event::SigningFailed(6))), OperationError::Sign(6));
}

#[test]
fn output_file_is_looked_at_last() {
    let session = expect(
        begin("00", vec![], "signed.txt"),
        SigningAction::DecodeUnsignedTx { bytes: vec![0] },
    );
    let session = expect(session.advance(Event::UnsignedTxDecoded), SigningAction::SignTx);
    assert_eq!(
        error(session.advance(Event::Signed(vec![]))),
        OperationError::UnsupportedFormat
    );
}

#[test]
fn sessions_take_two_events_for_each_input_and_two_more() {
    for n in 0..4 {
        let mut inputs = Vec::new();
        for i in 0..n {
            inputs.push(input("00", "1", i));
        }
        let mut step = begin("00", inputs, "signed.json");
        let mut events = 0;
        while let Ok(Progress::Continue(session, action)) = step {
            events += 1;
            step = session.advance(match action {
                SigningAction::DecodeUnsignedTx { .. } => Event::UnsignedTxDecoded,
                SigningAction::DecodeTxOut { .. } => Event::TxOutDecoded,
                SigningAction::ComputeKeyImage { .. } => {
                    Event::KeyImageComputed(KeyImage([events as u8; 32]))
                }
                SigningAction::SignTx => Event::Signed(vec![9]),
            });
        }
        assert_eq!(events, 2 * n + 2);
        assert_eq!(finished(step).params.tx_proposal.input_txos.len(), n as usize);
    }
}

#[test]
fn signing_does_not_depend_on_the_listed_inputs() {
    let with_inputs = || {
        let session = expect(
            at_first_input(vec![input("00", "1", 1)]),
            SigningAction::DecodeTxOut { bytes: vec![0] },
        );
        let session = expect(
            session.advance(Event::TxOutDecoded),
            SigningAction::ComputeKeyImage { subaddress_index: 1 },
        );
        session.advance(Event::KeyImageComputed(KeyImage([2; 32])))
    };
    let listed = expect(with_inputs(), SigningAction::SignTx);
    let bare = expect(at_first_input(vec![]), SigningAction::SignTx);
    let mut listed = finished(listed.advance(Event::Signed(vec![7])));
    assert_eq!(listed.params.tx_proposal.input_txos.len(), 1);
    listed.params.tx_proposal.input_txos = vec![];
    assert_eq!(finished(bare.advance(Event::Signed(vec![7]))), listed);
}

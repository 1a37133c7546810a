//! Signing a transaction proposal, step by step.
//!
//! The cryptography is done elsewhere. A session says what is to be done next, takes the
//! outcome as an event, and ends with the signed proposal or with an error.

use crate::error::OperationError;
use crate::files;
use crate::files::JsonFile;
use crate::hexadecimal;
use crate::index;
use crate::proposal::{
    InputModel, InputTxoJson, OutputJson, OutputModel, ProposalModel, SignedInputModel,
    SignedTxProposalJson, SignedTxProposalResult, UnsignedTxProposal,
};
use crate::types::KeyImage;
use vstd::prelude::*;

verus! {

/// What a session waits for.
#[derive(Clone, Copy, PartialEq, Eq, Debug, Structural)]
pub enum Stage {
    /// The decoding of the unsigned transaction.
    UnsignedTx,
    /// The decoding of the output that the next input spends.
    TxOut,
    /// The key image of this output.
    KeyImage,
    /// The signature.
    Signature,
}

/// What has to be done for a session to go on.
#[derive(Clone, PartialEq, Eq, Debug)]
pub enum SigningAction {
    /// Decode the unsigned transaction from these bytes.
    DecodeUnsignedTx {
        /// The binary message.
        bytes: Vec<u8>,
    },
    /// Decode the output that the next input spends from these bytes.
    DecodeTxOut {
        /// The binary message.
        bytes: Vec<u8>,
    },
    /// Compute the key image of the output decoded last.
    ComputeKeyImage {
        /// The index of the subaddress that received the output.
        subaddress_index: u64,
    },
    /// Sign the transaction.
    SignTx,
}

/// What came of an action. `E` is an error of those who performed it.
#[derive(Clone, PartialEq, Debug)]
pub enum SigningEvent<E> {
    /// The unsigned transaction has been decoded.
    UnsignedTxDecoded,
    /// The bytes of the unsigned transaction are no such message.
    UnsignedTxUndecodable(E),
    /// The message of the unsigned transaction is malformed.
    UnsignedTxInvalid(E),
    /// The output has been decoded.
    TxOutDecoded,
    /// The bytes of the output are no such message.
    TxOutUndecodable(E),
    /// The key image has been computed.
    KeyImageComputed(KeyImage),
    /// The public key of the output is no point of the curve.
    PublicKeyInvalid(E),
    /// The transaction has been signed; these are the bytes of its message.
    Signed(Vec<u8>),
    /// The transaction could not be signed.
    SigningFailed(E),
}

/// A proposal that is being signed.
#[derive(Clone, PartialEq, Debug)]
pub struct SigningSession<A, O> {
    proposal: UnsignedTxProposal<A, O>,
    output: String,
    key_images: Vec<KeyImage>,
    stage: Stage,
}

/// How far a session has come.
#[derive(Clone, PartialEq, Debug)]
pub enum Progress<A, O> {
    /// The session goes on with this action.
    Continue(SigningSession<A, O>, SigningAction),
    /// The signed proposal, for the file that it goes to.
    Done(JsonFile<OutputJson<A, O>>),
}

/// The state of a session.
#[verifier::ext_equal]
pub struct SessionModel<A, O> {
    pub proposal: ProposalModel<A, O>,
    pub output: Seq<char>,
    pub key_images: Seq<KeyImage>,
    pub stage: Stage,
}

impl<A, O> View for SigningSession<A, O> {
    type V = SessionModel<A, O>;

    closed spec fn view(&self) -> SessionModel<A, O> {
        SessionModel {
            proposal: self.proposal@,
            output: self.output@,
            key_images: self.key_images@,
            stage: self.stage,
        }
    }
}

/// What a step leads to.
#[verifier::ext_equal]
pub enum Outcome<A, O, E> {
    /// The session goes on in this state.
    Next(SessionModel<A, O>),
    /// The session ends with this signed proposal.
    Signed(OutputModel<A, O>),
    /// The session ends because this text is no subaddress index.
    BadIndex(Seq<char>),
    /// The session ends with this error.
    Failed(OperationError<E>),
}

/// Whether the output that `input` spends is written as hexadecimal text.
pub open spec fn is_hex_input<A>(input: InputModel<A>) -> bool {
    hexadecimal::decoded(input.tx_out_proto) is Ok
}

/// Whether `input` is well-formed.
pub open spec fn is_good_input<A>(input: InputModel<A>) -> bool {
    is_hex_input(input) && index::is_index(input.subaddress_index)
}

impl<A, O> SessionModel<A, O> {
    /// How many inputs have their key image.
    pub open spec fn done(self) -> int {
        self.key_images.len() as int
    }

    /// The input that the session works on.
    pub open spec fn current(self) -> InputModel<A> {
        self.proposal.inputs[self.done()]
    }

    /// The states that a session can be in: the inputs get their key images in order, each
    /// after its fields have proved well-formed, and the signature comes when all have one.
    pub open spec fn wf(self) -> bool {
        &&& hexadecimal::decoded(self.proposal.unsigned_tx) is Ok
        &&& self.done() <= self.proposal.inputs.len()
        &&& forall|i: int|
            0 <= i < self.done() ==> is_good_input(#[trigger] self.proposal.inputs[i])
        &&& match self.stage {
            Stage::UnsignedTx => self.done() == 0,
            Stage::TxOut => {
                &&& self.done() < self.proposal.inputs.len()
                &&& is_hex_input(self.current())
            },
            Stage::KeyImage => {
                &&& self.done() < self.proposal.inputs.len()
                &&& is_good_input(self.current())
            },
            Stage::Signature => self.done() == self.proposal.inputs.len(),
        }
    }

    /// Whether `action` is what the session waits for.
    pub open spec fn asks(self, action: SigningAction) -> bool {
        match (self.stage, action) {
            (Stage::UnsignedTx, SigningAction::DecodeUnsignedTx { bytes }) => {
                hexadecimal::decoded(self.proposal.unsigned_tx) == Ok::<_, hexadecimal::HexError>(
                    bytes@,
                )
            },
            (Stage::TxOut, SigningAction::DecodeTxOut { bytes }) => {
                hexadecimal::decoded(self.current().tx_out_proto) == Ok::<_, hexadecimal::HexError>(
                    bytes@,
                )
            },
            (Stage::KeyImage, SigningAction::ComputeKeyImage { subaddress_index }) => {
                index::denoted(self.current().subaddress_index) == Some(subaddress_index as nat)
            },
            (Stage::Signature, SigningAction::SignTx) => true,
            _ => false,
        }
    }

    /// The state once `key_image` has come in for the current input.
    pub open spec fn with_key_image(self, key_image: KeyImage) -> SessionModel<A, O> {
        SessionModel { key_images: self.key_images.push(key_image), ..self }
    }

    /// Turns to the next input, or to the signature when there is none.
    pub open spec fn next_input<E>(self) -> Outcome<A, O, E> {
        if self.done() == self.proposal.inputs.len() {
            Outcome::Next(SessionModel { stage: Stage::Signature, ..self })
        } else {
            match hexadecimal::decoded(self.current().tx_out_proto) {
                Ok(_) => Outcome::Next(SessionModel { stage: Stage::TxOut, ..self }),
                Err(error) => Outcome::Failed(OperationError::TxOutHex(error)),
            }
        }
    }

    /// What `event` leads to.
    pub open spec fn step<E>(self, event: SigningEvent<E>) -> Outcome<A, O, E> {
        match event {
            SigningEvent::UnsignedTxDecoded => self.next_input(),
            SigningEvent::UnsignedTxUndecodable(error) => Outcome::Failed(
                OperationError::UnsignedTxProto(error),
            ),
            SigningEvent::UnsignedTxInvalid(error) => Outcome::Failed(
                OperationError::UnsignedTxConvert(error),
            ),
            SigningEvent::TxOutDecoded => if index::is_index(self.current().subaddress_index) {
                Outcome::Next(SessionModel { stage: Stage::KeyImage, ..self })
            } else {
                Outcome::BadIndex(self.current().subaddress_index)
            },
            SigningEvent::TxOutUndecodable(error) => Outcome::Failed(
                OperationError::TxOutProto(error),
            ),
            SigningEvent::KeyImageComputed(key_image) => self.with_key_image(
                key_image,
            ).next_input(),
            SigningEvent::PublicKeyInvalid(error) => Outcome::Failed(
                OperationError::TxOutPublicKey(error),
            ),
            SigningEvent::Signed(tx) => Outcome::Signed(
                signed_output(self.proposal, self.key_images, tx@),
            ),
            SigningEvent::SigningFailed(error) => Outcome::Failed(OperationError::Sign(error)),
        }
    }
}

/// Whether `event` can come of the action that a session in `stage` asks for.
pub open spec fn expects<E>(stage: Stage, event: SigningEvent<E>) -> bool {
    match event {
        SigningEvent::UnsignedTxDecoded => stage == Stage::UnsignedTx,
        SigningEvent::UnsignedTxUndecodable(_) => stage == Stage::UnsignedTx,
        SigningEvent::UnsignedTxInvalid(_) => stage == Stage::UnsignedTx,
        SigningEvent::TxOutDecoded => stage == Stage::TxOut,
        SigningEvent::TxOutUndecodable(_) => stage == Stage::TxOut,
        SigningEvent::KeyImageComputed(_) => stage == Stage::KeyImage,
        SigningEvent::PublicKeyInvalid(_) => stage == Stage::KeyImage,
        SigningEvent::Signed(_) => stage == Stage::Signature,
        SigningEvent::SigningFailed(_) => stage == Stage::Signature,
    }
}

/// What opening a session on `proposal` leads to.
pub open spec fn opened<A, O, E>(
    proposal: ProposalModel<A, O>,
    output: Seq<char>,
) -> Outcome<A, O, E> {
    match hexadecimal::decoded(proposal.unsigned_tx) {
        Ok(_) => Outcome::Next(
            SessionModel {
                proposal,
                output,
                key_images: Seq::empty(),
                stage: Stage::UnsignedTx,
            },
        ),
        Err(error) => Outcome::Failed(OperationError::UnsignedTxHex(error)),
    }
}

/// The inputs of a signed proposal: those of the unsigned one, each with its key image in
/// hexadecimal.
pub open spec fn signed_inputs<A>(
    inputs: Seq<InputModel<A>>,
    key_images: Seq<KeyImage>,
) -> Seq<SignedInputModel<A>> {
    Seq::new(
        inputs.len(),
        |i: int|
            SignedInputModel {
                input: inputs[i],
                key_image: hexadecimal::encoded(key_images[i].0@),
            },
    )
}

/// The call that hands in the proposal, signed as `tx`.
pub open spec fn signed_output<A, O>(
    proposal: ProposalModel<A, O>,
    key_images: Seq<KeyImage>,
    tx: Seq<u8>,
) -> OutputModel<A, O> {
    OutputModel {
        method: "sign_tx"@,
        jsonrpc: "2.0"@,
        id: 1,
        tx_proto: hexadecimal::encoded(tx),
        inputs: signed_inputs(proposal.inputs, key_images),
        payload_txos: proposal.payload_txos,
        change_txos: proposal.change_txos,
    }
}

/// Whether `res` is `outcome`, for a session whose result goes to the file `output`.
pub open spec fn yields<A, O, E>(
    outcome: Outcome<A, O, E>,
    output: Seq<char>,
    res: Result<Progress<A, O>, OperationError<E>>,
) -> bool {
    match outcome {
        Outcome::Next(state) => {
            &&& res matches Ok(Progress::Continue(session, action))
            &&& session@ == state
            &&& state.wf()
            &&& state.asks(action)
        },
        Outcome::Signed(signed) => {
            &&& files::format_verdict(output, res is Ok)
            &&& files::platform_verdict(output, res is Ok)
            &&& match res {
                Ok(Progress::Done(file)) => file.file_name@ == output && file.value@ == signed,
                Ok(Progress::Continue(_, _)) => false,
                Err(error) => error is UnsupportedFormat,
            }
        },
        Outcome::BadIndex(text) => {
            &&& res matches Err(OperationError::SubaddressIndex(kind))
            &&& index::faulty(text, kind)
            &&& index::is_reported(text, kind)
        },
        Outcome::Failed(error) => res == Err::<Progress<A, O>, _>(error),
    }
}

impl<A, O> SigningSession<A, O> {
    /// Opens a session on `proposal` whose result goes to the file `output`.
    pub(crate) fn open<E>(proposal: UnsignedTxProposal<A, O>, output: &str) -> (res: Result<
        Progress<A, O>,
        OperationError<E>,
    >)
        ensures
            yields(opened(proposal@, output@), output@, res),
    {
        let bytes = match hexadecimal::decode(proposal.unsigned_tx_proto_bytes_hex.as_str()) {
            Ok(bytes) => bytes,
            Err(error) => return Err(OperationError::UnsignedTxHex(error)),
        };
        let session = SigningSession {
            proposal,
            output: output.to_owned(),
            key_images: Vec::new(),
            stage: Stage::UnsignedTx,
        };
        Ok(Progress::Continue(session, SigningAction::DecodeUnsignedTx { bytes }))
    }

    /// Turns to the next input, or to the signature when there is none.
    fn next_input<E>(self) -> (res: Result<Progress<A, O>, OperationError<E>>)
        requires
            hexadecimal::decoded(self@.proposal.unsigned_tx) is Ok,
            self@.done() <= self@.proposal.inputs.len(),
            forall|i: int|
                0 <= i < self@.done() ==> is_good_input(#[trigger] self@.proposal.inputs[i]),
        ensures
            yields(self@.next_input(), self@.output, res),
    {
        let at: usize = self.key_images.len();
        if at == self.proposal.unsigned_input_txos.len() {
            let session = SigningSession { stage: Stage::Signature, ..self };
            return Ok(Progress::Continue(session, SigningAction::SignTx));
        }
        let text = self.proposal.unsigned_input_txos[at].tx_out_proto.as_str();
        match hexadecimal::decode(text) {
            Ok(bytes) => {
                let session = SigningSession { stage: Stage::TxOut, ..self };
                Ok(Progress::Continue(session, SigningAction::DecodeTxOut { bytes }))
            },
            Err(error) => Err(OperationError::TxOutHex(error)),
        }
    }

    /// Checks the subaddress index of the current input and asks for its key image.
    fn read_index<E>(self) -> (res: Result<Progress<A, O>, OperationError<E>>)
        requires
            self@.wf(),
            self@.stage == Stage::TxOut,
        ensures
            yields(self@.step(SigningEvent::<E>::TxOutDecoded), self@.output, res),
    {
        let at: usize = self.key_images.len();
        let text = self.proposal.unsigned_input_txos[at].subaddress_index.as_str();
        match index::read_index(text) {
            Ok(subaddress_index) => {
                let session = SigningSession { stage: Stage::KeyImage, ..self };
                Ok(
                    Progress::Continue(
                        session,
                        SigningAction::ComputeKeyImage { subaddress_index },
                    ),
                )
            },
            Err(error) => Err(OperationError::SubaddressIndex(error)),
        }
    }

    /// Puts the signed proposal together.
    fn finish<E>(self, tx: &Vec<u8>) -> (res: Result<Progress<A, O>, OperationError<E>>)
        requires
            self@.wf(),
            self@.stage == Stage::Signature,
            2 * tx@.len() <= isize::MAX,
        ensures
            yields(
                Outcome::<A, O, E>::Signed(
                    signed_output(self@.proposal, self@.key_images, tx@),
                ),
                self@.output,
                res,
            ),
    {
        let ghost inputs = self@.proposal.inputs;
        let key_images = self.key_images;
        let mut input_txos: Vec<InputTxoJson<A>> = Vec::new();
        for input in it: self.proposal.unsigned_input_txos.into_iter()
            invariant
                key_images@.len() == inputs.len(),
                it.seq().len() == inputs.len(),
                forall|i: int| 0 <= i < inputs.len() ==> (#[trigger] it.seq()[i])@ == inputs[i],
                input_txos@.len() == it.index(),
                forall|i: int|
                    0 <= i < it.index() ==> (#[trigger] input_txos@[i])@ == signed_inputs(
                        inputs,
                        key_images@,
                    )[i],
        {
            let at: usize = input_txos.len();
            input_txos.push(
                InputTxoJson {
                    tx_out_proto: input.tx_out_proto,
                    tx_out_public_key: input.tx_out_public_key,
                    subaddress_index: input.subaddress_index,
                    key_image: hexadecimal::encode(key_images[at].0.as_slice()),
                    amount: input.amount,
                },
            );
        }
        let signed = OutputJson {
            method: "sign_tx".to_owned(),
            params: SignedTxProposalResult {
                tx_proposal: SignedTxProposalJson {
                    tx_proto: hexadecimal::encode(tx.as_slice()),
                    input_txos,
                    payload_txos: self.proposal.payload_txos,
                    change_txos: self.proposal.change_txos,
                },
            },
            jsonrpc: "2.0".to_owned(),
            id: 1,
        };
        assert(signed@.inputs =~= signed_inputs(inputs, key_images@));
        match files::write_output(self.output.as_str(), signed) {
            Ok(file) => Ok(Progress::Done(file)),
            Err(_) => Err(OperationError::UnsupportedFormat),
        }
    }

    /// Goes on after the action that the session asked for. The message of a signed
    /// transaction has to be short enough for its hexadecimal text to fit into memory.
    pub fn advance<E>(self, event: SigningEvent<E>) -> (res: Result<
        Progress<A, O>,
        OperationError<E>,
    >)
        requires
            self@.wf(),
            expects(self@.stage, event),
            event matches SigningEvent::Signed(tx) ==> 2 * tx@.len() <= isize::MAX,
        ensures
            yields(self@.step(event), self@.output, res),
    {
        match event {
            SigningEvent::UnsignedTxDecoded => self.next_input(),
            SigningEvent::UnsignedTxUndecodable(error) => {
                Err(OperationError::UnsignedTxProto(error))
            },
            SigningEvent::UnsignedTxInvalid(error) => {
                Err(OperationError::UnsignedTxConvert(error))
            },
            SigningEvent::TxOutDecoded => self.read_index(),
            SigningEvent::TxOutUndecodable(error) => Err(OperationError::TxOutProto(error)),
            SigningEvent::KeyImageComputed(key_image) => {
                let ghost before = self@;
                let mut session = self;
                session.key_images.push(key_image);
                assert(session@ =~= before.with_key_image(key_image));
                session.next_input()
            },
            SigningEvent::PublicKeyInvalid(error) => Err(OperationError::TxOutPublicKey(error)),
            SigningEvent::Signed(tx) => self.finish(&tx),
            SigningEvent::SigningFailed(error) => Err(OperationError::Sign(error)),
        }
    }
}

} // verus!

//! What a signing session answers, told from the proposal and the events alone.

use crate::error::OperationError;
use crate::files;
use crate::hexadecimal;
use crate::hexadecimal::HexError;
use crate::index;
use crate::operations::Operations;
use crate::proposal::UnsignedTxProposalWrapper;
use crate::session;
use crate::session::{Progress, SigningAction, SigningEvent, SigningSession, Stage};
use vstd::prelude::*;

verus! {

/// Whether `responses` can be what comes of beginning to sign `request` for the file `output`
/// and then handing in `events` one by one, each to the session that came with the response
/// before it.
pub open spec fn is_history<A, O, E>(
    request: UnsignedTxProposalWrapper<A, O>,
    output: &str,
    events: Seq<SigningEvent<E>>,
    responses: Seq<Result<Progress<A, O>, OperationError<E>>>,
) -> bool {
    &&& responses.len() == events.len() + 1
    &&& call_ensures(Operations::sign_unsigned_tx::<A, O, E>, (request, output), responses[0])
    &&& forall|j: int|
        #![trigger events[j]]
        0 <= j < events.len() ==> {
            &&& responses[j] matches Ok(Progress::Continue(session, _))
            &&& session::expects(session@.stage, events[j])
            &&& call_ensures(
                SigningSession::<A, O>::advance::<E>,
                (session, events[j]),
                responses[j + 1],
            )
        }
}

/// How many inputs have their key image after `count` events.
pub open spec fn inputs_done(count: int) -> int {
    if count == 0 {
        0
    } else {
        (count - 1) / 2
    }
}

/// Where a session stands after some events.
proof fn lemma_state<A, O, E>(
    request: UnsignedTxProposalWrapper<A, O>,
    output: &str,
    events: Seq<SigningEvent<E>>,
    responses: Seq<Result<Progress<A, O>, OperationError<E>>>,
    count: int,
)
    requires
        is_history(request, output, events, responses),
        0 <= count <= events.len(),
    ensures
        responses[count] matches Ok(Progress::Continue(session, action)) ==> {
            let state = session@;
            let inputs = request.unsigned_tx_proposal.unsigned_input_txos@;
            let done = inputs_done(count);
            &&& state.wf()
            &&& state.asks(action)
            &&& state.proposal == request.unsigned_tx_proposal@
            &&& state.output == output@
            &&& state.key_images.len() == done
            &&& done <= inputs.len()
            &&& forall|i: int|
                #![trigger state.key_images[i]]
                0 <= i < done ==> events[2 * i + 2] == SigningEvent::<E>::KeyImageComputed(
                    state.key_images[i],
                )
            &&& state.stage == if count == 0 {
                Stage::UnsignedTx
            } else if count % 2 == 0 {
                Stage::KeyImage
            } else if done == inputs.len() {
                Stage::Signature
            } else {
                Stage::TxOut
            }
        },
    decreases count,
{
    if count > 0 {
        lemma_state(request, output, events, responses, count - 1);
        let _ = events[count - 1];
    }
}

/// Law: signing begins with the unsigned transaction: its bytes are handed out for decoding as
/// the proposal holds them in hexadecimal, or the fault in this text is reported.
pub proof fn law_transaction_comes_first<A, O, E>(
    request: UnsignedTxProposalWrapper<A, O>,
    output: &str,
    res: Result<Progress<A, O>, OperationError<E>>,
)
    requires
        call_ensures(Operations::sign_unsigned_tx::<A, O, E>, (request, output), res),
    ensures
        match hexadecimal::decoded(request.unsigned_tx_proposal.unsigned_tx_proto_bytes_hex@) {
            Ok(transaction) => {
                &&& res matches Ok(
                    Progress::Continue(_, SigningAction::DecodeUnsignedTx { bytes }),
                )
                &&& bytes@ == transaction
            },
            Err(fault) => res matches Err(error) && error == OperationError::<E>::UnsignedTxHex(
                fault,
            ),
        },
{
}

/// Law: a session waits first for the unsigned transaction, then for each input in turn for its
/// output and for its key image, and at last for the signature; it takes every event of the kind
/// that it waits for, and no other. A proposal with n inputs takes no more than 2n + 2 events.
pub proof fn law_order_of_events<A, O, E>(
    request: UnsignedTxProposalWrapper<A, O>,
    output: &str,
    events: Seq<SigningEvent<E>>,
    responses: Seq<Result<Progress<A, O>, OperationError<E>>>,
    count: int,
    next: SigningEvent<E>,
)
    requires
        is_history(request, output, events, responses),
        0 <= count <= events.len(),
    ensures
        responses[count] matches Ok(Progress::Continue(session, _)) ==> {
            let last = 2 * request.unsigned_tx_proposal.unsigned_input_txos@.len() + 1;
            let awaited = if count == 0 {
                ||| next is UnsignedTxDecoded
                ||| next is UnsignedTxUndecodable
                ||| next is UnsignedTxInvalid
            } else if count == last {
                ||| next is Signed
                ||| next is SigningFailed
            } else if count % 2 == 1 {
                ||| next is TxOutDecoded
                ||| next is TxOutUndecodable
            } else {
                ||| next is KeyImageComputed
                ||| next is PublicKeyInvalid
            };
            &&& count <= last
            &&& session::expects(session@.stage, next) <==> awaited
            &&& awaited && (next matches SigningEvent::Signed(tx) ==> 2 * tx@.len() <= isize::MAX)
                ==> call_requires(SigningSession::<A, O>::advance::<E>, (session, next))
        },
{
    lemma_state(request, output, events, responses, count);
}

/// Law: once the transaction has been decoded, and whenever a key image has come in, the session
/// turns to the input that comes next in the proposal: it hands out the bytes of its output for
/// decoding as the proposal holds them in hexadecimal, or reports the fault in this text. After
/// the last input it asks for the signature.
pub proof fn law_inputs_come_in_order<A, O, E>(
    request: UnsignedTxProposalWrapper<A, O>,
    output: &str,
    events: Seq<SigningEvent<E>>,
    responses: Seq<Result<Progress<A, O>, OperationError<E>>>,
    at: int,
)
    requires
        is_history(request, output, events, responses),
        0 <= at < events.len(),
        events[at] is UnsignedTxDecoded || events[at] is KeyImageComputed,
    ensures
        ({
            let inputs = request.unsigned_tx_proposal.unsigned_input_txos@;
            let number = at / 2;
            &&& at == 2 * number
            &&& number <= inputs.len()
            &&& if number == inputs.len() {
                responses[at + 1] matches Ok(Progress::Continue(_, SigningAction::SignTx))
            } else {
                match hexadecimal::decoded(inputs[number].tx_out_proto@) {
                    Ok(tx_out) => {
                        &&& responses[at + 1] matches Ok(
                            Progress::Continue(_, SigningAction::DecodeTxOut { bytes }),
                        )
                        &&& bytes@ == tx_out
                    },
                    Err(fault) => responses[at + 1] matches Err(error) && error
                        == OperationError::<E>::TxOutHex(fault),
                }
            }
        }),
{
    lemma_state(request, output, events, responses, at);
    lemma_state(request, output, events, responses, at + 1);
}

/// Law: once an output has been decoded, the session asks for its key image under the number
/// that the subaddress index of the same input denotes, if 64 bits hold it. Otherwise it reports
/// what the parser reports of this text, which is never said of a text that denotes such a
/// number: that it is empty, malformed or too large.
pub proof fn law_subaddress_indices<A, O, E>(
    request: UnsignedTxProposalWrapper<A, O>,
    output: &str,
    events: Seq<SigningEvent<E>>,
    responses: Seq<Result<Progress<A, O>, OperationError<E>>>,
    at: int,
)
    requires
        is_history(request, output, events, responses),
        0 <= at < events.len(),
        events[at] is TxOutDecoded,
    ensures
        ({
            let inputs = request.unsigned_tx_proposal.unsigned_input_txos@;
            let number = (at - 1) / 2;
            let text = inputs[number].subaddress_index@;
            &&& at == 2 * number + 1
            &&& 0 <= number < inputs.len()
            &&& match index::denoted(text) {
                Some(value) => if value <= u64::MAX {
                    &&& responses[at + 1] matches Ok(
                        Progress::Continue(_, SigningAction::ComputeKeyImage { subaddress_index }),
                    )
                    &&& subaddress_index == value
                } else {
                    responses[at + 1] matches Err(error) && error
                        == OperationError::<E>::SubaddressIndex(index::IndexError::PosOverflow)
                },
                None => {
                    &&& responses[at + 1] matches Err(OperationError::SubaddressIndex(kind))
                    &&& index::is_reported(text, kind)
                    &&& kind is Empty <==> text.len() == 0
                    &&& kind is PosOverflow ==> index::overflows(text)
                },
            }
        }),
{
    lemma_state(request, output, events, responses, at);
    lemma_state(request, output, events, responses, at + 1);
}

/// Law: what somebody outside reports as a failure ends the session with an error of its own
/// kind that carries exactly this report.
pub proof fn law_outside_failures<A, O, E>(
    request: UnsignedTxProposalWrapper<A, O>,
    output: &str,
    events: Seq<SigningEvent<E>>,
    responses: Seq<Result<Progress<A, O>, OperationError<E>>>,
    at: int,
)
    requires
        is_history(request, output, events, responses),
        0 <= at < events.len(),
    ensures
        events[at] matches SigningEvent::UnsignedTxUndecodable(report) ==> {
            &&& responses[at + 1] matches Err(error)
            &&& error == OperationError::UnsignedTxProto(report)
        },
        events[at] matches SigningEvent::UnsignedTxInvalid(report) ==> {
            &&& responses[at + 1] matches Err(error)
            &&& error == OperationError::UnsignedTxConvert(report)
        },
        events[at] matches SigningEvent::TxOutUndecodable(report) ==> {
            &&& responses[at + 1] matches Err(error)
            &&& error == OperationError::TxOutProto(report)
        },
        events[at] matches SigningEvent::PublicKeyInvalid(report) ==> {
            &&& responses[at + 1] matches Err(error)
            &&& error == OperationError::TxOutPublicKey(report)
        },
        events[at] matches SigningEvent::SigningFailed(report) ==> {
            &&& responses[at + 1] matches Err(error)
            &&& error == OperationError::Sign(report)
        },
{
}

/// Law: the transaction is signed only after every input has its key image, and the answer is
/// written under the name of the output file, or refused because of this name alone. It holds
/// the payments and the change of the proposal, each in its own place; the inputs of the
/// proposal in their order, with nothing changed in them, and to each the key image that was
/// reported for it; and the signed transaction. Bytes are written in lower-case hexadecimal.
pub proof fn law_signed_proposal<A, O, E>(
    request: UnsignedTxProposalWrapper<A, O>,
    output: &str,
    events: Seq<SigningEvent<E>>,
    responses: Seq<Result<Progress<A, O>, OperationError<E>>>,
    at: int,
)
    requires
        is_history(request, output, events, responses),
        0 <= at < events.len(),
        events[at] is Signed,
    ensures
        ({
            let proposal = request.unsigned_tx_proposal;
            let inputs = proposal.unsigned_input_txos@;
            &&& at == 2 * inputs.len() + 1
            &&& files::format_verdict(output@, responses[at + 1] is Ok)
            &&& files::platform_verdict(output@, responses[at + 1] is Ok)
            &&& match responses[at + 1] {
                Ok(Progress::Done(file)) => {
                    let signed = file.value.params.tx_proposal;
                    &&& file.file_name@ == output@
                    &&& file.value.method@ == "sign_tx"@
                    &&& file.value.jsonrpc@ == "2.0"@
                    &&& file.value.id == 1
                    &&& signed.payload_txos@ == proposal.payload_txos@
                    &&& signed.change_txos@ == proposal.change_txos@
                    &&& hexadecimal::decoded(signed.tx_proto@) == Ok::<_, HexError>(
                        events[at]->Signed_0@,
                    )
                    &&& hexadecimal::is_lower_case(signed.tx_proto@)
                    &&& signed.input_txos@.len() == inputs.len()
                    &&& forall|i: int|
                        #![trigger signed.input_txos@[i]]
                        #![trigger inputs[i]]
                        0 <= i < inputs.len() ==> {
                            &&& signed.input_txos@[i].tx_out_proto@ == inputs[i].tx_out_proto@
                            &&& signed.input_txos@[i].tx_out_public_key@
                                == inputs[i].tx_out_public_key@
                            &&& signed.input_txos@[i].subaddress_index@
                                == inputs[i].subaddress_index@
                            &&& signed.input_txos@[i].amount == inputs[i].amount
                            &&& events[2 * i + 2] matches SigningEvent::KeyImageComputed(image)
                            &&& hexadecimal::decoded(signed.input_txos@[i].key_image@) == Ok::<
                                _,
                                HexError,
                            >(image.0@)
                            &&& hexadecimal::is_lower_case(signed.input_txos@[i].key_image@)
                        }
                },
                Ok(Progress::Continue(_, _)) => false,
                Err(error) => error is UnsupportedFormat,
            }
        }),
{
    lemma_state(request, output, events, responses, at);
    let proposal = request.unsigned_tx_proposal;
    let inputs = proposal.unsigned_input_txos@;
    if let Ok(Progress::Continue(session, _)) = responses[at] {
        let state = session@;
        if let Ok(Progress::Done(file)) = responses[at + 1] {
            let signed = file.value.params.tx_proposal;
            let tx = events[at]->Signed_0@;
            hexadecimal::law_decode_of_encode(tx);
            hexadecimal::law_encoded_text(tx);
            let model = session::signed_output(state.proposal, state.key_images, tx);
            assert(file.value@ == model);
            assert(file.value@.inputs.len() == signed.input_txos@.len());
            assert(model.inputs.len() == inputs.len());
            assert forall|i: int|
                #![trigger signed.input_txos@[i]]
                #![trigger inputs[i]]
                0 <= i < inputs.len() implies {
                &&& signed.input_txos@[i].tx_out_proto@ == inputs[i].tx_out_proto@
                &&& signed.input_txos@[i].tx_out_public_key@ == inputs[i].tx_out_public_key@
                &&& signed.input_txos@[i].subaddress_index@ == inputs[i].subaddress_index@
                &&& signed.input_txos@[i].amount == inputs[i].amount
                &&& events[2 * i + 2] matches SigningEvent::KeyImageComputed(image)
                &&& hexadecimal::decoded(signed.input_txos@[i].key_image@) == Ok::<_, HexError>(
                    image.0@,
                )
                &&& hexadecimal::is_lower_case(signed.input_txos@[i].key_image@)
            } by {
                assert(file.value@.inputs[i] == signed.input_txos@[i]@);
                assert(state.proposal.inputs[i] == inputs[i]@);
                assert(events[2 * i + 2] == SigningEvent::<E>::KeyImageComputed(
                    state.key_images[i],
                ));
                hexadecimal::law_decode_of_encode(state.key_images[i].0@);
                hexadecimal::law_encoded_text(state.key_images[i].0@);
            }
        }
    }
}

} // verus!

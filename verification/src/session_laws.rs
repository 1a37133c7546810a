//! What holds of every signing session, from the proposal to the signed answer.

use crate::error::OperationError;
use crate::hexadecimal;
use crate::index;
use crate::proposal::{OutputModel, ProposalModel};
use crate::session;
use crate::session::{Outcome, SessionModel, SigningAction, SigningEvent, Stage};
use crate::types::KeyImage;
use vstd::prelude::*;

verus! {

/// Where a session that began with `start` stands after `events`.
pub open spec fn run<A, O, E>(
    start: Outcome<A, O, E>,
    events: Seq<SigningEvent<E>>,
) -> Outcome<A, O, E>
    decreases events.len(),
{
    if events.len() == 0 {
        start
    } else {
        match run(start, events.drop_last()) {
            Outcome::Next(state) => state.step(events.last()),
            ended => ended,
        }
    }
}

/// Whether each of `events` comes when a session that began with `start` waits for it.
pub open spec fn in_order<A, O, E>(
    start: Outcome<A, O, E>,
    events: Seq<SigningEvent<E>>,
) -> bool
    decreases events.len(),
{
    events.len() == 0 || {
        &&& in_order(start, events.drop_last())
        &&& run(start, events.drop_last()) matches Outcome::Next(state)
        &&& session::expects(state.stage, events.last())
    }
}

/// The key images that `events` report, in their order.
pub open spec fn reported<E>(events: Seq<SigningEvent<E>>) -> Seq<KeyImage>
    decreases events.len(),
{
    if events.len() == 0 {
        Seq::empty()
    } else {
        match events.last() {
            SigningEvent::KeyImageComputed(key_image) => reported(events.drop_last()).push(
                key_image,
            ),
            _ => reported(events.drop_last()),
        }
    }
}

/// The events of a session in which nothing fails, up to the last of `key_images`.
pub open spec fn answers<E>(key_images: Seq<KeyImage>) -> Seq<SigningEvent<E>>
    decreases key_images.len(),
{
    if key_images.len() == 0 {
        seq![SigningEvent::UnsignedTxDecoded]
    } else {
        answers(key_images.drop_last()).push(SigningEvent::TxOutDecoded).push(
            SigningEvent::KeyImageComputed(key_images.last()),
        )
    }
}

/// How many more events a session takes in which nothing fails.
pub open spec fn remaining<A, O>(state: SessionModel<A, O>) -> int {
    let inputs_left = state.proposal.inputs.len() - state.done();
    match state.stage {
        Stage::UnsignedTx => 2 * inputs_left + 2,
        Stage::TxOut => 2 * inputs_left + 1,
        Stage::KeyImage => 2 * inputs_left,
        Stage::Signature => 1,
    }
}

/// Law: every event that a session waits for either ends it or leaves it in a valid state, one
/// event closer to its end. A proposal with n inputs takes 2n + 2 events.
pub proof fn law_progress<A, O, E>(state: SessionModel<A, O>, event: SigningEvent<E>)
    requires
        state.wf(),
        session::expects(state.stage, event),
    ensures
        state.step(event) matches Outcome::Next(next) ==> {
            &&& next.wf()
            &&& next.proposal == state.proposal
            &&& next.output == state.output
            &&& remaining(next) == remaining(state) - 1
            &&& remaining(next) >= 1
        },
{
    if let SigningEvent::KeyImageComputed(key_image) = event {
        let next = state.with_key_image(key_image);
        assert forall|i: int| 0 <= i < next.done() implies session::is_good_input(
            #[trigger] next.proposal.inputs[i],
        ) by {}
    }
}

/// Law: whatever happens in a session, it keeps the proposal and the key images reported so
/// far; and a signed proposal comes out only after the key image of every input has been
/// reported, all inputs have proved well-formed and the transaction has been signed, and it
/// holds exactly these key images, this transaction and what the proposal held.
pub proof fn law_every_run<A, O, E>(
    proposal: ProposalModel<A, O>,
    output: Seq<char>,
    events: Seq<SigningEvent<E>>,
)
    requires
        in_order(session::opened::<A, O, E>(proposal, output), events),
    ensures
        match run(session::opened::<A, O, E>(proposal, output), events) {
            Outcome::Next(state) => {
                &&& state.wf()
                &&& state.proposal == proposal
                &&& state.output == output
                &&& state.key_images == reported(events)
            },
            Outcome::Signed(signed) => {
                &&& reported(events).len() == proposal.inputs.len()
                &&& forall|i: int|
                    0 <= i < proposal.inputs.len() ==> session::is_good_input(
                        #[trigger] proposal.inputs[i],
                    )
                &&& events.len() > 0
                &&& events.last() matches SigningEvent::Signed(tx)
                &&& signed == session::signed_output(proposal, reported(events), tx@)
                &&& signed.method == "sign_tx"@
                &&& signed.jsonrpc == "2.0"@
                &&& signed.id == 1
                &&& signed.payload_txos == proposal.payload_txos
                &&& signed.change_txos == proposal.change_txos
                &&& hexadecimal::decoded(signed.tx_proto) == Ok::<_, hexadecimal::HexError>(tx@)
                &&& signed.inputs.len() == proposal.inputs.len()
                &&& forall|i: int|
                    0 <= i < proposal.inputs.len() ==> {
                        &&& (#[trigger] signed.inputs[i]).input == proposal.inputs[i]
                        &&& hexadecimal::decoded(signed.inputs[i].key_image) == Ok::<
                            _,
                            hexadecimal::HexError,
                        >(reported(events)[i].0@)
                    }
            },
            _ => true,
        },
    decreases events.len(),
{
    if events.len() > 0 {
        let start = session::opened::<A, O, E>(proposal, output);
        law_every_run(proposal, output, events.drop_last());
        if let Outcome::Next(state) = run(start, events.drop_last()) {
            law_progress(state, events.last());
        }
        if let SigningEvent::Signed(tx) = events.last() {
            law_signed_output_reads_back(proposal, reported(events), tx@);
        }
    }
}

/// Law: a session that its proposal ends, rather than somebody outside, ends at the first fault
/// in the proposal: the unsigned transaction before anything else, then the inputs in order,
/// each with its output before its subaddress index.
pub proof fn law_first_fault<A, O, E>(
    proposal: ProposalModel<A, O>,
    output: Seq<char>,
    events: Seq<SigningEvent<E>>,
)
    requires
        in_order(session::opened::<A, O, E>(proposal, output), events),
    ensures
        ({
            let at = reported(events).len() as int;
            let earlier_are_good = forall|i: int|
                0 <= i < at ==> session::is_good_input(#[trigger] proposal.inputs[i]);
            match run(session::opened::<A, O, E>(proposal, output), events) {
                Outcome::Failed(OperationError::UnsignedTxHex(error)) => {
                    &&& events.len() == 0
                    &&& hexadecimal::decoded(proposal.unsigned_tx) == Err::<Seq<u8>, _>(error)
                },
                Outcome::Failed(OperationError::TxOutHex(error)) => {
                    &&& at < proposal.inputs.len()
                    &&& earlier_are_good
                    &&& hexadecimal::decoded(proposal.inputs[at].tx_out_proto) == Err::<
                        Seq<u8>,
                        _,
                    >(error)
                },
                Outcome::BadIndex(text) => {
                    &&& at < proposal.inputs.len()
                    &&& earlier_are_good
                    &&& session::is_hex_input(proposal.inputs[at])
                    &&& text == proposal.inputs[at].subaddress_index
                    &&& !index::is_index(text)
                },
                _ => true,
            }
        }),
{
    if events.len() > 0 {
        let start = session::opened::<A, O, E>(proposal, output);
        law_every_run(proposal, output, events.drop_last());
        if let Outcome::Next(state) = run(start, events.drop_last()) {
            if let SigningEvent::KeyImageComputed(key_image) = events.last() {
                let next = state.with_key_image(key_image);
                assert forall|i: int| 0 <= i < next.done() implies session::is_good_input(
                    #[trigger] proposal.inputs[i],
                ) by {}
            }
        }
    }
}

/// What one more event means for a run.
proof fn lemma_one_more<A, O, E>(
    start: Outcome<A, O, E>,
    events: Seq<SigningEvent<E>>,
    event: SigningEvent<E>,
    state: SessionModel<A, O>,
)
    requires
        in_order(start, events),
        run(start, events) == Outcome::<A, O, E>::Next(state),
        session::expects(state.stage, event),
    ensures
        in_order(start, events.push(event)),
        run(start, events.push(event)) == state.step(event),
{
    assert(events.push(event).drop_last() =~= events);
}

/// Where a session stands once the first inputs have their key images.
proof fn lemma_answers<A, O, E>(
    proposal: ProposalModel<A, O>,
    output: Seq<char>,
    key_images: Seq<KeyImage>,
)
    requires
        hexadecimal::decoded(proposal.unsigned_tx) is Ok,
        key_images.len() <= proposal.inputs.len(),
        forall|i: int|
            0 <= i < key_images.len() ==> session::is_good_input(#[trigger] proposal.inputs[i]),
    ensures
        in_order(session::opened::<A, O, E>(proposal, output), answers::<E>(key_images)),
        run(session::opened::<A, O, E>(proposal, output), answers::<E>(key_images))
            == (SessionModel { proposal, output, key_images, stage: Stage::KeyImage }).next_input::<
            E,
        >(),
        answers::<E>(key_images).len() == 2 * key_images.len() + 1,
    decreases key_images.len(),
{
    let start = session::opened::<A, O, E>(proposal, output);
    if key_images.len() == 0 {
        let none = Seq::<SigningEvent<E>>::empty();
        assert(key_images =~= Seq::empty());
        let opening = SessionModel { proposal, output, key_images, stage: Stage::UnsignedTx };
        assert(start == Outcome::<A, O, E>::Next(opening));
        lemma_one_more(start, none, SigningEvent::UnsignedTxDecoded, opening);
        assert(answers::<E>(key_images) =~= none.push(SigningEvent::UnsignedTxDecoded));
    } else {
        let earlier = key_images.drop_last();
        let last = key_images.last();
        lemma_answers::<A, O, E>(proposal, output, earlier);
        assert(session::is_good_input(proposal.inputs[earlier.len() as int]));
        let first = answers::<E>(earlier);
        let second = first.push(SigningEvent::TxOutDecoded);
        let decoding = SessionModel { proposal, output, key_images: earlier, stage: Stage::TxOut };
        assert(run(start, first) == Outcome::<A, O, E>::Next(decoding));
        lemma_one_more(start, first, SigningEvent::TxOutDecoded, decoding);
        let asking = SessionModel { stage: Stage::KeyImage, ..decoding };
        assert(run(start, second) == Outcome::<A, O, E>::Next(asking));
        lemma_one_more(start, second, SigningEvent::KeyImageComputed(last), asking);
        assert(earlier.push(last) =~= key_images);
        assert(asking.with_key_image(last) == SessionModel {
            proposal,
            output,
            key_images,
            stage: Stage::KeyImage,
        });
    }
}

/// Law: a proposal whose fields are all well-formed gets signed. Once the transaction and each
/// input have been decoded, a key image has been computed for each input and the transaction
/// has been signed, the session ends with the signed proposal.
pub proof fn law_good_proposals_get_signed<A, O, E>(
    proposal: ProposalModel<A, O>,
    output: Seq<char>,
    key_images: Seq<KeyImage>,
    tx: Vec<u8>,
)
    requires
        hexadecimal::decoded(proposal.unsigned_tx) is Ok,
        forall|i: int|
            0 <= i < proposal.inputs.len() ==> session::is_good_input(
                #[trigger] proposal.inputs[i],
            ),
        key_images.len() == proposal.inputs.len(),
    ensures
        ({
            let start = session::opened::<A, O, E>(proposal, output);
            let events = answers::<E>(key_images).push(SigningEvent::Signed(tx));
            &&& in_order(start, events)
            &&& run(start, events) == Outcome::<A, O, E>::Signed(
                session::signed_output(proposal, key_images, tx@),
            )
            &&& events.len() == 2 * proposal.inputs.len() + 2
        }),
{
    lemma_answers::<A, O, E>(proposal, output, key_images);
    let state = SessionModel { proposal, output, key_images, stage: Stage::Signature };
    lemma_one_more(
        session::opened::<A, O, E>(proposal, output),
        answers::<E>(key_images),
        SigningEvent::Signed(tx),
        state,
    );
}

/// Law: a proposal with a faulty input does not get signed. When the inputs in front of it have
/// their key images, the session ends: at once if the output is not hexadecimal, and once the
/// output has been decoded if the subaddress index is no number of 64 bits.
pub proof fn law_faulty_input<A, O, E>(
    proposal: ProposalModel<A, O>,
    output: Seq<char>,
    key_images: Seq<KeyImage>,
)
    requires
        hexadecimal::decoded(proposal.unsigned_tx) is Ok,
        key_images.len() < proposal.inputs.len(),
        forall|i: int|
            0 <= i < key_images.len() ==> session::is_good_input(#[trigger] proposal.inputs[i]),
    ensures
        ({
            let start = session::opened::<A, O, E>(proposal, output);
            let input = proposal.inputs[key_images.len() as int];
            let events = answers::<E>(key_images);
            match hexadecimal::decoded(input.tx_out_proto) {
                Err(error) => {
                    &&& in_order(start, events)
                    &&& run(start, events) == Outcome::<A, O, E>::Failed(
                        OperationError::TxOutHex(error),
                    )
                },
                Ok(_) => !index::is_index(input.subaddress_index) ==> {
                    &&& in_order(start, events.push(SigningEvent::TxOutDecoded))
                    &&& run(start, events.push(SigningEvent::TxOutDecoded)) == Outcome::<
                        A,
                        O,
                        E,
                    >::BadIndex(input.subaddress_index)
                },
            }
        }),
{
    lemma_answers::<A, O, E>(proposal, output, key_images);
    let input = proposal.inputs[key_images.len() as int];
    if session::is_hex_input(input) {
        let state = SessionModel { proposal, output, key_images, stage: Stage::TxOut };
        lemma_one_more(
            session::opened::<A, O, E>(proposal, output),
            answers::<E>(key_images),
            SigningEvent::TxOutDecoded,
            state,
        );
    }
}

/// Law: who reads a signed proposal gets back the transaction and the key images that went in,
/// and finds the inputs, the payments and the change of the proposal in it, each in its place.
pub proof fn law_signed_output_reads_back<A, O>(
    proposal: ProposalModel<A, O>,
    key_images: Seq<KeyImage>,
    tx: Seq<u8>,
)
    ensures
        ({
            let signed = session::signed_output(proposal, key_images, tx);
            &&& signed.method == "sign_tx"@
            &&& signed.jsonrpc == "2.0"@
            &&& signed.id == 1
            &&& signed.payload_txos == proposal.payload_txos
            &&& signed.change_txos == proposal.change_txos
            &&& hexadecimal::decoded(signed.tx_proto) == Ok::<_, hexadecimal::HexError>(tx)
            &&& signed.inputs.len() == proposal.inputs.len()
            &&& forall|i: int|
                0 <= i < signed.inputs.len() ==> {
                    &&& (#[trigger] signed.inputs[i]).input == proposal.inputs[i]
                    &&& hexadecimal::decoded(signed.inputs[i].key_image) == Ok::<
                        _,
                        hexadecimal::HexError,
                    >(key_images[i].0@)
                }
        }),
{
    hexadecimal::law_decode_of_encode(tx);
    let signed = session::signed_output(proposal, key_images, tx);
    assert forall|i: int| 0 <= i < signed.inputs.len() implies {
        &&& (#[trigger] signed.inputs[i]).input == proposal.inputs[i]
        &&& hexadecimal::decoded(signed.inputs[i].key_image) == Ok::<_, hexadecimal::HexError>(
            key_images[i].0@,
        )
    } by {
        hexadecimal::law_decode_of_encode(key_images[i].0@);
    }
}

/// Law: the listed inputs have no part in what is signed. If a proposal gets signed, then so
/// does the same proposal without any inputs: the same unsigned transaction is handed out for
/// decoding, the same signed transaction ends the session, and nothing but the list of inputs,
/// which is empty, differs in the result.
pub proof fn law_inputs_are_not_signed<A, O, E>(
    proposal: ProposalModel<A, O>,
    output: Seq<char>,
    events: Seq<SigningEvent<E>>,
)
    requires
        in_order(session::opened::<A, O, E>(proposal, output), events),
        run(session::opened::<A, O, E>(proposal, output), events) is Signed,
    ensures
        ({
            let start = session::opened::<A, O, E>(proposal, output);
            let bare = ProposalModel { inputs: Seq::empty(), ..proposal };
            let bare_start = session::opened::<A, O, E>(bare, output);
            let bare_events = seq![SigningEvent::UnsignedTxDecoded, events.last()];
            &&& run(start, events) matches Outcome::Signed(signed)
            &&& start matches Outcome::Next(state)
            &&& bare_start matches Outcome::Next(bare_state)
            &&& forall|action: SigningAction| state.asks(action) == bare_state.asks(action)
            &&& in_order(bare_start, bare_events)
            &&& run(bare_start, bare_events) == Outcome::<A, O, E>::Signed(
                OutputModel { inputs: Seq::empty(), ..signed },
            )
        }),
{
    law_every_run(proposal, output, events);
    let bare = ProposalModel { inputs: Seq::empty(), ..proposal };
    let start = session::opened::<A, O, E>(proposal, output);
    let bare_start = session::opened::<A, O, E>(bare, output);
    lemma_begun(start, events);
    if let SigningEvent::Signed(tx) = events.last() {
        let none = Seq::<KeyImage>::empty();
        law_good_proposals_get_signed::<A, O, E>(bare, output, none, tx);
        assert(answers::<E>(none).push(events.last()) =~= seq![
            SigningEvent::UnsignedTxDecoded,
            events.last(),
        ]);
        assert(session::signed_inputs(bare.inputs, none) =~= Seq::empty());
    }
}

/// Events come in order only once a session has begun.
proof fn lemma_begun<A, O, E>(start: Outcome<A, O, E>, events: Seq<SigningEvent<E>>)
    requires
        in_order(start, events),
        events.len() > 0,
    ensures
        start is Next,
    decreases events.len(),
{
    if events.len() > 1 {
        lemma_begun(start, events.drop_last());
    } else {
        assert(events.drop_last() =~= Seq::empty());
    }
}

} // verus!

//! Transaction proposals, as the online wallet hands them out for signing and gets them back.
//!
//! Amounts (`A`) and the outputs of the transaction (`O`) go through unread.

use vstd::prelude::*;

verus! {

/// An input of an unsigned proposal.
#[derive(Clone, PartialEq, Debug)]
pub struct UnsignedInputTxo<A> {
    /// The output that is to be spent, as a hexadecimal message.
    pub tx_out_proto: String,
    /// The public key of this output.
    pub tx_out_public_key: String,
    /// The index of the subaddress that received it, in decimal.
    pub subaddress_index: String,
    /// Its amount.
    pub amount: A,
}

/// A transaction that is to be signed.
#[derive(Clone, PartialEq, Debug)]
pub struct UnsignedTxProposal<A, O> {
    /// The transaction without signatures, as a hexadecimal message.
    pub unsigned_tx_proto_bytes_hex: String,
    /// The outputs that it spends.
    pub unsigned_input_txos: Vec<UnsignedInputTxo<A>>,
    /// The outputs that it pays others.
    pub payload_txos: Vec<O>,
    /// The outputs that it pays back.
    pub change_txos: Vec<O>,
}

/// The file form of an unsigned proposal.
#[derive(Clone, PartialEq, Debug)]
pub struct UnsignedTxProposalWrapper<A, O> {
    /// The proposal.
    pub unsigned_tx_proposal: UnsignedTxProposal<A, O>,
}

/// An input of a signed proposal.
#[derive(Clone, PartialEq, Debug)]
pub struct InputTxoJson<A> {
    /// The output that is spent, as a hexadecimal message.
    pub tx_out_proto: String,
    /// The public key of this output.
    pub tx_out_public_key: String,
    /// The index of the subaddress that received it, in decimal.
    pub subaddress_index: String,
    /// Its key image, in hexadecimal.
    pub key_image: String,
    /// Its amount.
    pub amount: A,
}

/// A signed transaction, with what the wallet needs to keep track of it.
#[derive(Clone, PartialEq, Debug)]
pub struct SignedTxProposalJson<A, O> {
    /// The signed transaction, as a hexadecimal message.
    pub tx_proto: String,
    /// The outputs that it spends.
    pub input_txos: Vec<InputTxoJson<A>>,
    /// The outputs that it pays others.
    pub payload_txos: Vec<O>,
    /// The outputs that it pays back.
    pub change_txos: Vec<O>,
}

/// The parameters of a call that hands in a signed transaction.
#[derive(Clone, PartialEq, Debug)]
pub struct SignedTxProposalResult<A, O> {
    /// The transaction.
    pub tx_proposal: SignedTxProposalJson<A, O>,
}

/// A remote procedure call that hands in a signed transaction.
#[derive(Clone, PartialEq, Debug)]
pub struct OutputJson<A, O> {
    /// The procedure.
    pub method: String,
    /// Its parameters.
    pub params: SignedTxProposalResult<A, O>,
    /// The version of the protocol.
    pub jsonrpc: String,
    /// The number of the call.
    pub id: u32,
}

/// The contents of an `UnsignedInputTxo`.
#[verifier::ext_equal]
pub struct InputModel<A> {
    pub tx_out_proto: Seq<char>,
    pub tx_out_public_key: Seq<char>,
    pub subaddress_index: Seq<char>,
    pub amount: A,
}

/// The contents of an `UnsignedTxProposal`.
#[verifier::ext_equal]
pub struct ProposalModel<A, O> {
    pub unsigned_tx: Seq<char>,
    pub inputs: Seq<InputModel<A>>,
    pub payload_txos: Seq<O>,
    pub change_txos: Seq<O>,
}

/// The contents of an `InputTxoJson`: an input and its key image.
#[verifier::ext_equal]
pub struct SignedInputModel<A> {
    pub input: InputModel<A>,
    pub key_image: Seq<char>,
}

/// The contents of an `OutputJson`.
#[verifier::ext_equal]
pub struct OutputModel<A, O> {
    pub method: Seq<char>,
    pub jsonrpc: Seq<char>,
    pub id: u32,
    pub tx_proto: Seq<char>,
    pub inputs: Seq<SignedInputModel<A>>,
    pub payload_txos: Seq<O>,
    pub change_txos: Seq<O>,
}

impl<A> View for UnsignedInputTxo<A> {
    type V = InputModel<A>;

    open spec fn view(&self) -> InputModel<A> {
        InputModel {
            tx_out_proto: self.tx_out_proto@,
            tx_out_public_key: self.tx_out_public_key@,
            subaddress_index: self.subaddress_index@,
            amount: self.amount,
        }
    }
}

impl<A, O> View for UnsignedTxProposal<A, O> {
    type V = ProposalModel<A, O>;

    open spec fn view(&self) -> ProposalModel<A, O> {
        ProposalModel {
            unsigned_tx: self.unsigned_tx_proto_bytes_hex@,
            inputs: self.unsigned_input_txos@.map_values(|input: UnsignedInputTxo<A>| input@),
            payload_txos: self.payload_txos@,
            change_txos: self.change_txos@,
        }
    }
}

impl<A> View for InputTxoJson<A> {
    type V = SignedInputModel<A>;

    open spec fn view(&self) -> SignedInputModel<A> {
        SignedInputModel {
            input: InputModel {
                tx_out_proto: self.tx_out_proto@,
                tx_out_public_key: self.tx_out_public_key@,
                subaddress_index: self.subaddress_index@,
                amount: self.amount,
            },
            key_image: self.key_image@,
        }
    }
}

impl<A, O> View for OutputJson<A, O> {
    type V = OutputModel<A, O>;

    open spec fn view(&self) -> OutputModel<A, O> {
        OutputModel {
            method: self.method@,
            jsonrpc: self.jsonrpc@,
            id: self.id,
            tx_proto: self.params.tx_proposal.tx_proto@,
            inputs: self.params.tx_proposal.input_txos@.map_values(
                |input: InputTxoJson<A>| input@,
            ),
            payload_txos: self.params.tx_proposal.payload_txos@,
            change_txos: self.params.tx_proposal.change_txos@,
        }
    }
}

} // verus!

//! Requests to sign a transaction, and what is prepared and answered for them.
//!
//! Of each part of a transaction the fields that matter here stand on their own; the rest goes
//! through unread: of the prefix (`P`), the output secrets (`O`), the unblinding data of an
//! output (`U`), the signature (`S`) and the signing data (`D`).

use crate::types::{Blinding, KeyImage, TxOutPublic, TxoSynced};
use vstd::prelude::*;

verus! {

/// A number of tokens of one kind.
#[derive(Clone, Copy, PartialEq, Eq, Debug, Structural)]
pub struct Amount {
    /// How many tokens.
    pub value: u64,
    /// Which tokens.
    pub token_id: u64,
}

/// An amount with the factor that blinds its commitment.
#[derive(Clone, Copy, PartialEq, Eq, Debug)]
pub struct UnmaskedAmount {
    /// How many tokens.
    pub value: u64,
    /// Which tokens.
    pub token_id: u64,
    /// The blinding factor.
    pub blinding: Blinding,
}

/// The part of a transaction that gets signed.
#[derive(Clone, PartialEq, Debug)]
pub struct TxPrefix<P> {
    /// The fee.
    pub fee: u64,
    /// The tokens that the fee is paid in.
    pub fee_token_id: u64,
    /// Inputs, outputs and everything else.
    pub body: P,
}

/// A ring that can be signed here: the real input hidden among others.
#[derive(Clone, PartialEq, Debug)]
pub struct SignableInputRing {
    /// The public keys of the ring's members.
    pub members: Vec<TxOutPublic>,
    /// Which member is the real input.
    pub real_input_index: usize,
    /// The amount of the real input.
    pub amount: Amount,
}

/// A ring that somebody else has signed already.
#[derive(Clone, PartialEq, Debug)]
pub struct PresignedInputRing {
    /// The amount that it brings in.
    pub amount: Amount,
}

/// A ring for one input of a transaction.
#[derive(Clone, PartialEq, Debug)]
pub enum InputRing {
    /// A ring that is still to be signed.
    Signable(SignableInputRing),
    /// A ring that has been signed.
    Presigned(PresignedInputRing),
}

/// What the signer is told of the outputs of a transaction.
#[derive(Clone, PartialEq, Debug)]
pub enum TxSignSecrets<O, U> {
    /// The secrets of the outputs.
    OutputSecrets(Vec<O>),
    /// The secrets of the outputs and their destinations.
    TxOutUnblindingData(Vec<U>),
}

/// A request to sign a transaction.
#[derive(Clone, PartialEq, Debug)]
pub struct TxSignReq<P, O, U> {
    /// The account that pays.
    pub account_id: String,
    /// The version of the blocks that the transaction is for.
    pub block_version: u32,
    /// The part of the transaction that gets signed.
    pub tx_prefix: TxPrefix<P>,
    /// A ring for each input.
    pub rings: Vec<InputRing>,
    /// What is known of the outputs.
    pub secrets: TxSignSecrets<O, U>,
}

/// The signature of a transaction.
#[derive(Clone, PartialEq, Debug)]
pub struct SignatureRctBulletproofs<S> {
    /// The key image in the signature of each ring.
    pub key_images: Vec<KeyImage>,
    /// Everything else.
    pub body: S,
}

/// A signed transaction.
#[derive(Clone, PartialEq, Debug)]
pub struct Tx<P, S> {
    /// What has been signed.
    pub prefix: TxPrefix<P>,
    /// The signature.
    pub signature: SignatureRctBulletproofs<S>,
    /// The digest of the fee map, which is optional.
    pub fee_map_digest: Vec<u8>,
}

/// The answer to a `TxSignReq`.
#[derive(Clone, PartialEq, Debug)]
pub struct TxSignResp<P, S> {
    /// The account that pays.
    pub account_id: String,
    /// The signed transaction.
    pub tx: Tx<P, S>,
    /// The outputs that it spends, in the order of the rings.
    pub txos: Vec<TxoSynced>,
}

/// What is prepared for a signature before the signer comes in.
#[derive(Clone, PartialEq, Debug)]
pub struct SigningData<D> {
    /// The blinding factor of the amount of each input.
    pub pseudo_output_blindings: Vec<Blinding>,
    /// Everything else.
    pub body: D,
}

/// What the preparation of a signature is told, besides the transaction itself.
#[derive(Clone, Copy, PartialEq, Eq, Debug, Structural)]
pub struct PreparationParameters {
    /// The version of the blocks that the transaction is for.
    pub block_version: u32,
    /// The fee of the transaction.
    pub fee: Amount,
    /// Whether the transaction has to bring in exactly what it pays out.
    pub check_value_is_preserved: bool,
}

/// What a signer needs to check a transaction against its summary.
#[derive(Clone, PartialEq, Debug)]
pub struct TxSummaryUnblindingData<U> {
    /// The version of the blocks that the transaction is for.
    pub block_version: u32,
    /// The unblinding data of the outputs.
    pub outputs: Vec<U>,
    /// The amount of each input.
    pub inputs: Vec<UnmaskedAmount>,
}

/// Why there is no signing data.
#[derive(Clone, PartialEq, Debug)]
pub enum RingCtError<E> {
    /// There are this many blinding factors for that many rings.
    LengthMismatch(usize, usize),
    /// The preparation failed.
    Preparation(E),
}

impl InputRing {
    /// The amount that a ring brings in.
    pub open spec fn spec_amount(self) -> Amount {
        match self {
            InputRing::Signable(ring) => ring.amount,
            InputRing::Presigned(ring) => ring.amount,
        }
    }

    /// The amount that this ring brings in.
    pub fn amount(&self) -> (amount: Amount)
        ensures
            amount == self.spec_amount(),
    {
        match self {
            InputRing::Signable(ring) => ring.amount,
            InputRing::Presigned(ring) => ring.amount,
        }
    }

    /// Whether the real input of this ring is known.
    pub open spec fn is_signable(self) -> bool {
        self matches InputRing::Signable(ring) && ring.real_input_index < ring.members@.len()
    }

    /// The public key of the output that this ring spends.
    pub open spec fn real_input(self) -> TxOutPublic
        recommends
            self.is_signable(),
    {
        self->Signable_0.members@[self->Signable_0.real_input_index as int]
    }
}

/// The outputs that `rings` spend, each with the key image of the same position.
pub open spec fn spent(rings: Seq<InputRing>, key_images: Seq<KeyImage>) -> Seq<TxoSynced> {
    Seq::new(
        rings.len(),
        |i: int|
            TxoSynced { tx_out_public_key: rings[i].real_input(), key_image: key_images[i] },
    )
}

/// The amounts that `rings` bring in, each with the blinding factor of the same position.
pub open spec fn unmasked(rings: Seq<InputRing>, blindings: Seq<Blinding>) -> Seq<UnmaskedAmount> {
    Seq::new(
        rings.len(),
        |i: int|
            UnmaskedAmount {
                value: rings[i].spec_amount().value,
                token_id: rings[i].spec_amount().token_id,
                blinding: blindings[i],
            },
    )
}

impl<P, O, U> TxSignReq<P, O, U> {
    /// Whether `signature` can be answered with: the real input of every ring is known, and it
    /// holds a key image for each.
    pub open spec fn fits<S>(self, signature: SignatureRctBulletproofs<S>) -> bool {
        &&& forall|i: int| 0 <= i < self.rings@.len() ==> (#[trigger] self.rings@[i]).is_signable()
        &&& self.rings@.len() <= signature.key_images@.len()
    }

    /// The fee of the transaction.
    pub fn fee_amount(&self) -> (fee: Amount)
        ensures
            fee == (Amount {
                value: self.tx_prefix.fee,
                token_id: self.tx_prefix.fee_token_id,
            }),
    {
        Amount { value: self.tx_prefix.fee, token_id: self.tx_prefix.fee_token_id }
    }

    /// What the preparation of a signature for this request is told: it always checks that the
    /// transaction brings in exactly what it pays out.
    pub fn preparation_parameters(&self) -> (parameters: PreparationParameters)
        ensures
            parameters == (PreparationParameters {
                block_version: self.block_version,
                fee: Amount {
                    value: self.tx_prefix.fee,
                    token_id: self.tx_prefix.fee_token_id,
                },
                check_value_is_preserved: true,
            }),
    {
        PreparationParameters {
            block_version: self.block_version,
            fee: self.fee_amount(),
            check_value_is_preserved: true,
        }
    }

    /// Maps the key images in `signature` to the real inputs.
    pub fn spent_txos<S>(&self, signature: &SignatureRctBulletproofs<S>) -> (txos: Vec<TxoSynced>)
        requires
            self.fits(*signature),
        ensures
            txos@ == spent(self.rings@, signature.key_images@),
    {
        let mut txos: Vec<TxoSynced> = Vec::new();
        let mut i: usize = 0;
        while i < self.rings.len()
            invariant
                i <= self.rings@.len(),
                self.fits(*signature),
                txos@ == spent(self.rings@, signature.key_images@).take(i as int),
            decreases self.rings@.len() - i,
        {
            assert(self.rings@[i as int].is_signable());
            if let InputRing::Signable(ring) = &self.rings[i] {
                txos.push(
                    TxoSynced {
                        tx_out_public_key: ring.members[ring.real_input_index],
                        key_image: signature.key_images[i],
                    },
                );
            }
            i += 1;
            assert(txos@ =~= spent(self.rings@, signature.key_images@).take(i as int));
        }
        assert(txos@ =~= spent(self.rings@, signature.key_images@));
        txos
    }

    /// The amount of each input, unmasked with `blindings`.
    fn unmasked_inputs(&self, blindings: &Vec<Blinding>) -> (inputs: Vec<UnmaskedAmount>)
        requires
            blindings@.len() == self.rings@.len(),
        ensures
            inputs@ == unmasked(self.rings@, blindings@),
    {
        let mut inputs: Vec<UnmaskedAmount> = Vec::new();
        let mut i: usize = 0;
        while i < self.rings.len()
            invariant
                i <= self.rings@.len(),
                blindings@.len() == self.rings@.len(),
                inputs@ == unmasked(self.rings@, blindings@).take(i as int),
            decreases self.rings@.len() - i,
        {
            let amount = self.rings[i].amount();
            inputs.push(
                UnmaskedAmount {
                    value: amount.value,
                    token_id: amount.token_id,
                    blinding: blindings[i],
                },
            );
            i += 1;
            assert(inputs@ =~= unmasked(self.rings@, blindings@).take(i as int));
        }
        assert(inputs@ =~= unmasked(self.rings@, blindings@));
        inputs
    }

    /// Completes what has been prepared for a later signature, with the parameters that
    /// `preparation_parameters` gives: the signing data, the summary
    /// of the transaction (`T`) and the digest to sign (`X`). A signer that is to check the
    /// summary gets the unblinding data for it too, which takes the amounts from the rings and
    /// the blinding factors from the signing data. Use the result of one preparation only once.
    pub fn get_signing_data<D, T, X, E>(
        &self,
        prepared: Result<(SigningData<D>, T, X), E>,
    ) -> (res: Result<
        (SigningData<D>, T, Option<TxSummaryUnblindingData<U>>, X),
        RingCtError<E>,
    >) where U: Clone
        ensures
            match prepared {
                Err(error) => res matches Err(RingCtError::Preparation(e)) && e == error,
                Ok((data, summary, digest)) => {
                    let blindings = data.pseudo_output_blindings@;
                    match self.secrets {
                        TxSignSecrets::OutputSecrets(_) => {
                            &&& res matches Ok((same_data, same_summary, None, same_digest))
                            &&& same_data == data
                            &&& same_summary == summary
                            &&& same_digest == digest
                        },
                        TxSignSecrets::TxOutUnblindingData(outputs) => if blindings.len()
                            != self.rings@.len() {
                            &&& res matches Err(RingCtError::LengthMismatch(given, needed))
                            &&& given == blindings.len()
                            &&& needed == self.rings@.len()
                        } else {
                            &&& res matches Ok((same_data, same_summary, Some(shown), same_digest))
                            &&& same_data == data
                            &&& same_summary == summary
                            &&& same_digest == digest
                            &&& shown.block_version == self.block_version
                            &&& shown.inputs@ == unmasked(self.rings@, blindings)
                            &&& shown.outputs@.len() == outputs@.len()
                            &&& forall|i: int|
                                0 <= i < outputs@.len() ==> cloned(
                                    outputs@[i],
                                    #[trigger] shown.outputs@[i],
                                )
                        },
                    }
                },
            },
    {
        let (signing_data, tx_summary, digest) = match prepared {
            Ok(parts) => parts,
            Err(error) => return Err(RingCtError::Preparation(error)),
        };
        let mut unblinding_data: Option<TxSummaryUnblindingData<U>> = None;
        if let TxSignSecrets::TxOutUnblindingData(outputs) = &self.secrets {
            if signing_data.pseudo_output_blindings.len() != self.rings.len() {
                return Err(
                    RingCtError::LengthMismatch(
                        signing_data.pseudo_output_blindings.len(),
                        self.rings.len(),
                    ),
                );
            }
            unblinding_data = Some(
                TxSummaryUnblindingData {
                    block_version: self.block_version,
                    outputs: outputs.clone(),
                    inputs: self.unmasked_inputs(&signing_data.pseudo_output_blindings),
                },
            );
        }
        Ok((signing_data, tx_summary, unblinding_data, digest))
    }
}

/// Law: a ring brings in the amount that it holds, whether it has been signed or not.
pub proof fn law_ring_amounts(ring: InputRing, amount: Amount)
    requires
        call_ensures(InputRing::amount, (&ring,), amount),
    ensures
        ring matches InputRing::Signable(signable) ==> {
            &&& amount.value == signable.amount.value
            &&& amount.token_id == signable.amount.token_id
        },
        ring matches InputRing::Presigned(presigned) ==> {
            &&& amount.value == presigned.amount.value
            &&& amount.token_id == presigned.amount.token_id
        },
{
}

/// Law: the fee of a transaction is the one in its prefix, in the tokens that the prefix names;
/// the preparation is told this fee and the block version of the request, and always has to
/// check that the transaction brings in exactly what it pays out.
pub proof fn law_preparation<P, O, U>(
    req: TxSignReq<P, O, U>,
    fee: Amount,
    parameters: PreparationParameters,
)
    requires
        call_ensures(TxSignReq::<P, O, U>::fee_amount, (&req,), fee),
        call_ensures(TxSignReq::<P, O, U>::preparation_parameters, (&req,), parameters),
    ensures
        fee.value == req.tx_prefix.fee,
        fee.token_id == req.tx_prefix.fee_token_id,
        parameters.fee == fee,
        parameters.block_version == req.block_version,
        parameters.check_value_is_preserved,
{
}

/// Law: the spent outputs are, ring by ring, the member that is the real input, with the key
/// image that the signature holds for this ring.
pub proof fn law_spent_txos<P, O, U, S>(
    req: TxSignReq<P, O, U>,
    signature: SignatureRctBulletproofs<S>,
    txos: Vec<TxoSynced>,
)
    requires
        req.rings@.len() <= signature.key_images@.len(),
        forall|i: int|
            0 <= i < req.rings@.len() ==> {
                &&& #[trigger] req.rings@[i] matches InputRing::Signable(ring)
                &&& ring.real_input_index < ring.members@.len()
            },
        call_ensures(TxSignReq::<P, O, U>::spent_txos::<S>, (&req, &signature), txos),
    ensures
        call_requires(TxSignReq::<P, O, U>::spent_txos::<S>, (&req, &signature)),
        txos@.len() == req.rings@.len(),
        forall|i: int|
            #![trigger txos@[i]]
            #![trigger req.rings@[i]]
            0 <= i < req.rings@.len() ==> {
                &&& req.rings@[i] matches InputRing::Signable(ring)
                &&& txos@[i].tx_out_public_key == ring.members@[ring.real_input_index as int]
                &&& txos@[i].key_image == signature.key_images@[i]
            },
{
}

/// Law: what has been prepared goes through unchanged. Unblinding data comes exactly if the
/// request tells of the destinations of its outputs; it holds the block version and the outputs
/// of the request and, for each ring in its order, the value and the tokens of the amount in
/// this ring with the blinding factor of the same position. Blinding factors that do not match
/// the rings in number are refused only then, and a failed preparation always.
pub proof fn law_signing_data<P, O, U: Clone, D, T, X, E>(
    req: TxSignReq<P, O, U>,
    prepared: Result<(SigningData<D>, T, X), E>,
    res: Result<(SigningData<D>, T, Option<TxSummaryUnblindingData<U>>, X), RingCtError<E>>,
)
    requires
        call_ensures(
            TxSignReq::<P, O, U>::get_signing_data::<D, T, X, E>,
            (&req, prepared),
            res,
        ),
    ensures
        match res {
            Ok((data, summary, unblinding, digest)) => {
                &&& prepared matches Ok(given)
                &&& data == given.0
                &&& summary == given.1
                &&& digest == given.2
                &&& match unblinding {
                    None => req.secrets is OutputSecrets,
                    Some(shown) => {
                        &&& req.secrets matches TxSignSecrets::TxOutUnblindingData(outputs)
                        &&& shown.block_version == req.block_version
                        &&& shown.outputs@.len() == outputs@.len()
                        &&& forall|i: int|
                            0 <= i < outputs@.len() ==> cloned(
                                outputs@[i],
                                #[trigger] shown.outputs@[i],
                            )
                        &&& data.pseudo_output_blindings@.len() == req.rings@.len()
                        &&& shown.inputs@.len() == req.rings@.len()
                        &&& forall|i: int|
                            #![trigger shown.inputs@[i]]
                            #![trigger req.rings@[i]]
                            0 <= i < req.rings@.len() ==> {
                                let amount = match req.rings@[i] {
                                    InputRing::Signable(ring) => ring.amount,
                                    InputRing::Presigned(ring) => ring.amount,
                                };
                                &&& shown.inputs@[i].value == amount.value
                                &&& shown.inputs@[i].token_id == amount.token_id
                                &&& shown.inputs@[i].blinding
                                    == data.pseudo_output_blindings@[i]
                            }
                    },
                }
            },
            Err(RingCtError::LengthMismatch(blindings, rings)) => {
                &&& prepared matches Ok(given)
                &&& req.secrets is TxOutUnblindingData
                &&& blindings == given.0.pseudo_output_blindings@.len()
                &&& rings == req.rings@.len()
                &&& blindings != rings
            },
            Err(RingCtError::Preparation(error)) => prepared == Err::<
                (SigningData<D>, T, X),
                E,
            >(error),
        },
{
}

} // verus!

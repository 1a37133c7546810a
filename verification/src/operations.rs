//! The commands that every signer offers.

use crate::error::OperationError;
use crate::files;
use crate::files::JsonFile;
use crate::proposal::UnsignedTxProposalWrapper;
use crate::session;
use crate::session::{Progress, SigningSession};
use crate::traits::{KeyImageComputer, ViewAccountProvider};
use crate::transaction;
use crate::transaction::{InputRing, SignatureRctBulletproofs, Tx, TxSignReq, TxSignResp};
use crate::types::{
    AccountInfo, KeyImage, TxoSyncReq, TxoSyncResp, TxoSynced, TxoUnsynced, ViewAccount,
};
use vstd::prelude::*;

verus! {

/// A command for offline, detached or hardware signing.
#[derive(Clone, PartialEq, Debug)]
#[non_exhaustive]
pub enum Operations {
    /// Fetch account keys.
    GetAccount {
        /// File to write the view account to.
        output: String,
    },
    /// Sync outputs, recovering the key image of each.
    SyncTxos {
        /// File that holds the unsynced outputs.
        input: String,
        /// File to write the synced outputs to.
        output: String,
    },
    /// Sign a transaction.
    SignTx {
        /// File that holds the transaction to sign.
        input: String,
        /// File to write the signed transaction to.
        output: String,
    },
    /// Sign a transaction proposal.
    SignUnsignedTx {
        /// File that holds the proposal to sign.
        input: String,
        /// File to write the signed proposal to.
        output: String,
    },
}

/// Whether `res` is what comes of handing a value to `write_output` for the file `output`.
pub open spec fn offered<T, E>(
    res: Result<JsonFile<T>, OperationError<E>>,
    output: Seq<char>,
) -> bool {
    &&& files::format_verdict(output, res is Ok)
    &&& files::platform_verdict(output, res is Ok)
    &&& res matches Ok(file) ==> file.file_name@ == output
    &&& res matches Err(error) ==> error is UnsupportedFormat
}

/// The outputs `txos`, each with the key image of the same position.
pub open spec fn paired(txos: Seq<TxoUnsynced>, key_images: Seq<KeyImage>) -> Seq<TxoSynced> {
    Seq::new(
        txos.len(),
        |i: int|
            TxoSynced { tx_out_public_key: txos[i].tx_out_public_key, key_image: key_images[i] },
    )
}

/// Whether `answer` can be what `ctx` answers when asked for the key image of `txo`.
pub open spec fn can_answer<C: KeyImageComputer>(
    ctx: C,
    txo: TxoUnsynced,
    answer: Result<KeyImage, C::Error>,
) -> bool {
    call_ensures(C::compute_key_image, (&ctx, txo.subaddress, &txo.tx_out_public_key), answer)
}

/// Whether `key_images` can be what `ctx` answers when asked for the key images of `txos`.
pub open spec fn can_compute<C: KeyImageComputer>(
    ctx: C,
    txos: Seq<TxoUnsynced>,
    key_images: Seq<KeyImage>,
) -> bool {
    &&& key_images.len() == txos.len()
    &&& forall|i: int|
        #![trigger txos[i]]
        #![trigger key_images[i]]
        0 <= i < txos.len() ==> can_answer(ctx, txos[i], Ok(key_images[i]))
}

/// Whether `answer` can be what comes of asking `ctx` for the key images of `txos` one by one
/// and stopping at the first failure.
pub open spec fn can_answer_all<C: KeyImageComputer>(
    ctx: C,
    txos: Seq<TxoUnsynced>,
    answer: Result<Seq<KeyImage>, C::Error>,
) -> bool {
    match answer {
        Ok(key_images) => can_compute(ctx, txos, key_images),
        Err(error) => exists|at: int, key_images: Seq<KeyImage>|
            {
                &&& 0 <= at < txos.len()
                &&& #[trigger] can_compute(ctx, txos.take(at), key_images)
                &&& can_answer(ctx, txos[at], Err(error))
            },
    }
}

/// The contents of a list of key images, where there is one.
pub open spec fn listed<E>(key_images: Result<Vec<KeyImage>, E>) -> Result<Seq<KeyImage>, E> {
    match key_images {
        Ok(images) => Ok(images@),
        Err(error) => Err(error),
    }
}

/// Asks for the key image of each output in turn, up to the first failure.
fn compute_key_images<C: KeyImageComputer>(ctx: &C, txos: &Vec<TxoUnsynced>) -> (res: Result<
    Vec<KeyImage>,
    C::Error,
>)
    ensures
        can_answer_all(*ctx, txos@, listed(res)),
{
    let mut key_images: Vec<KeyImage> = Vec::new();
    let mut i: usize = 0;
    while i < txos.len()
        invariant
            i <= txos@.len(),
            key_images@.len() == i,
            forall|j: int| 0 <= j < i ==> can_answer(*ctx, txos@[j], Ok(#[trigger] key_images@[j])),
        decreases txos@.len() - i,
    {
        let txo = txos[i];
        match ctx.compute_key_image(txo.subaddress, &txo.tx_out_public_key) {
            Ok(key_image) => key_images.push(key_image),
            Err(error) => {
                assert(can_compute(*ctx, txos@.take(i as int), key_images@));
                return Err(error);
            },
        }
        i += 1;
    }
    Ok(key_images)
}

impl Operations {
    /// The index of the account that a command works on.
    pub fn account_index(&self) -> (index: u32)
        ensures
            index == 0,
    {
        0
    }

    /// Fetches view account credentials for the file `output`.
    pub fn get_account<C: ViewAccountProvider>(
        ctx: C,
        account_index: u32,
        output: &str,
    ) -> (res: Result<JsonFile<AccountInfo>, OperationError<C::Error>>)
        ensures
            exists|account: Result<ViewAccount, C::Error>|
                {
                    &&& #[trigger] call_ensures(C::account, (&ctx,), account)
                    &&& Self::answers_account(account, account_index, output@, res)
                },
    {
        let account = ctx.account();
        Self::account_response(account, account_index, output)
    }

    /// Whether `res` is the response for the file `output` to what an account provider gave.
    pub open spec fn answers_account<E>(
        account: Result<ViewAccount, E>,
        account_index: u32,
        output: Seq<char>,
        res: Result<JsonFile<AccountInfo>, OperationError<E>>,
    ) -> bool {
        match account {
            Ok(keys) => {
                &&& offered(res, output)
                &&& res matches Ok(file) ==> file.value == (AccountInfo {
                    account_index,
                    view_private: keys.view_private,
                    spend_public: keys.spend_public,
                })
            },
            Err(error) => res == Err::<JsonFile<AccountInfo>, _>(
                OperationError::AccountLoad(error),
            ),
        }
    }

    /// The response for the file `output` to what an account provider gave.
    pub fn account_response<E>(
        account: Result<ViewAccount, E>,
        account_index: u32,
        output: &str,
    ) -> (res: Result<JsonFile<AccountInfo>, OperationError<E>>)
        ensures
            Self::answers_account(account, account_index, output@, res),
    {
        let keys = match account {
            Ok(keys) => keys,
            Err(error) => return Err(OperationError::AccountLoad(error)),
        };
        let info = AccountInfo {
            account_index,
            view_private: keys.view_private,
            spend_public: keys.spend_public,
        };
        match files::write_output(output, info) {
            Ok(file) => Ok(file),
            Err(_) => Err(OperationError::UnsupportedFormat),
        }
    }

    /// Computes the key images of the requested outputs for the file `output`. The outputs are
    /// taken to belong to the subaddresses that the request names.
    pub fn sync_txos<C: KeyImageComputer>(ctx: C, req: TxoSyncReq, output: &str) -> (res: Result<
        JsonFile<TxoSyncResp>,
        OperationError<C::Error>,
    >)
        ensures
            exists|answer: Result<Seq<KeyImage>, C::Error>|
                {
                    &&& #[trigger] can_answer_all(ctx, req.txos@, answer)
                    &&& Self::answers_sync(req, answer, output@, res)
                },
    {
        let key_images = compute_key_images(&ctx, &req.txos);
        Self::sync_response(req, key_images, output)
    }

    /// Whether `res` is the response for the file `output` to the request `req`, given the key
    /// images of the requested outputs.
    pub open spec fn answers_sync<E>(
        req: TxoSyncReq,
        answer: Result<Seq<KeyImage>, E>,
        output: Seq<char>,
        res: Result<JsonFile<TxoSyncResp>, OperationError<E>>,
    ) -> bool {
        match answer {
            Ok(key_images) => {
                &&& offered(res, output)
                &&& res matches Ok(file) ==> {
                    &&& file.value.account_id == req.account_id
                    &&& file.value.synced_txos@ == paired(req.txos@, key_images)
                }
            },
            Err(error) => res == Err::<JsonFile<TxoSyncResp>, _>(OperationError::KeyImage(error)),
        }
    }

    /// The response for the file `output` to the request `req`, given the key images of the
    /// requested outputs in their order.
    pub fn sync_response<E>(
        req: TxoSyncReq,
        key_images: Result<Vec<KeyImage>, E>,
        output: &str,
    ) -> (res: Result<JsonFile<TxoSyncResp>, OperationError<E>>)
        requires
            key_images matches Ok(images) ==> images@.len() == req.txos@.len(),
        ensures
            Self::answers_sync(req, listed(key_images), output@, res),
    {
        let images = match key_images {
            Ok(images) => images,
            Err(error) => return Err(OperationError::KeyImage(error)),
        };
        let mut synced_txos: Vec<TxoSynced> = Vec::new();
        let mut i: usize = 0;
        while i < req.txos.len()
            invariant
                i <= req.txos@.len(),
                images@.len() == req.txos@.len(),
                synced_txos@ == paired(req.txos@, images@).take(i as int),
            decreases req.txos@.len() - i,
        {
            synced_txos.push(
                TxoSynced {
                    tx_out_public_key: req.txos[i].tx_out_public_key,
                    key_image: images[i],
                },
            );
            i += 1;
            assert(synced_txos@ =~= paired(req.txos@, images@).take(i as int));
        }
        assert(synced_txos@ =~= paired(req.txos@, images@));
        let resp = TxoSyncResp { account_id: req.account_id, synced_txos };
        match files::write_output(output, resp) {
            Ok(file) => Ok(file),
            Err(_) => Err(OperationError::UnsupportedFormat),
        }
    }

    /// Whether `res` is the response for the file `output` to the request `req`, given the
    /// signature.
    pub open spec fn answers_sign<P, O, U, S, E>(
        req: TxSignReq<P, O, U>,
        signature: Result<SignatureRctBulletproofs<S>, E>,
        output: Seq<char>,
        res: Result<JsonFile<TxSignResp<P, S>>, OperationError<E>>,
    ) -> bool {
        match signature {
            Ok(given) => {
                &&& offered(res, output)
                &&& res matches Ok(file) ==> {
                    &&& file.value.account_id == req.account_id
                    &&& file.value.tx.prefix == req.tx_prefix
                    &&& file.value.tx.signature == given
                    &&& file.value.tx.fee_map_digest@ == Seq::<u8>::empty()
                    &&& file.value.txos@ == transaction::spent(req.rings@, given.key_images@)
                }
            },
            Err(error) => res == Err::<JsonFile<TxSignResp<P, S>>, _>(
                OperationError::Sign(error),
            ),
        }
    }

    /// Answers the request to sign a transaction for the file `output`, given the signature or
    /// the reason why there is none. A ring that has been signed elsewhere cannot be answered
    /// for.
    pub fn sign_tx<P, O, U, S, E>(
        req: TxSignReq<P, O, U>,
        signature: Result<SignatureRctBulletproofs<S>, E>,
        output: &str,
    ) -> (res: Result<JsonFile<TxSignResp<P, S>>, OperationError<E>>)
        requires
            signature matches Ok(given) ==> req.fits(given),
        ensures
            Self::answers_sign(req, signature, output@, res),
    {
        let signature = match signature {
            Ok(given) => given,
            Err(error) => return Err(OperationError::Sign(error)),
        };
        let txos = req.spent_txos(&signature);
        let resp = TxSignResp {
            account_id: req.account_id,
            tx: Tx { prefix: req.tx_prefix, signature, fee_map_digest: Vec::new() },
            txos,
        };
        match files::write_output(output, resp) {
            Ok(file) => Ok(file),
            Err(_) => Err(OperationError::UnsupportedFormat),
        }
    }

    /// Begins to sign a transaction proposal for the file `output`. The session that comes back
    /// says what has to be done next, and goes on with `SigningSession::advance`.
    pub fn sign_unsigned_tx<A, O, E>(
        request: UnsignedTxProposalWrapper<A, O>,
        output: &str,
    ) -> (res: Result<Progress<A, O>, OperationError<E>>)
        ensures
            session::yields(
                session::opened(request.unsigned_tx_proposal@, output@),
                output@,
                res,
            ),
    {
        SigningSession::open(request.unsigned_tx_proposal, output)
    }
}

/// Law: signing the same request twice, with signatures that hold the same key images, gives
/// responses that differ in the signature at most.
pub proof fn law_signing_twice<P, O, U, S, E>(
    req: TxSignReq<P, O, U>,
    first: SignatureRctBulletproofs<S>,
    second: SignatureRctBulletproofs<S>,
    first_output: Seq<char>,
    second_output: Seq<char>,
    first_res: Result<JsonFile<TxSignResp<P, S>>, OperationError<E>>,
    second_res: Result<JsonFile<TxSignResp<P, S>>, OperationError<E>>,
)
    requires
        first.key_images@ == second.key_images@,
        Operations::answers_sign(req, Ok::<_, E>(first), first_output, first_res),
        Operations::answers_sign(req, Ok::<_, E>(second), second_output, second_res),
        first_res is Ok,
        second_res is Ok,
    ensures
        first_res->Ok_0.value.account_id == second_res->Ok_0.value.account_id,
        first_res->Ok_0.value.tx.prefix == second_res->Ok_0.value.tx.prefix,
        first_res->Ok_0.value.tx.fee_map_digest@ == second_res->Ok_0.value.tx.fee_map_digest@,
        first_res->Ok_0.value.txos@ == second_res->Ok_0.value.txos@,
{
}

/// Law: every command works on the first account.
pub proof fn law_first_account(command: Operations, index: u32)
    requires
        call_ensures(Operations::account_index, (&command,), index),
    ensures
        index == 0,
{
}

/// Law: what is written of an account are the keys that the provider gave, each in its own
/// field, and the index that was asked for, under the name of the output file. A provider that
/// fails is reported before anything else, and the name of the output file decides the rest.
pub proof fn law_account_response<E>(
    account: Result<ViewAccount, E>,
    account_index: u32,
    output: &str,
    res: Result<JsonFile<AccountInfo>, OperationError<E>>,
)
    requires
        call_ensures(Operations::account_response::<E>, (account, account_index, output), res),
    ensures
        account matches Ok(keys) ==> {
            &&& files::format_verdict(output@, res is Ok)
            &&& files::platform_verdict(output@, res is Ok)
            &&& res matches Ok(file) ==> {
                &&& file.file_name@ == output@
                &&& file.value.account_index == account_index
                &&& file.value.view_private == keys.view_private
                &&& file.value.spend_public == keys.spend_public
            }
            &&& res matches Err(error) ==> error == OperationError::<E>::UnsupportedFormat
        },
        account matches Err(error) ==> res matches Err(reported) && reported
            == OperationError::AccountLoad(error),
{
}

/// Law: what is written of an account is what the provider answered when it was asked, field by
/// field; and an error is either the provider's, or its keys came and the output file has no
/// supported format.
pub proof fn law_get_account<C: ViewAccountProvider>(
    ctx: C,
    account_index: u32,
    output: &str,
    res: Result<JsonFile<AccountInfo>, OperationError<C::Error>>,
)
    requires
        call_ensures(Operations::get_account::<C>, (ctx, account_index, output), res),
    ensures
        match res {
            Ok(file) => {
                &&& file.file_name@ == output@
                &&& file.value.account_index == account_index
                &&& exists|keys: ViewAccount|
                    {
                        &&& #[trigger] call_ensures(C::account, (&ctx,), Ok(keys))
                        &&& file.value.view_private == keys.view_private
                        &&& file.value.spend_public == keys.spend_public
                    }
                &&& files::format_verdict(output@, true)
                &&& files::platform_verdict(output@, true)
            },
            Err(OperationError::AccountLoad(error)) => call_ensures(
                C::account,
                (&ctx,),
                Err(error),
            ),
            Err(OperationError::UnsupportedFormat) => {
                &&& exists|keys: ViewAccount| #[trigger] call_ensures(C::account, (&ctx,), Ok(keys))
                &&& files::format_verdict(output@, false)
                &&& files::platform_verdict(output@, false)
            },
            Err(_) => false,
        },
{
}

/// Law: a synced list names the account and the outputs of the request, in their order, and puts
/// to each output the key image that was given for its position. Key images of as many outputs
/// as were requested are always taken; a failure is reported before anything else.
pub proof fn law_sync_response<E>(
    req: TxoSyncReq,
    key_images: Result<Vec<KeyImage>, E>,
    output: &str,
    res: Result<JsonFile<TxoSyncResp>, OperationError<E>>,
)
    requires
        key_images matches Ok(images) ==> images@.len() == req.txos@.len(),
        call_ensures(Operations::sync_response::<E>, (req, key_images, output), res),
    ensures
        call_requires(Operations::sync_response::<E>, (req, key_images, output)),
        key_images matches Ok(images) ==> {
            &&& files::format_verdict(output@, res is Ok)
            &&& files::platform_verdict(output@, res is Ok)
            &&& res matches Ok(file) ==> {
                &&& file.file_name@ == output@
                &&& file.value.account_id == req.account_id
                &&& file.value.synced_txos@.len() == req.txos@.len()
                &&& forall|i: int|
                    #![trigger file.value.synced_txos@[i]]
                    0 <= i < req.txos@.len() ==> {
                        &&& file.value.synced_txos@[i].tx_out_public_key
                            == req.txos@[i].tx_out_public_key
                        &&& file.value.synced_txos@[i].key_image == images@[i]
                    }
            }
            &&& res matches Err(error) ==> error == OperationError::<E>::UnsupportedFormat
        },
        key_images matches Err(error) ==> res matches Err(reported) && reported
            == OperationError::KeyImage(error),
{
}

/// Law: each output of a synced list has the key image that the computer answered when asked
/// for this very output under its subaddress, and the list leaves out and adds nothing. A
/// failure to compute is that of one of the outputs, and those in front of it had key images; if
/// the output file is refused, all of them had.
pub proof fn law_sync_txos<C: KeyImageComputer>(
    ctx: C,
    req: TxoSyncReq,
    output: &str,
    res: Result<JsonFile<TxoSyncResp>, OperationError<C::Error>>,
)
    requires
        call_ensures(Operations::sync_txos::<C>, (ctx, req, output), res),
    ensures
        res matches Ok(file) ==> {
            &&& files::format_verdict(output@, true)
            &&& files::platform_verdict(output@, true)
            &&& file.file_name@ == output@
            &&& file.value.account_id == req.account_id
            &&& file.value.synced_txos@.len() == req.txos@.len()
            &&& forall|i: int|
                #![trigger file.value.synced_txos@[i]]
                0 <= i < req.txos@.len() ==> {
                    &&& file.value.synced_txos@[i].tx_out_public_key
                        == req.txos@[i].tx_out_public_key
                    &&& call_ensures(
                        C::compute_key_image,
                        (&ctx, req.txos@[i].subaddress, &req.txos@[i].tx_out_public_key),
                        Ok(file.value.synced_txos@[i].key_image),
                    )
                }
        },
        res matches Err(error) ==> error is KeyImage || error is UnsupportedFormat,
        res matches Err(OperationError::KeyImage(error)) ==> exists|at: int|
            #![trigger req.txos@[at]]
            {
                &&& 0 <= at < req.txos@.len()
                &&& call_ensures(
                    C::compute_key_image,
                    (&ctx, req.txos@[at].subaddress, &req.txos@[at].tx_out_public_key),
                    Err(error),
                )
                &&& forall|i: int|
                    #![trigger req.txos@[i]]
                    0 <= i < at ==> exists|key_image: KeyImage| #[trigger]
                        call_ensures(
                            C::compute_key_image,
                            (&ctx, req.txos@[i].subaddress, &req.txos@[i].tx_out_public_key),
                            Ok(key_image),
                        )
            },
        res matches Err(OperationError::UnsupportedFormat) ==> {
            &&& files::format_verdict(output@, false)
            &&& files::platform_verdict(output@, false)
            &&& forall|i: int|
                #![trigger req.txos@[i]]
                0 <= i < req.txos@.len() ==> exists|key_image: KeyImage| #[trigger]
                    call_ensures(
                        C::compute_key_image,
                        (&ctx, req.txos@[i].subaddress, &req.txos@[i].tx_out_public_key),
                        Ok(key_image),
                    )
        },
{
    let answer = choose|answer: Result<Seq<KeyImage>, C::Error>|
        {
            &&& #[trigger] can_answer_all(ctx, req.txos@, answer)
            &&& Operations::answers_sync(req, answer, output@, res)
        };
    match answer {
        Ok(key_images) => {
            assert forall|i: int|
                #![trigger req.txos@[i]]
                0 <= i < req.txos@.len() implies exists|key_image: KeyImage| #[trigger]
                call_ensures(
                    C::compute_key_image,
                    (&ctx, req.txos@[i].subaddress, &req.txos@[i].tx_out_public_key),
                    Ok(key_image),
                ) by {
                assert(can_answer(ctx, req.txos@[i], Ok(key_images[i])));
            }
            if let Ok(file) = res {
                assert forall|i: int|
                    #![trigger file.value.synced_txos@[i]]
                    0 <= i < req.txos@.len() implies {
                    &&& file.value.synced_txos@[i].tx_out_public_key
                        == req.txos@[i].tx_out_public_key
                    &&& call_ensures(
                        C::compute_key_image,
                        (&ctx, req.txos@[i].subaddress, &req.txos@[i].tx_out_public_key),
                        Ok(file.value.synced_txos@[i].key_image),
                    )
                } by {
                    assert(can_answer(ctx, req.txos@[i], Ok(key_images[i])));
                    assert(file.value.synced_txos@[i].key_image == key_images[i]);
                }
            }
        },
        Err(error) => {
            let (at, key_images) = choose|at: int, key_images: Seq<KeyImage>|
                {
                    &&& 0 <= at < req.txos@.len()
                    &&& #[trigger] can_compute(ctx, req.txos@.take(at), key_images)
                    &&& can_answer(ctx, req.txos@[at], Err(error))
                };
            assert(call_ensures(
                C::compute_key_image,
                (&ctx, req.txos@[at].subaddress, &req.txos@[at].tx_out_public_key),
                Err(error),
            ));
            assert forall|i: int|
                #![trigger req.txos@[i]]
                0 <= i < at implies exists|key_image: KeyImage| #[trigger]
                call_ensures(
                    C::compute_key_image,
                    (&ctx, req.txos@[i].subaddress, &req.txos@[i].tx_out_public_key),
                    Ok(key_image),
                ) by {
                assert(req.txos@.take(at)[i] == req.txos@[i]);
                assert(can_answer(ctx, req.txos@.take(at)[i], Ok(key_images[i])));
            }
        },
    }
}

/// Law: a signed transaction is answered with the account and the prefix of the request, the
/// signature as it was given and no digest; and for each ring, in the order of the rings, with
/// the public key of the member that is the real input and the key image that the signature
/// holds for this ring. A failure to sign is reported before anything else.
pub proof fn law_sign_tx<P, O, U, S, E>(
    req: TxSignReq<P, O, U>,
    signature: Result<SignatureRctBulletproofs<S>, E>,
    output: &str,
    res: Result<JsonFile<TxSignResp<P, S>>, OperationError<E>>,
)
    requires
        signature matches Ok(given) ==> {
            &&& req.rings@.len() <= given.key_images@.len()
            &&& forall|i: int|
                0 <= i < req.rings@.len() ==> {
                    &&& #[trigger] req.rings@[i] matches InputRing::Signable(ring)
                    &&& ring.real_input_index < ring.members@.len()
                }
        },
        call_ensures(Operations::sign_tx::<P, O, U, S, E>, (req, signature, output), res),
    ensures
        call_requires(Operations::sign_tx::<P, O, U, S, E>, (req, signature, output)),
        signature matches Ok(given) ==> {
            &&& files::format_verdict(output@, res is Ok)
            &&& files::platform_verdict(output@, res is Ok)
            &&& res matches Ok(file) ==> {
                &&& file.file_name@ == output@
                &&& file.value.account_id == req.account_id
                &&& file.value.tx.prefix == req.tx_prefix
                &&& file.value.tx.signature == given
                &&& file.value.tx.fee_map_digest@.len() == 0
                &&& file.value.txos@.len() == req.rings@.len()
                &&& forall|i: int|
                    #![trigger file.value.txos@[i]]
                    #![trigger req.rings@[i]]
                    0 <= i < req.rings@.len() ==> {
                        &&& req.rings@[i] matches InputRing::Signable(ring)
                        &&& file.value.txos@[i].tx_out_public_key
                            == ring.members@[ring.real_input_index as int]
                        &&& file.value.txos@[i].key_image == given.key_images@[i]
                    }
            }
            &&& res matches Err(error) ==> error == OperationError::<E>::UnsupportedFormat
        },
        signature matches Err(error) ==> res matches Err(reported) && reported
            == OperationError::Sign(error),
{
}

} // verus!

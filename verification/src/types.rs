//! Requests, responses and the values in them.

use vstd::prelude::*;

verus! {

/// A root view private key, as the bytes of its scalar.
#[derive(Clone, Copy, PartialEq, Eq, Debug)]
pub struct RootViewPrivate(pub [u8; 32]);

/// A root spend private key, as the bytes of its scalar.
#[derive(Clone, Copy, PartialEq, Eq, Debug)]
pub struct RootSpendPrivate(pub [u8; 32]);

/// A root spend public key, as the bytes of its compressed point.
#[derive(Clone, Copy, PartialEq, Eq, Debug)]
pub struct RootSpendPublic(pub [u8; 32]);

/// The public key of a transaction output, as the bytes of its compressed point.
#[derive(Clone, Copy, PartialEq, Eq, Debug)]
pub struct TxOutPublic(pub [u8; 32]);

/// A key image, which tells that an output has been spent.
#[derive(Clone, Copy, PartialEq, Eq, Debug)]
pub struct KeyImage(pub [u8; 32]);

/// A blinding factor, as the bytes of its scalar.
#[derive(Clone, Copy, PartialEq, Eq, Debug)]
pub struct Blinding(pub [u8; 32]);

/// The keys of an account that can see its outputs but not spend them.
#[derive(Clone, Copy, PartialEq, Eq, Debug)]
pub struct ViewAccount {
    /// The key that finds the account's outputs.
    pub view_private: RootViewPrivate,
    /// The key that others pay to.
    pub spend_public: RootSpendPublic,
}

/// View account credentials, for the wallet that syncs on the account's behalf.
#[derive(Clone, Copy, PartialEq, Eq, Debug)]
pub struct AccountInfo {
    /// The account's index below its mnemonic.
    pub account_index: u32,
    /// The key that finds the account's outputs.
    pub view_private: RootViewPrivate,
    /// The key that others pay to.
    pub spend_public: RootSpendPublic,
}

/// An output whose key image is not known yet.
#[derive(Clone, Copy, PartialEq, Eq, Debug)]
pub struct TxoUnsynced {
    /// The index of the subaddress that received the output.
    pub subaddress: u64,
    /// The output's public key.
    pub tx_out_public_key: TxOutPublic,
}

/// An output with its key image.
#[derive(Clone, Copy, PartialEq, Eq, Debug)]
pub struct TxoSynced {
    /// The output's public key.
    pub tx_out_public_key: TxOutPublic,
    /// The output's key image.
    pub key_image: KeyImage,
}

/// A request for the key images of some outputs of an account.
#[derive(Clone, PartialEq, Eq, Debug)]
pub struct TxoSyncReq {
    /// The account that owns the outputs.
    pub account_id: String,
    /// The outputs.
    pub txos: Vec<TxoUnsynced>,
}

/// The key images asked for in a `TxoSyncReq`.
#[derive(Clone, PartialEq, Eq, Debug)]
pub struct TxoSyncResp {
    /// The account that owns the outputs.
    pub account_id: String,
    /// The outputs, in the order of the request.
    pub synced_txos: Vec<TxoSynced>,
}

} // verus!

//! What a signer has to provide. A hardware wallet answers these calls on the device, an
//! offline signer from keys in memory.

use crate::types::{KeyImage, TxOutPublic, ViewAccount};
use vstd::prelude::*;

verus! {

/// Gives out the keys of a view-only account.
pub trait ViewAccountProvider {
    /// Why there is no account to give out.
    type Error;

    /// Fetches the view account keys.
    fn account(&self) -> Result<ViewAccount, Self::Error>;
}

/// Computes the key images of owned outputs.
pub trait KeyImageComputer {
    /// Why there is no key image.
    type Error;

    /// Computes the key image of the output with the given public key, received by the
    /// subaddress with the given index.
    fn compute_key_image(&self, subaddress: u64, tx_out_public_key: &TxOutPublic) -> Result<
        KeyImage,
        Self::Error,
    >;
}

} // verus!

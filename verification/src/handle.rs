//! The handle a caller supplies for an account.

use crate::address::Address;
use vstd::prelude::*;

verus! {

/// An address as a call names it, with whether the call carries its
/// signature.
#[derive(Clone, Copy, Debug, PartialEq, Eq)]
pub struct AccountHandle {
    pub key: Address,
    pub is_signer: bool,
}

impl AccountHandle {
    /// A handle whose signature the call carries.
    pub fn signer(key: Address) -> (handle: AccountHandle)
        ensures
            handle == (AccountHandle { key, is_signer: true }),
    {
        AccountHandle { key, is_signer: true }
    }

    /// A handle that did not sign.
    pub fn plain(key: Address) -> (handle: AccountHandle)
        ensures
            handle == (AccountHandle { key, is_signer: false }),
    {
        AccountHandle { key, is_signer: false }
    }
}

} // verus!

//! The accounts an instruction names, as the program sees them.

use crate::address::Address;
use vstd::prelude::*;

verus! {

/// One account of the list that comes with an instruction. The position of
/// an account in that list says which part it plays.
#[derive(Clone, Debug, PartialEq, Eq)]
pub struct Account {
    /// The address of the account.
    pub key: Address,
    /// Its balance; an account with no balance does not exist yet.
    pub lamports: u64,
    /// The bytes it stores.
    pub data: Vec<u8>,
    /// Whether the holder of this account signed the transaction.
    pub is_signer: bool,
}

/// What an account holds.
pub struct AccountView {
    pub key: Address,
    pub lamports: u64,
    pub data: Seq<u8>,
    pub is_signer: bool,
}

impl View for Account {
    type V = AccountView;

    open spec fn view(&self) -> AccountView {
        AccountView {
            key: self.key,
            lamports: self.lamports,
            data: self.data@,
            is_signer: self.is_signer,
        }
    }
}

/// What the accounts of a list hold, in order.
pub open spec fn views(accounts: Seq<Account>) -> Seq<AccountView> {
    accounts.map_values(|account: Account| account@)
}

impl AccountView {
    /// The same account, storing `data`.
    pub open spec fn with_data(self, data: Seq<u8>) -> AccountView {
        AccountView { key: self.key, lamports: self.lamports, data, is_signer: self.is_signer }
    }
}

} // verus!

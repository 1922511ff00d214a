//! Accounts as an operation reads them.

use crate::pubkey::Pubkey;
use vstd::prelude::*;

verus! {

/// What an operation reads of one account that was passed to it.
#[derive(Clone, Debug, PartialEq, Eq)]
pub struct AccountInfo {
    /// Address of the account.
    pub key: Pubkey,
    /// Whether the transaction was signed with the key of this account.
    pub is_signer: bool,
    /// The data held in the account.
    pub data: Vec<u8>,
}

/// An [`AccountInfo`] as a value of the model.
pub struct AccountInfoView {
    pub key: Seq<u8>,
    pub is_signer: bool,
    pub data: Seq<u8>,
}

impl View for AccountInfo {
    type V = AccountInfoView;

    open spec fn view(&self) -> AccountInfoView {
        AccountInfoView { key: self.key@, is_signer: self.is_signer, data: self.data@ }
    }
}

/// The accounts of an operation, each as a value of the model.
pub open spec fn accounts_view(accounts: Seq<AccountInfo>) -> Seq<AccountInfoView> {
    Seq::new(accounts.len(), |i: int| accounts[i]@)
}

} // verus!

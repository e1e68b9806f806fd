//! An account as a request sees it: who it is, who owns it, whether it signed,
//! and the bytes it stores.

use crate::pubkey::Pubkey;
use vstd::prelude::*;

verus! {

/// One account handed to a program with a request.
#[derive(Debug)]
pub struct AccountInfo {
    /// The account's address.
    pub key: Pubkey,
    /// What the account holds in lamports.
    pub lamports: u64,
    /// The bytes stored in the account; empty while no storage is allocated.
    pub data: Vec<u8>,
    /// The program that owns the account.
    pub owner: Pubkey,
    /// The epoch at which the account next owes rent.
    pub rent_epoch: u64,
    /// Whether the account signed the request.
    pub is_signer: bool,
    /// Whether the request may change the account.
    pub is_writable: bool,
    /// Whether the account holds a program.
    pub executable: bool,
}

/// An account with its stored bytes as a sequence.
pub struct AccountInfoView {
    pub key: Pubkey,
    pub lamports: u64,
    pub data: Seq<u8>,
    pub owner: Pubkey,
    pub rent_epoch: u64,
    pub is_signer: bool,
    pub is_writable: bool,
    pub executable: bool,
}

impl View for AccountInfo {
    type V = AccountInfoView;

    open spec fn view(&self) -> AccountInfoView {
        AccountInfoView {
            key: self.key,
            lamports: self.lamports,
            data: self.data@,
            owner: self.owner,
            rent_epoch: self.rent_epoch,
            is_signer: self.is_signer,
            is_writable: self.is_writable,
            executable: self.executable,
        }
    }
}

impl DeepView for AccountInfo {
    type V = AccountInfoView;

    open spec fn deep_view(&self) -> AccountInfoView {
        self@
    }
}

impl AccountInfoView {
    /// The same account, storing `data`.
    pub open spec fn with_data(self, data: Seq<u8>) -> AccountInfoView {
        AccountInfoView { data, ..self }
    }
}

impl AccountInfo {
    pub fn new(
        key: Pubkey,
        is_signer: bool,
        is_writable: bool,
        lamports: u64,
        data: Vec<u8>,
        owner: Pubkey,
        executable: bool,
        rent_epoch: u64,
    ) -> (account: AccountInfo)
        ensures
            account.key == key,
            account.lamports == lamports,
            account.data == data,
            account.owner == owner,
            account.rent_epoch == rent_epoch,
            account.is_signer == is_signer,
            account.is_writable == is_writable,
            account.executable == executable,
    {
        AccountInfo { key, lamports, data, owner, rent_epoch, is_signer, is_writable, executable }
    }
}

} // verus!

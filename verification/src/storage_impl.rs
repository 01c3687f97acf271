//! Storage staking: what an account has deposited, what of it is used, and
//! the prices that storage is billed at.
use vstd::prelude::*;
use crate::ledger::{
    after_deposit, after_withdraw, balance_in, deposit_accepted, deposit_refund, withdraw_refusal,
};
use crate::outcome::{MailError, Transfer, TransferView};
use crate::{Contract, ContractModel};

verus! {

/// Bytes billed for every message sent.
pub const STORAGE_PER_MAIL: u128 = 10;

/// Bytes billed once for the account record itself.
pub const STORAGE_PER_ACCOUNT: u128 = 20;

/// Price of one byte of storage, in yoctoNEAR, as the SDK reports it.
pub const STORAGE_PRICE_PER_BYTE: u128 = 10_000_000_000_000_000_000;

/// The staking balance of one account.
#[derive(Clone, Copy, Debug, PartialEq, Eq)]
pub struct VAccount {
    /// Everything deposited so far, less what was withdrawn.
    pub deposit: u128,
    /// The part of the deposit that storage already billed holds.
    pub used: u128,
}

/// What an account is told about its staking balance.
#[derive(Clone, Copy, Debug, PartialEq, Eq)]
pub struct StorageBalance {
    pub total: u128,
    pub available: u128,
}

/// The least and the greatest deposit an account may hold.
#[derive(Clone, Copy, Debug, PartialEq, Eq)]
pub struct StorageBalanceBounds {
    pub min: u128,
    pub max: Option<u128>,
}

/// The deposit that registering an account takes at a price of `byte_cost`
/// per byte.
pub open spec fn min_deposit_at(byte_cost: u128) -> int {
    byte_cost * STORAGE_PER_ACCOUNT
}

/// What one more message costs at a price of `byte_cost` per byte.
pub open spec fn mail_cost_at(byte_cost: u128) -> int {
    STORAGE_PER_MAIL * byte_cost
}

/// The SDK's `near_sdk::env::storage_byte_cost`. In the SDK release this
/// crate builds against it reads nothing from the host: it returns the
/// SDK's constant of the same name as ours, ten to the nineteenth.
#[verifier::external_body]
pub(crate) fn storage_byte_cost() -> (byte_cost: u128)
    ensures
        byte_cost == STORAGE_PRICE_PER_BYTE,
{
    near_sdk::env::storage_byte_cost()
}

/// The deposit that registering an account takes at the current price.
pub fn min_deposit() -> (amount: u128)
    ensures
        amount == min_deposit_at(STORAGE_PRICE_PER_BYTE),
{
    storage_byte_cost() * STORAGE_PER_ACCOUNT
}

/// The account a deposit is for: the one named, or else the caller.
pub open spec fn beneficiary(predecessor: Seq<char>, account_id: Option<String>) -> Seq<char> {
    match account_id {
        Some(account) => account@,
        None => predecessor,
    }
}

/// Whether a deposit is for registration only; it is not unless asked for.
pub open spec fn registration_only_or_default(registration_only: Option<bool>) -> bool {
    match registration_only {
        Some(only) => only,
        None => false,
    }
}

impl Contract {
    /// Credits `attached_deposit`, paid by `predecessor`, to `account_id`,
    /// or to `predecessor` itself where no account is named.
    ///
    /// See [`crate::AccountLedger::deposit`] for what is credited, refused
    /// and refunded; the price is the current one.
    pub fn storage_deposit(
        &mut self,
        predecessor: &str,
        account_id: Option<String>,
        registration_only: Option<bool>,
        attached_deposit: u128,
    ) -> (result: Result<(StorageBalance, Option<Transfer>), MailError>)
        requires
            old(self).wf(),
            old(self)@.accounts.contains_key(beneficiary(predecessor@, account_id)) ==> old(
                self,
            )@.accounts[beneficiary(predecessor@, account_id)].deposit + attached_deposit
                <= u128::MAX,
        ensures
            final(self).wf(),
            final(self)@ == (ContractModel {
                accounts: after_deposit(
                    old(self)@.accounts,
                    beneficiary(predecessor@, account_id),
                    attached_deposit,
                    registration_only_or_default(registration_only),
                    STORAGE_PRICE_PER_BYTE,
                ),
                ..old(self)@
            }),
            match result {
                Ok((balance, refund)) => {
                    &&& deposit_accepted(
                        old(self)@.accounts,
                        beneficiary(predecessor@, account_id),
                        attached_deposit,
                        STORAGE_PRICE_PER_BYTE,
                    )
                    &&& balance == balance_in(
                        final(self)@.accounts,
                        beneficiary(predecessor@, account_id),
                    )
                    &&& match refund {
                        Some(transfer) => deposit_refund(
                            old(self)@.accounts,
                            beneficiary(predecessor@, account_id),
                            attached_deposit,
                            registration_only_or_default(registration_only),
                            STORAGE_PRICE_PER_BYTE,
                        ) == Some(transfer.amount) && transfer.receiver@ == predecessor@,
                        None => deposit_refund(
                            old(self)@.accounts,
                            beneficiary(predecessor@, account_id),
                            attached_deposit,
                            registration_only_or_default(registration_only),
                            STORAGE_PRICE_PER_BYTE,
                        ) is None,
                    }
                },
                Err(e) => e == MailError::InsufficientDeposit && !deposit_accepted(
                    old(self)@.accounts,
                    beneficiary(predecessor@, account_id),
                    attached_deposit,
                    STORAGE_PRICE_PER_BYTE,
                ),
            },
    {
        let only: bool = match registration_only {
            Some(only) => only,
            None => false,
        };
        let byte_cost: u128 = storage_byte_cost();
        match account_id {
            Some(account) => self.ledger.deposit(
                predecessor,
                account.as_str(),
                attached_deposit,
                only,
                byte_cost,
            ),
            None => self.ledger.deposit(predecessor, predecessor, attached_deposit, only, byte_cost),
        }
    }

    /// Pays `amount` of what `predecessor` has available back to it.
    pub fn storage_withdraw(&mut self, predecessor: &str, amount: u128) -> (result: Result<
        (StorageBalance, Transfer),
        MailError,
    >)
        requires
            old(self).wf(),
        ensures
            final(self).wf(),
            final(self)@ == (ContractModel {
                accounts: after_withdraw(old(self)@.accounts, predecessor@, amount),
                ..old(self)@
            }),
            match result {
                Ok((balance, transfer)) => {
                    &&& withdraw_refusal(old(self)@.accounts, predecessor@, amount) is None
                    &&& balance == balance_in(final(self)@.accounts, predecessor@)
                    &&& transfer@ == (TransferView { receiver: predecessor@, amount })
                },
                Err(e) => withdraw_refusal(old(self)@.accounts, predecessor@, amount) == Some(e),
            },
    {
        self.ledger.withdraw(predecessor, amount)
    }

    /// Removes the account of `predecessor` and pays back all it had
    /// deposited. Returns whether there was such an account, and the
    /// transfer if there was. `force` is not consulted: an account is
    /// removed whatever it still has in use.
    #[allow(unused_variables)]
    pub fn storage_unregister(&mut self, predecessor: &str, force: Option<bool>) -> (result: (
        bool,
        Option<Transfer>,
    ))
        requires
            old(self).wf(),
        ensures
            final(self).wf(),
            final(self)@ == (ContractModel {
                accounts: old(self)@.accounts.remove(predecessor@),
                ..old(self)@
            }),
            result.0 == old(self)@.accounts.contains_key(predecessor@),
            match result.1 {
                Some(transfer) => result.0 && transfer@ == (TransferView {
                    receiver: predecessor@,
                    amount: old(self)@.accounts[predecessor@].deposit,
                }),
                None => !result.0,
            },
    {
        match self.ledger.unregister(predecessor) {
            Some(transfer) => (true, Some(transfer)),
            None => (false, None),
        }
    }

    /// The least deposit that registers an account at the current price;
    /// there is no greatest.
    pub fn storage_balance_bounds(&self) -> (bounds: StorageBalanceBounds)
        ensures
            bounds.min == min_deposit_at(STORAGE_PRICE_PER_BYTE),
            bounds.max is None,
    {
        StorageBalanceBounds { min: min_deposit(), max: None }
    }

    /// The balance of `account_id`, if it is registered.
    pub fn storage_balance_of(&self, account_id: &str) -> (balance: Option<StorageBalance>)
        requires
            self.wf(),
        ensures
            balance == if self@.accounts.contains_key(account_id@) {
                Some(balance_in(self@.accounts, account_id@))
            } else {
                None
            },
    {
        self.ledger.balance_of(account_id)
    }
}

} // verus!

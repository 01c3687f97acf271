//! The account ledger: who is registered, what each account has deposited
//! and what of it storage already holds.
use vstd::prelude::*;
use vstd::hash_map::StringHashMap;
use crate::outcome::{MailError, Transfer, TransferView};
use crate::storage_impl::{
    mail_cost_at, min_deposit_at, StorageBalance, VAccount, STORAGE_PER_ACCOUNT, STORAGE_PER_MAIL,
};

verus! {

/// The ledger as a mathematical map from account name to balance.
pub type Balances = Map<Seq<char>, VAccount>;

/// No account has more in use than it has deposited.
pub open spec fn balances_sound(m: Balances) -> bool {
    forall|a: Seq<char>| m.contains_key(a) ==> (#[trigger] m[a]).used <= m[a].deposit
}

/// What `account` can still spend on storage or withdraw.
pub open spec fn available_in(m: Balances, account: Seq<char>) -> int
    recommends
        m.contains_key(account),
{
    m[account].deposit - m[account].used
}

/// The balance `account` is told it has.
pub open spec fn balance_in(m: Balances, account: Seq<char>) -> StorageBalance
    recommends
        m.contains_key(account),
{
    StorageBalance {
        total: m[account].deposit,
        available: (m[account].deposit - m[account].used) as u128,
    }
}

/// Whether a deposit of `amount` for `account` is taken: always for a
/// registered account, and for a new one when it exceeds the minimum.
pub open spec fn deposit_accepted(m: Balances, account: Seq<char>, amount: u128, byte_cost: u128)
    -> bool {
    m.contains_key(account) || amount > min_deposit_at(byte_cost)
}

/// What a deposit of `amount` gives back to the payer at once: the excess
/// over the minimum, when it registers a new account for registration only.
pub open spec fn deposit_refund(
    m: Balances,
    account: Seq<char>,
    amount: u128,
    registration_only: bool,
    byte_cost: u128,
) -> Option<u128> {
    if !m.contains_key(account) && amount > min_deposit_at(byte_cost) && registration_only {
        Some((amount - min_deposit_at(byte_cost)) as u128)
    } else {
        None
    }
}

/// The ledger after a deposit of `amount` for `account`.
pub open spec fn after_deposit(
    m: Balances,
    account: Seq<char>,
    amount: u128,
    registration_only: bool,
    byte_cost: u128,
) -> Balances {
    if m.contains_key(account) {
        m.insert(
            account,
            VAccount { deposit: (m[account].deposit + amount) as u128, used: m[account].used },
        )
    } else if amount > min_deposit_at(byte_cost) {
        let used = min_deposit_at(byte_cost) as u128;
        m.insert(account, VAccount { deposit: if registration_only { used } else { amount }, used })
    } else {
        m
    }
}

/// Why a withdrawal of `amount` by `account` is refused, if it is.
pub open spec fn withdraw_refusal(m: Balances, account: Seq<char>, amount: u128) -> Option<
    MailError,
> {
    if !m.contains_key(account) {
        Some(MailError::NotRegistered)
    } else if available_in(m, account) < amount {
        Some(MailError::InsufficientAvailable)
    } else {
        None
    }
}

/// The ledger after `account` asked to withdraw `amount`.
pub open spec fn after_withdraw(m: Balances, account: Seq<char>, amount: u128) -> Balances {
    if withdraw_refusal(m, account, amount) is None {
        m.insert(
            account,
            VAccount { deposit: (m[account].deposit - amount) as u128, used: m[account].used },
        )
    } else {
        m
    }
}

/// Whether `account`, with `sent_count` messages in its sent index, can pay
/// for one more: what is available must exceed the cost of all of them and
/// the new one.
pub open spec fn affords_one_more(
    m: Balances,
    account: Seq<char>,
    sent_count: nat,
    byte_cost: u128,
) -> bool
    recommends
        m.contains_key(account),
{
    available_in(m, account) > (sent_count + 1) * STORAGE_PER_MAIL * byte_cost
}

/// The ledger after `account` was billed for one message.
pub open spec fn after_charge(m: Balances, account: Seq<char>, byte_cost: u128) -> Balances
    recommends
        m.contains_key(account),
{
    m.insert(
        account,
        VAccount {
            deposit: m[account].deposit,
            used: (m[account].used + mail_cost_at(byte_cost)) as u128,
        },
    )
}

/// An account that can pay for one more message can pay for that message.
pub proof fn lemma_affordable_covers_cost(
    m: Balances,
    account: Seq<char>,
    sent_count: nat,
    byte_cost: u128,
)
    requires
        affords_one_more(m, account, sent_count, byte_cost),
    ensures
        mail_cost_at(byte_cost) < available_in(m, account),
{
    assert(STORAGE_PER_MAIL * byte_cost <= (sent_count + 1) * STORAGE_PER_MAIL * byte_cost)
        by (nonlinear_arith);
}

/// The deposit that registers an account at `byte_cost` per byte, if it can
/// be held at all.
pub fn checked_min_deposit(byte_cost: u128) -> (amount: Option<u128>)
    ensures
        match amount {
            Some(a) => a == min_deposit_at(byte_cost),
            None => min_deposit_at(byte_cost) > u128::MAX,
        },
{
    byte_cost.checked_mul(STORAGE_PER_ACCOUNT)
}

/// The staking balances of all registered accounts.
pub struct AccountLedger {
    pub accounts: StringHashMap<VAccount>,
}

impl View for AccountLedger {
    type V = Balances;

    open spec fn view(&self) -> Balances {
        self.accounts@
    }
}

impl AccountLedger {
    /// The ledger's invariant.
    pub open spec fn wf(&self) -> bool {
        balances_sound(self@)
    }

    /// A ledger without accounts.
    pub fn new() -> (ledger: AccountLedger)
        ensures
            ledger.wf(),
            ledger@ == Map::<Seq<char>, VAccount>::empty(),
    {
        AccountLedger { accounts: StringHashMap::new() }
    }

    /// Whether `account` has a staking balance.
    pub fn is_registered(&self, account: &str) -> (registered: bool)
        ensures
            registered == self@.contains_key(account@),
    {
        self.accounts.contains_key(account)
    }

    /// The balance of `account`, if it is registered.
    pub fn balance_of(&self, account: &str) -> (balance: Option<StorageBalance>)
        requires
            self.wf(),
        ensures
            balance == if self@.contains_key(account@) {
                Some(balance_in(self@, account@))
            } else {
                None
            },
    {
        match self.accounts.get(account) {
            Some(vaccount) => Some(
                StorageBalance {
                    total: vaccount.deposit,
                    available: vaccount.deposit - vaccount.used,
                },
            ),
            None => None,
        }
    }

    /// What `account` has deposited and not yet used, if it is registered.
    pub fn available(&self, account: &str) -> (available: Option<u128>)
        requires
            self.wf(),
        ensures
            available == if self@.contains_key(account@) {
                Some(available_in(self@, account@) as u128)
            } else {
                None
            },
    {
        match self.accounts.get(account) {
            Some(vaccount) => Some(vaccount.deposit - vaccount.used),
            None => None,
        }
    }

    /// Credits `amount`, paid by `payer`, to `account`.
    ///
    /// A registered account has the amount added to its deposit. A new one
    /// is registered if the amount exceeds the minimum deposit, which is
    /// put to use for the account record; with `registration_only` it keeps
    /// no more than that and the payer is refunded the rest. A smaller first
    /// deposit is refused.
    pub fn deposit(
        &mut self,
        payer: &str,
        account: &str,
        amount: u128,
        registration_only: bool,
        byte_cost: u128,
    ) -> (result: Result<(StorageBalance, Option<Transfer>), MailError>)
        requires
            old(self).wf(),
            old(self)@.contains_key(account@) ==> old(self)@[account@].deposit + amount
                <= u128::MAX,
        ensures
            final(self).wf(),
            final(self)@ == after_deposit(
                old(self)@,
                account@,
                amount,
                registration_only,
                byte_cost,
            ),
            match result {
                Ok((balance, refund)) => {
                    &&& deposit_accepted(old(self)@, account@, amount, byte_cost)
                    &&& balance == balance_in(final(self)@, account@)
                    &&& match refund {
                        Some(transfer) => deposit_refund(
                            old(self)@,
                            account@,
                            amount,
                            registration_only,
                            byte_cost,
                        ) == Some(transfer.amount) && transfer.receiver@ == payer@,
                        None => deposit_refund(
                            old(self)@,
                            account@,
                            amount,
                            registration_only,
                            byte_cost,
                        ) is None,
                    }
                },
                Err(e) => e == MailError::InsufficientDeposit && !deposit_accepted(
                    old(self)@,
                    account@,
                    amount,
                    byte_cost,
                ),
            },
    {
        let registered: Option<VAccount> = match self.accounts.get(account) {
            Some(vaccount) => Some(*vaccount),
            None => None,
        };
        match registered {
            Some(current) => {
                let new_amount: u128 = amount + current.deposit;
                self.accounts.insert(
                    account.to_owned(),
                    VAccount { deposit: new_amount, used: current.used },
                );
                Ok((StorageBalance { total: new_amount, available: new_amount - current.used }, None))
            },
            None => {
                let used: u128 = match checked_min_deposit(byte_cost) {
                    Some(min) => min,
                    None => { return Err(MailError::InsufficientDeposit); },
                };
                if amount <= used {
                    return Err(MailError::InsufficientDeposit);
                }
                if registration_only {
                    let refund = Transfer { receiver: payer.to_owned(), amount: amount - used };
                    self.accounts.insert(account.to_owned(), VAccount { deposit: used, used });
                    Ok((StorageBalance { total: used, available: 0 }, Some(refund)))
                } else {
                    self.accounts.insert(account.to_owned(), VAccount { deposit: amount, used });
                    Ok((StorageBalance { total: amount, available: amount - used }, None))
                }
            },
        }
    }

    /// Pays `amount` of what is available back to `account`.
    pub fn withdraw(&mut self, account: &str, amount: u128) -> (result: Result<
        (StorageBalance, Transfer),
        MailError,
    >)
        requires
            old(self).wf(),
        ensures
            final(self).wf(),
            final(self)@ == after_withdraw(old(self)@, account@, amount),
            match result {
                Ok((balance, transfer)) => {
                    &&& withdraw_refusal(old(self)@, account@, amount) is None
                    &&& balance == balance_in(final(self)@, account@)
                    &&& transfer@ == TransferView { receiver: account@, amount }
                },
                Err(e) => withdraw_refusal(old(self)@, account@, amount) == Some(e),
            },
    {
        let current: VAccount = match self.accounts.get(account) {
            Some(vaccount) => *vaccount,
            None => { return Err(MailError::NotRegistered); },
        };
        if current.deposit - current.used < amount {
            return Err(MailError::InsufficientAvailable);
        }
        let transfer = Transfer { receiver: account.to_owned(), amount };
        let deposit: u128 = current.deposit - amount;
        self.accounts.insert(account.to_owned(), VAccount { deposit, used: current.used });
        Ok((StorageBalance { total: deposit, available: deposit - current.used }, transfer))
    }

    /// Removes `account` and pays back all it had deposited, used or not.
    /// Of an account that is not registered nothing is changed or paid.
    pub fn unregister(&mut self, account: &str) -> (refund: Option<Transfer>)
        requires
            old(self).wf(),
        ensures
            final(self).wf(),
            final(self)@ == old(self)@.remove(account@),
            match refund {
                Some(transfer) => old(self)@.contains_key(account@) && transfer@ == (TransferView {
                    receiver: account@,
                    amount: old(self)@[account@].deposit,
                }),
                None => !old(self)@.contains_key(account@),
            },
    {
        let deposit: u128 = match self.accounts.get(account) {
            Some(vaccount) => vaccount.deposit,
            None => { return None; },
        };
        self.accounts.remove(account);
        Some(Transfer { receiver: account.to_owned(), amount: deposit })
    }

    /// Whether `account` can pay for one more message on top of the
    /// `sent_count` it has in its sent index.
    pub fn can_afford_one_more_mail(&self, account: &str, sent_count: u64, byte_cost: u128) -> (afford:
        bool)
        requires
            self.wf(),
            self@.contains_key(account@),
        ensures
            afford == affords_one_more(self@, account@, sent_count as nat, byte_cost),
    {
        let vaccount: VAccount = *self.accounts.get(account).unwrap();
        let available: u128 = vaccount.deposit - vaccount.used;
        let bytes: u128 = (sent_count as u128 + 1) * STORAGE_PER_MAIL;
        match bytes.checked_mul(byte_cost) {
            Some(cost) => available > cost,
            None => false,
        }
    }

    /// Bills `account` for the storage of one message.
    pub fn charge_mail(&mut self, account: &str, byte_cost: u128)
        requires
            old(self).wf(),
            old(self)@.contains_key(account@),
            mail_cost_at(byte_cost) <= available_in(old(self)@, account@),
        ensures
            final(self).wf(),
            final(self)@ == after_charge(old(self)@, account@, byte_cost),
    {
        let current: VAccount = *self.accounts.get(account).unwrap();
        let used: u128 = current.used + STORAGE_PER_MAIL * byte_cost;
        self.accounts.insert(account.to_owned(), VAccount { deposit: current.deposit, used });
    }
}

} // verus!

//! An on-ledger mailbox: accounts stake balance to pre-pay the storage of the
//! messages they send, and every message is stored once and indexed under
//! its sender and its receiver.
//!
//! The state is owned by the values of this crate. What the host does
//! (telling who calls, what was attached and what time it is, moving
//! balance between accounts) stays outside: calls take the host's values
//! as arguments and hand back each transfer to be made as a [`Transfer`].
//! The price of a byte of storage is the one value read here: it comes
//! from the SDK. The functions that take `byte_cost` hold for every price.
use vstd::prelude::*;

pub mod email;
pub mod index;
pub mod laws;
pub mod ledger;
pub mod legacy;
pub mod outcome;
pub mod storage_impl;
pub mod store;

pub use email::{Email, UpgradeableEmail};
pub use index::MailIndex;
pub use ledger::AccountLedger;
pub use legacy::{ContractV1, EmailV1};
pub use outcome::{MailError, Transfer};
pub use store::MailStore;
pub use storage_impl::{
    min_deposit, StorageBalance, StorageBalanceBounds, VAccount, STORAGE_PER_ACCOUNT,
    STORAGE_PER_MAIL, STORAGE_PRICE_PER_BYTE,
};

use index::{ids_of, IndexModel};
use ledger::{affords_one_more, after_charge, balances_sound, lemma_affordable_covers_cost, Balances};
use legacy::ContractV1Model;
use outcome::TransferView;
use storage_impl::storage_byte_cost;
use store::{resolved, StoreModel};

verus! {

/// Identifier of a message: the value of the counter when it was sent.
pub type EmailID = u128;

/// The account that donations go to until another is set.
pub const DEFAULT_DONATION_ACCOUNT: &'static str = "dev-1662036494830-25321560561944";

/// Names of the persisted tables, and of the per-account id sets inside the
/// two indices (each set is named after the first id that went into it).
#[derive(Clone, Copy, Debug, PartialEq, Eq)]
pub enum StorageKeys {
    Sender,
    Receiver,
    Email,
    SenderMail { email_id: EmailID },
    ReceiverMail { email_id: EmailID },
    Account,
}

/// Who may delete a message.
#[derive(Clone, Copy, Debug, PartialEq, Eq)]
pub enum DeletePolicy {
    /// Anyone but an account that the sender index lists for the message.
    /// This is the rule that [`Contract::delete_mail`] has always enforced;
    /// it reads like the reverse of what was meant.
    NonSender,
    /// Only an account that the sender index lists for the message.
    SenderOnly,
}

/// The whole state as mathematics.
pub struct ContractModel {
    pub accounts: Balances,
    pub index: IndexModel,
    pub store: StoreModel,
    pub donation_count: u128,
    pub donation_account: Seq<char>,
}

impl ContractModel {
    /// The invariant of the state: no account uses more than it deposited,
    /// the index lists no id twice for an account, and every id that is
    /// stored or indexed was given out by the counter.
    pub open spec fn wf(self) -> bool {
        &&& balances_sound(self.accounts)
        &&& self.index.wf()
        &&& self.store.wf()
        &&& self.index.below(self.store.email_count)
    }

    /// Why `sender` cannot send at `byte_cost` per byte, if it cannot.
    pub open spec fn send_refusal(self, sender: Seq<char>, byte_cost: u128) -> Option<MailError> {
        if !self.accounts.contains_key(sender) {
            Some(MailError::NotRegistered)
        } else if !affords_one_more(
            self.accounts,
            sender,
            ids_of(self.index.sent, sender).len(),
            byte_cost,
        ) {
            Some(MailError::InsufficientStorageBalance)
        } else {
            None
        }
    }

    /// The state after `sender` asked to send `email` to `receiver`: billed,
    /// stored under the next id and indexed on both sides, or, if the
    /// request is refused, as before.
    pub open spec fn after_send(
        self,
        sender: Seq<char>,
        receiver: Seq<char>,
        email: Email,
        byte_cost: u128,
    ) -> ContractModel {
        if self.send_refusal(sender, byte_cost) is None {
            ContractModel {
                accounts: after_charge(self.accounts, sender, byte_cost),
                index: self.index.after_record(sender, receiver, self.store.email_count),
                store: self.store.after_create(email),
                ..self
            }
        } else {
            self
        }
    }

    /// Whether `policy` lets `requester` delete message `id`.
    pub open spec fn may_delete(self, policy: DeletePolicy, requester: Seq<char>, id: EmailID)
        -> bool {
        match policy {
            DeletePolicy::NonSender => !self.index.sent_by(requester).contains(id),
            DeletePolicy::SenderOnly => self.index.sent_by(requester).contains(id),
        }
    }

    /// Why `requester` cannot delete message `id` under `policy`, if it
    /// cannot. Permission is looked at before the store is.
    pub open spec fn delete_refusal(self, policy: DeletePolicy, requester: Seq<char>, id: EmailID)
        -> Option<MailError> {
        if !self.may_delete(policy, requester, id) {
            Some(MailError::NotAuthorized)
        } else if !self.store.emails.contains_key(id) {
            Some(MailError::NotFound)
        } else {
            None
        }
    }

    /// The state after `requester` asked to delete message `id`. Only the
    /// store changes: both indices keep the id.
    pub open spec fn after_delete(self, policy: DeletePolicy, requester: Seq<char>, id: EmailID)
        -> ContractModel {
        if self.delete_refusal(policy, requester, id) is None {
            ContractModel { store: self.store.after_delete(id), ..self }
        } else {
            self
        }
    }

    /// The messages indexed as sent by `account` that are still stored.
    pub open spec fn sent_mail(self, account: Seq<char>) -> Seq<Email> {
        resolved(ids_of(self.index.sent, account), self.store.emails)
    }

    /// The messages indexed as received by `account` that are still stored.
    pub open spec fn received_mail(self, account: Seq<char>) -> Seq<Email> {
        resolved(ids_of(self.index.received, account), self.store.emails)
    }

    /// The part of the state that the previous layout had too.
    pub open spec fn legacy(self) -> ContractV1Model {
        ContractV1Model { accounts: self.accounts, index: self.index, store: self.store }
    }
}

impl ContractV1Model {
    /// The invariant of the state, which is that of the current layout.
    pub open spec fn wf(self) -> bool {
        &&& balances_sound(self.accounts)
        &&& self.index.wf()
        &&& self.store.wf()
        &&& self.index.below(self.store.email_count)
    }

    /// This state in the current layout: what both layouts have is taken
    /// over as it is, what is new starts from its default.
    pub open spec fn migrated(self) -> ContractModel {
        ContractModel {
            accounts: self.accounts,
            index: self.index,
            store: self.store,
            donation_count: 0,
            donation_account: DEFAULT_DONATION_ACCOUNT@,
        }
    }
}

/// The mailbox: indices, store and ledger, and the donation settings.
pub struct Contract {
    pub index: MailIndex,
    pub store: MailStore,
    pub ledger: AccountLedger,
    pub donation_count: u128,
    pub donation_account: String,
}

impl View for Contract {
    type V = ContractModel;

    open spec fn view(&self) -> ContractModel {
        ContractModel {
            accounts: self.ledger@,
            index: self.index@,
            store: self.store@,
            donation_count: self.donation_count,
            donation_account: self.donation_account@,
        }
    }
}

impl Contract {
    /// The invariant that every call keeps.
    pub open spec fn wf(&self) -> bool {
        self@.wf()
    }

    /// An empty mailbox.
    pub fn new() -> (contract: Contract)
        ensures
            contract.wf(),
            contract@.accounts == Map::<Seq<char>, VAccount>::empty(),
            contract@.index.sent == Map::<Seq<char>, Seq<EmailID>>::empty(),
            contract@.index.received == Map::<Seq<char>, Seq<EmailID>>::empty(),
            contract@.store.emails == Map::<EmailID, UpgradeableEmail>::empty(),
            contract@.store.email_count == 0,
            contract@.donation_count == 0,
            contract@.donation_account == DEFAULT_DONATION_ACCOUNT@,
    {
        Contract {
            index: MailIndex::new(),
            store: MailStore::new(),
            ledger: AccountLedger::new(),
            donation_count: 0,
            donation_account: DEFAULT_DONATION_ACCOUNT.to_owned(),
        }
    }

    /// Brings a state in the previous layout into the current one. Every
    /// account, message, index entry and the counter are taken over as they
    /// are; the donation settings start from their defaults, whatever they
    /// were before.
    pub fn migrate(state: ContractV1) -> (contract: Contract)
        ensures
            contract@ == state@.migrated(),
            state@.wf() ==> contract.wf(),
    {
        Contract {
            index: state.index,
            store: state.store,
            ledger: state.ledger,
            donation_count: 0,
            donation_account: DEFAULT_DONATION_ACCOUNT.to_owned(),
        }
    }

    /// This state as the previous layout holds it: the donation settings
    /// are dropped.
    pub fn into_legacy(self) -> (state: ContractV1)
        ensures
            state@ == self@.legacy(),
            self.wf() ==> state@.wf(),
    {
        ContractV1 { index: self.index, store: self.store, ledger: self.ledger }
    }

    /// Sends a message from `sender` to `receiver` at the current price of
    /// storage. See [`Contract::send_mail_at`].
    pub fn send_mail(
        &mut self,
        sender: &str,
        receiver: String,
        title: String,
        content: String,
        attached_deposit: u128,
        block_timestamp: u64,
    ) -> (result: Result<(EmailID, Transfer), MailError>)
        requires
            old(self).wf(),
            old(self).store.email_count < u128::MAX,
        ensures
            final(self).wf(),
            final(self)@ == old(self)@.after_send(
                sender@,
                receiver@,
                (Email { title, content, timestamp: block_timestamp, fee: attached_deposit }),
                STORAGE_PRICE_PER_BYTE,
            ),
            match result {
                Ok((id, transfer)) => {
                    &&& old(self)@.send_refusal(sender@, STORAGE_PRICE_PER_BYTE) is None
                    &&& id == old(self).store.email_count
                    &&& transfer@ == (TransferView { receiver: receiver@, amount: attached_deposit })
                },
                Err(e) => old(self)@.send_refusal(sender@, STORAGE_PRICE_PER_BYTE) == Some(e),
            },
    {
        let byte_cost: u128 = storage_byte_cost();
        self.send_mail_at(
            sender,
            receiver,
            title,
            content,
            attached_deposit,
            block_timestamp,
            byte_cost,
        )
    }

    /// Sends a message from `sender` to `receiver` at `byte_cost` per byte
    /// of storage.
    ///
    /// The sender must be registered and must be able to pay for one more
    /// message. It is then billed, the message is stored under the next id
    /// with `block_timestamp` as its time and `attached_deposit` as its
    /// fee, and the id is indexed for both accounts. The call returns the
    /// id and the transfer of the fee to the receiver, which is to be made
    /// once, after the state is committed. A refused call changes nothing
    /// and asks for no transfer.
    pub fn send_mail_at(
        &mut self,
        sender: &str,
        receiver: String,
        title: String,
        content: String,
        attached_deposit: u128,
        block_timestamp: u64,
        byte_cost: u128,
    ) -> (result: Result<(EmailID, Transfer), MailError>)
        requires
            old(self).wf(),
            old(self).store.email_count < u128::MAX,
        ensures
            final(self).wf(),
            final(self)@ == old(self)@.after_send(
                sender@,
                receiver@,
                (Email { title, content, timestamp: block_timestamp, fee: attached_deposit }),
                byte_cost,
            ),
            match result {
                Ok((id, transfer)) => {
                    &&& old(self)@.send_refusal(sender@, byte_cost) is None
                    &&& id == old(self).store.email_count
                    &&& transfer@ == (TransferView { receiver: receiver@, amount: attached_deposit })
                },
                Err(e) => old(self)@.send_refusal(sender@, byte_cost) == Some(e),
            },
    {
        if !self.ledger.is_registered(sender) {
            return Err(MailError::NotRegistered);
        }
        if !self.can_send_mail_at(sender, byte_cost) {
            return Err(MailError::InsufficientStorageBalance);
        }
        proof {
            lemma_affordable_covers_cost(
                self@.accounts,
                sender@,
                ids_of(self@.index.sent, sender@).len(),
                byte_cost,
            );
        }
        self.ledger.charge_mail(sender, byte_cost);
        let id: EmailID = self.store.create(title, content, attached_deposit, block_timestamp);
        self.index.record(sender, receiver.as_str(), id);
        Ok((id, Transfer { receiver, amount: attached_deposit }))
    }

    /// The message under `email_id`, in the current shape.
    pub fn get_email(&self, email_id: EmailID) -> (result: Result<Email, MailError>)
        ensures
            match result {
                Ok(email) => self@.store.emails.contains_key(email_id) && email
                    == self@.store.emails[email_id].upgraded(),
                Err(e) => e == MailError::NotFound && !self@.store.emails.contains_key(email_id),
            },
    {
        self.store.read(email_id)
    }

    /// Deletes message `email_id` for `requester` under the rule that has
    /// always been in force, [`DeletePolicy::NonSender`].
    pub fn delete_mail(&mut self, requester: &str, email_id: EmailID) -> (result: Result<
        (),
        MailError,
    >)
        requires
            old(self).wf(),
        ensures
            final(self).wf(),
            final(self)@ == old(self)@.after_delete(DeletePolicy::NonSender, requester@, email_id),
            match result {
                Ok(_) => old(self)@.delete_refusal(DeletePolicy::NonSender, requester@, email_id)
                    is None,
                Err(e) => old(self)@.delete_refusal(DeletePolicy::NonSender, requester@, email_id)
                    == Some(e),
            },
    {
        self.delete_mail_under(DeletePolicy::NonSender, requester, email_id)
    }

    /// Deletes message `email_id` for `requester` if `policy` allows it.
    /// The message leaves the store; the indices and the counts drawn from
    /// them keep its id.
    pub fn delete_mail_under(&mut self, policy: DeletePolicy, requester: &str, email_id: EmailID)
        -> (result: Result<(), MailError>)
        requires
            old(self).wf(),
        ensures
            final(self).wf(),
            final(self)@ == old(self)@.after_delete(policy, requester@, email_id),
            match result {
                Ok(_) => old(self)@.delete_refusal(policy, requester@, email_id) is None,
                Err(e) => old(self)@.delete_refusal(policy, requester@, email_id) == Some(e),
            },
    {
        let is_sender: bool = self.index.is_sender_of(requester, email_id);
        let allowed: bool = match policy {
            DeletePolicy::NonSender => !is_sender,
            DeletePolicy::SenderOnly => is_sender,
        };
        if !allowed {
            return Err(MailError::NotAuthorized);
        }
        if !self.store.contains(email_id) {
            return Err(MailError::NotFound);
        }
        self.store.delete(email_id)
    }

    /// How many messages are stored.
    pub fn mail_exist(&self) -> (count: u64)
        ensures
            count == self@.store.emails.len(),
    {
        self.store.live_count()
    }

    /// The messages that `receiver` received and that are still stored.
    pub fn get_mail_receive(&self, receiver: &str) -> (mails: Vec<Email>)
        ensures
            mails@ == self@.received_mail(receiver@),
    {
        let ids: Vec<EmailID> = self.index.received_ids(receiver);
        self.store.read_all(&ids)
    }

    /// The messages that `sender` sent and that are still stored.
    pub fn get_mail_send(&self, sender: &str) -> (mails: Vec<Email>)
        ensures
            mails@ == self@.sent_mail(sender@),
    {
        let ids: Vec<EmailID> = self.index.sent_ids(sender);
        self.store.read_all(&ids)
    }

    /// How many messages `receiver` ever received, deleted ones included.
    pub fn get_mail_receive_num(&self, receiver: &str) -> (count: u64)
        ensures
            count == ids_of(self@.index.received, receiver@).len(),
    {
        self.index.count_received(receiver)
    }

    /// How many messages `sender` ever sent, deleted ones included.
    pub fn get_mail_send_num(&self, sender: &str) -> (count: u64)
        ensures
            count == ids_of(self@.index.sent, sender@).len(),
    {
        self.index.count_sent(sender)
    }

    /// How many messages were deleted.
    pub fn mail_delete(&self) -> (count: u128)
        requires
            self.wf(),
        ensures
            count == self@.store.deleted(),
    {
        self.store.deleted_count()
    }

    /// Whether the registered account `account_id` can pay for one more
    /// message at the current price.
    pub fn can_send_mail(&self, account_id: &str) -> (afford: bool)
        requires
            self.wf(),
            self@.accounts.contains_key(account_id@),
        ensures
            afford == affords_one_more(
                self@.accounts,
                account_id@,
                ids_of(self@.index.sent, account_id@).len(),
                STORAGE_PRICE_PER_BYTE,
            ),
    {
        self.can_send_mail_at(account_id, storage_byte_cost())
    }

    /// Whether the registered account `account_id` can pay for one more
    /// message at `byte_cost` per byte: what it has available must exceed
    /// the cost of every message in its sent index and of the new one.
    pub fn can_send_mail_at(&self, account_id: &str, byte_cost: u128) -> (afford: bool)
        requires
            self.wf(),
            self@.accounts.contains_key(account_id@),
        ensures
            afford == affords_one_more(
                self@.accounts,
                account_id@,
                ids_of(self@.index.sent, account_id@).len(),
                byte_cost,
            ),
    {
        let sent: u64 = self.index.count_sent(account_id);
        self.ledger.can_afford_one_more_mail(account_id, sent, byte_cost)
    }
}

} // verus!

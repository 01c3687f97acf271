//! What holds of the mailbox whatever is done with it, proved over the
//! mathematical state that the contracts of the calls speak of.
use vstd::prelude::*;
use crate::email::{Email, UpgradeableEmail};
use crate::index::ids_of;
use crate::ledger::{
    after_deposit, after_withdraw, available_in, balances_sound, deposit_refund,
    lemma_affordable_covers_cost, Balances,
};
use crate::legacy::{ContractV1Model, EmailV1};
use crate::outcome::MailError;
use crate::storage_impl::{min_deposit_at, STORAGE_PER_MAIL};
use crate::store::{lemma_resolved_ignores_other_id, lemma_resolved_members, names_mail};
use crate::{ContractModel, DeletePolicy, EmailID};

verus! {

/// One call that changes the state, with the values the host gave it.
pub enum Call {
    Deposit { account: Seq<char>, amount: u128, registration_only: bool },
    Withdraw { account: Seq<char>, amount: u128 },
    Unregister { account: Seq<char> },
    Send { sender: Seq<char>, receiver: Seq<char>, email: Email },
    Delete { policy: DeletePolicy, requester: Seq<char>, id: EmailID },
}

/// A call together with the price of a byte at the time it is made.
pub struct PricedCall {
    pub call: Call,
    pub byte_cost: u128,
}

/// Whether the numbers that `call` would write in state `s` can be held:
/// a deposit must not take a balance past the largest amount, and a send
/// needs an id that is left.
pub open spec fn fits(s: ContractModel, call: Call) -> bool {
    match call {
        Call::Deposit { account, amount, registration_only } => s.accounts.contains_key(account)
            ==> s.accounts[account].deposit + amount <= u128::MAX,
        Call::Send { sender, receiver, email } => s.store.email_count < u128::MAX,
        _ => true,
    }
}

/// The state after `call` was made in state `s` at `byte_cost` per byte.
pub open spec fn step(s: ContractModel, call: Call, byte_cost: u128) -> ContractModel {
    match call {
        Call::Deposit { account, amount, registration_only } => ContractModel {
            accounts: after_deposit(s.accounts, account, amount, registration_only, byte_cost),
            ..s
        },
        Call::Withdraw { account, amount } => ContractModel {
            accounts: after_withdraw(s.accounts, account, amount),
            ..s
        },
        Call::Unregister { account } => ContractModel { accounts: s.accounts.remove(account), ..s },
        Call::Send { sender, receiver, email } => s.after_send(sender, receiver, email, byte_cost),
        Call::Delete { policy, requester, id } => s.after_delete(policy, requester, id),
    }
}

/// The state after all of `calls` were made, one after the other, from
/// state `s`.
pub open spec fn run(s: ContractModel, calls: Seq<PricedCall>) -> ContractModel
    decreases calls.len(),
{
    if calls.len() == 0 {
        s
    } else {
        let before = run(s, calls.drop_last());
        step(before, calls.last().call, calls.last().byte_cost)
    }
}

/// Whether every one of `calls` fits the state it meets when they are made
/// one after the other from state `s`.
pub open spec fn run_fits(s: ContractModel, calls: Seq<PricedCall>) -> bool
    decreases calls.len(),
{
    calls.len() > 0 ==> run_fits(s, calls.drop_last()) && fits(
        run(s, calls.drop_last()),
        calls.last().call,
    )
}

/// No account ever has more in use than it has deposited, no index entry
/// lists an id twice, and no id is stored or indexed that the counter has
/// not given out: what holds before a call holds after it.
pub proof fn law_step_keeps_invariant(s: ContractModel, call: Call, byte_cost: u128)
    requires
        s.wf(),
        fits(s, call),
    ensures
        step(s, call, byte_cost).wf(),
{
    match call {
        Call::Send { sender, receiver, email } => {
            if s.send_refusal(sender, byte_cost) is None {
                lemma_affordable_covers_cost(
                    s.accounts,
                    sender,
                    ids_of(s.index.sent, sender).len(),
                    byte_cost,
                );
            }
        },
        _ => {},
    }
}

/// At every point of every history the invariant holds: in particular no
/// account has more in use than it has deposited, whatever was deposited,
/// withdrawn, sent or deleted before, and at whatever prices.
pub proof fn law_every_state_is_sound(s: ContractModel, calls: Seq<PricedCall>)
    requires
        s.wf(),
        run_fits(s, calls),
    ensures
        run(s, calls).wf(),
        balances_sound(run(s, calls).accounts),
    decreases calls.len(),
{
    if calls.len() > 0 {
        law_every_state_is_sound(s, calls.drop_last());
        law_step_keeps_invariant(run(s, calls.drop_last()), calls.last().call, calls.last().byte_cost);
    }
}

/// The counter never falls: no call takes back an id.
pub proof fn law_counter_never_falls(s: ContractModel, calls: Seq<PricedCall>)
    requires
        run_fits(s, calls),
    ensures
        s.store.email_count <= run(s, calls).store.email_count,
    decreases calls.len(),
{
    if calls.len() > 0 {
        law_counter_never_falls(s, calls.drop_last());
    }
}

/// The id that a send is given is new: nothing is stored under it, and no
/// account has it in either index.
pub proof fn law_sent_id_is_fresh(s: ContractModel, account: Seq<char>)
    requires
        s.wf(),
    ensures
        !s.store.emails.contains_key(s.store.email_count),
        !s.index.sent_by(account).contains(s.store.email_count),
        !s.index.received_by(account).contains(s.store.email_count),
{
}

/// Ids strictly increase over the whole life of the mailbox: of two sends
/// that are both carried out, with any calls in between, the later one is
/// given the greater id. So no id is ever given twice, deletions or not.
pub proof fn law_send_ids_strictly_increase(
    s: ContractModel,
    first_sender: Seq<char>,
    first_receiver: Seq<char>,
    first_email: Email,
    first_byte_cost: u128,
    between: Seq<PricedCall>,
    second_sender: Seq<char>,
    second_byte_cost: u128,
)
    requires
        s.store.email_count < u128::MAX,
        s.send_refusal(first_sender, first_byte_cost) is None,
        run_fits(s.after_send(first_sender, first_receiver, first_email, first_byte_cost), between),
    ensures
        ({
            let first_id = s.store.email_count;
            let then = run(
                s.after_send(first_sender, first_receiver, first_email, first_byte_cost),
                between,
            );
            let second_id = then.store.email_count;
            first_id < second_id
        }),
{
    law_counter_never_falls(
        s.after_send(first_sender, first_receiver, first_email, first_byte_cost),
        between,
    );
}

/// A first deposit that is not for registration only leaves all of it but
/// the minimum deposit available.
pub proof fn law_first_deposit_leaves_rest_available(
    m: Balances,
    account: Seq<char>,
    amount: u128,
    byte_cost: u128,
)
    requires
        !m.contains_key(account),
        amount > min_deposit_at(byte_cost),
    ensures
        after_deposit(m, account, amount, false, byte_cost).contains_key(account),
        available_in(after_deposit(m, account, amount, false, byte_cost), account) == amount
            - min_deposit_at(byte_cost),
        deposit_refund(m, account, amount, false, byte_cost) is None,
{
}

/// A first deposit for registration only refunds exactly what it holds
/// above the minimum deposit, and leaves nothing available.
pub proof fn law_registration_only_refunds_excess(
    m: Balances,
    account: Seq<char>,
    amount: u128,
    byte_cost: u128,
)
    requires
        !m.contains_key(account),
        amount > min_deposit_at(byte_cost),
    ensures
        deposit_refund(m, account, amount, true, byte_cost) == Some(
            (amount - min_deposit_at(byte_cost)) as u128,
        ),
        amount == min_deposit_at(byte_cost) + deposit_refund(
            m,
            account,
            amount,
            true,
            byte_cost,
        ).unwrap(),
        available_in(after_deposit(m, account, amount, true, byte_cost), account) == 0,
{
}

/// A withdrawal that is carried out lowers what is available by exactly
/// the amount, and never takes what is in use.
pub proof fn law_withdraw_takes_only_available(m: Balances, account: Seq<char>, amount: u128)
    requires
        balances_sound(m),
        m.contains_key(account),
        amount <= available_in(m, account),
    ensures
        available_in(after_withdraw(m, account, amount), account) == available_in(m, account)
            - amount,
        after_withdraw(m, account, amount)[account].used == m[account].used,
{
}

/// A send that is carried out lowers what the sender has available by
/// exactly the cost of one message at the price of the call, which is less
/// than before whenever storage has a price.
pub proof fn law_send_costs_one_mail(
    s: ContractModel,
    sender: Seq<char>,
    receiver: Seq<char>,
    email: Email,
    byte_cost: u128,
)
    requires
        s.wf(),
        s.send_refusal(sender, byte_cost) is None,
    ensures
        available_in(s.after_send(sender, receiver, email, byte_cost).accounts, sender)
            == available_in(s.accounts, sender) - STORAGE_PER_MAIL * byte_cost,
        byte_cost > 0 ==> available_in(
            s.after_send(sender, receiver, email, byte_cost).accounts,
            sender,
        ) < available_in(s.accounts, sender),
        s.after_send(sender, receiver, email, byte_cost).accounts[sender].deposit
            == s.accounts[sender].deposit,
{
    lemma_affordable_covers_cost(s.accounts, sender, ids_of(s.index.sent, sender).len(), byte_cost);
}

/// A send that is refused changes nothing; one by an account that is not
/// registered is refused for that reason, so no message is made and the
/// counter stays.
pub proof fn law_refused_send_changes_nothing(
    s: ContractModel,
    sender: Seq<char>,
    receiver: Seq<char>,
    email: Email,
    byte_cost: u128,
)
    ensures
        !s.accounts.contains_key(sender) ==> s.send_refusal(sender, byte_cost) == Some(
            MailError::NotRegistered,
        ),
        s.send_refusal(sender, byte_cost) is Some ==> s.after_send(
            sender,
            receiver,
            email,
            byte_cost,
        ) == s,
{
}

/// Reading the id that a send was given returns the message as it was
/// sent: title, content, fee and the time of the call.
pub proof fn law_read_after_send(
    s: ContractModel,
    sender: Seq<char>,
    receiver: Seq<char>,
    email: Email,
    byte_cost: u128,
)
    requires
        s.send_refusal(sender, byte_cost) is None,
    ensures
        ({
            let after = s.after_send(sender, receiver, email, byte_cost);
            let id = s.store.email_count;
            after.store.emails.contains_key(id) && after.store.emails[id].upgraded() == email
        }),
{
}

/// From the moment a send is carried out its id is indexed under the
/// sender and under the receiver.
pub proof fn law_send_indexes_both_sides(
    s: ContractModel,
    sender: Seq<char>,
    receiver: Seq<char>,
    email: Email,
    byte_cost: u128,
)
    requires
        s.send_refusal(sender, byte_cost) is None,
    ensures
        s.after_send(sender, receiver, email, byte_cost).index.sent_by(sender).contains(
            s.store.email_count,
        ),
        s.after_send(sender, receiver, email, byte_cost).index.received_by(receiver).contains(
            s.store.email_count,
        ),
{
    let id = s.store.email_count;
    let after = s.after_send(sender, receiver, email, byte_cost);
    let sent_before = ids_of(s.index.sent, sender);
    let received_before = ids_of(s.index.received, receiver);
    let sent = ids_of(after.index.sent, sender);
    let received = ids_of(after.index.received, receiver);
    if !sent_before.contains(id) {
        assert(sent[sent.len() - 1] == id);
    }
    if !received_before.contains(id) {
        assert(received[received.len() - 1] == id);
    }
}

/// A send leaves every other account as it was: only the sender is billed,
/// and only the sender's sent entry and the receiver's received entry
/// change.
pub proof fn law_send_touches_two_accounts_only(
    s: ContractModel,
    sender: Seq<char>,
    receiver: Seq<char>,
    email: Email,
    byte_cost: u128,
    other: Seq<char>,
)
    ensures
        ({
            let after = s.after_send(sender, receiver, email, byte_cost);
            &&& other != sender ==> after.accounts.contains_key(other) == s.accounts.contains_key(
                other,
            )
            &&& other != sender && s.accounts.contains_key(other) ==> after.accounts[other]
                == s.accounts[other]
            &&& other != sender ==> ids_of(after.index.sent, other) == ids_of(s.index.sent, other)
            &&& other != receiver ==> ids_of(after.index.received, other) == ids_of(
                s.index.received,
                other,
            )
            &&& after.donation_count == s.donation_count
            &&& after.donation_account == s.donation_account
        }),
{
}

/// A send that is carried out adds the message, as it was sent, at the end
/// of what the receiver is listed to have received and of what the sender
/// is listed to have sent, and changes nothing else in those lists.
pub proof fn law_send_appends_to_lists(
    s: ContractModel,
    sender: Seq<char>,
    receiver: Seq<char>,
    email: Email,
    byte_cost: u128,
)
    requires
        s.wf(),
        s.send_refusal(sender, byte_cost) is None,
    ensures
        s.after_send(sender, receiver, email, byte_cost).received_mail(receiver)
            == s.received_mail(receiver).push(email),
        s.after_send(sender, receiver, email, byte_cost).sent_mail(sender) == s.sent_mail(
            sender,
        ).push(email),
{
    let id = s.store.email_count;
    let record = UpgradeableEmail::Current(email);
    law_sent_id_is_fresh(s, receiver);
    law_sent_id_is_fresh(s, sender);
    let received_before = ids_of(s.index.received, receiver);
    let sent_before = ids_of(s.index.sent, sender);
    assert(received_before.push(id).drop_last() =~= received_before);
    assert(sent_before.push(id).drop_last() =~= sent_before);
    lemma_resolved_ignores_other_id(received_before, s.store.emails, id, record);
    lemma_resolved_ignores_other_id(sent_before, s.store.emails, id, record);
}

/// What an account is listed to have sent or received is exactly the
/// messages, read in the current shape, that are stored under the ids the
/// index has for it. Ids whose message was deleted add nothing.
pub proof fn law_lists_hold_stored_mail_of_index(s: ContractModel, account: Seq<char>, email: Email)
    ensures
        s.sent_mail(account).contains(email) <==> exists|i: int|
            names_mail(ids_of(s.index.sent, account), s.store.emails, email, i),
        s.received_mail(account).contains(email) <==> exists|i: int|
            names_mail(ids_of(s.index.received, account), s.store.emails, email, i),
{
    lemma_resolved_members(ids_of(s.index.sent, account), s.store.emails, email);
    lemma_resolved_members(ids_of(s.index.received, account), s.store.emails, email);
}

/// Deleting takes a message out of the store and out of nothing else: the
/// counter, both indices and every balance stay, so the counts drawn from
/// the indices still count it.
pub proof fn law_delete_touches_store_only(
    s: ContractModel,
    policy: DeletePolicy,
    requester: Seq<char>,
    id: EmailID,
)
    ensures
        ({
            let after = s.after_delete(policy, requester, id);
            &&& after.index == s.index
            &&& after.accounts == s.accounts
            &&& after.store.email_count == s.store.email_count
            &&& s.delete_refusal(policy, requester, id) is None ==> !after.store.emails.contains_key(
                id,
            )
            &&& s.delete_refusal(policy, requester, id) is Some ==> after == s
        }),
{
}

/// The two deletion policies are each other's reverse: whoever one lets
/// delete a message, the other does not.
pub proof fn law_delete_policies_are_opposite(s: ContractModel, requester: Seq<char>, id: EmailID)
    ensures
        s.may_delete(DeletePolicy::NonSender, requester, id) != s.may_delete(
            DeletePolicy::SenderOnly,
            requester,
            id,
        ),
{
}

/// Upgrading a record loses nothing: one of the previous version keeps its
/// title, content and timestamp and gets no fee, and a current one is
/// the message itself.
pub proof fn law_upgrade_is_lossless(old_email: EmailV1, email: Email)
    ensures
        UpgradeableEmail::V1(old_email).upgraded().title == old_email.title,
        UpgradeableEmail::V1(old_email).upgraded().content == old_email.content,
        UpgradeableEmail::V1(old_email).upgraded().timestamp == old_email.timestamp,
        UpgradeableEmail::V1(old_email).upgraded().fee == 0,
        UpgradeableEmail::Current(email).upgraded() == email,
{
}

/// Migration keeps what both layouts have and resets what is new. So
/// migrating a state that was migrated before gives back the same
/// accounts, messages, indices and counter, while the donation settings
/// return to their defaults whatever they had become.
pub proof fn law_migration_keeps_shared_state(state: ContractV1Model, s: ContractModel)
    ensures
        state.migrated().legacy() == state,
        state.migrated().legacy().migrated() == state.migrated(),
        s.legacy().migrated().legacy() == s.legacy(),
        s.legacy().migrated().donation_count == 0,
        s.legacy().migrated().donation_account == state.migrated().donation_account,
{
}

/// Migration keeps the invariant.
pub proof fn law_migration_keeps_invariant(state: ContractV1Model)
    requires
        state.wf(),
    ensures
        state.migrated().wf(),
{
}

} // verus!

//! The mail store: every message once, under the id it was given when it
//! was sent, and the counter that gives out the ids.
use vstd::prelude::*;
use std::collections::HashMap;
use crate::email::{Email, UpgradeableEmail};
use crate::outcome::MailError;
use crate::EmailID;

verus! {

broadcast use vstd::std_specs::hash::group_hash_axioms;

/// The store as mathematics: the records by id, and the next id.
pub struct StoreModel {
    pub emails: Map<EmailID, UpgradeableEmail>,
    pub email_count: u128,
}

impl StoreModel {
    /// Finitely many records, each under an id that the counter has
    /// already passed.
    pub open spec fn wf(self) -> bool {
        &&& self.emails.dom().finite()
        &&& forall|id: EmailID| self.emails.contains_key(id) ==> id < self.email_count
    }

    /// The store after `email` was stored under the next id.
    pub open spec fn after_create(self, email: Email) -> StoreModel {
        StoreModel {
            emails: self.emails.insert(self.email_count, UpgradeableEmail::Current(email)),
            email_count: (self.email_count + 1) as u128,
        }
    }

    /// The store after the record under `id`, if there was one, was deleted.
    /// The counter stays: an id is never given out again.
    pub open spec fn after_delete(self, id: EmailID) -> StoreModel {
        StoreModel { emails: self.emails.remove(id), email_count: self.email_count }
    }

    /// How many messages were deleted: the ids given out less the records
    /// that are left.
    pub open spec fn deleted(self) -> int {
        self.email_count - self.emails.len()
    }
}

/// The messages that `ids` name in `emails`, in the order of `ids` and each
/// in the current shape. An id under which nothing is stored any more is
/// passed over.
pub open spec fn resolved(ids: Seq<EmailID>, emails: Map<EmailID, UpgradeableEmail>) -> Seq<Email>
    decreases ids.len(),
{
    if ids.len() == 0 {
        Seq::empty()
    } else {
        let before = resolved(ids.drop_last(), emails);
        if emails.contains_key(ids.last()) {
            before.push(emails[ids.last()].upgraded())
        } else {
            before
        }
    }
}

/// Whether the `i`-th of `ids` names a stored record that reads as `email`.
pub open spec fn names_mail(
    ids: Seq<EmailID>,
    emails: Map<EmailID, UpgradeableEmail>,
    email: Email,
    i: int,
) -> bool {
    0 <= i < ids.len() && emails.contains_key(ids[i]) && emails[ids[i]].upgraded() == email
}

/// What a resolved list holds: exactly the upgrades of the records that
/// are stored under one of `ids`.
pub proof fn lemma_resolved_members(
    ids: Seq<EmailID>,
    emails: Map<EmailID, UpgradeableEmail>,
    email: Email,
)
    ensures
        resolved(ids, emails).contains(email) <==> exists|i: int|
            names_mail(ids, emails, email, i),
    decreases ids.len(),
{
    if ids.len() > 0 {
        let front = ids.drop_last();
        let last = ids.len() - 1;
        let before = resolved(front, emails);
        let all = resolved(ids, emails);
        lemma_resolved_members(front, emails, email);
        if all.contains(email) {
            let k = choose|k: int| 0 <= k < all.len() && all[k] == email;
            if emails.contains_key(ids.last()) && k == before.len() {
                assert(names_mail(ids, emails, email, last));
            } else {
                let i = choose|i: int| names_mail(front, emails, email, i);
                assert(names_mail(ids, emails, email, i));
            }
        }
        if exists|i: int| names_mail(ids, emails, email, i) {
            let i = choose|i: int| names_mail(ids, emails, email, i);
            if i == last {
                assert(all[before.len() as int] == email);
            } else {
                assert(names_mail(front, emails, email, i));
                let k = choose|k: int| 0 <= k < before.len() && before[k] == email;
                assert(all[k] == email);
            }
        }
    }
}

/// Storing a message under an id that `ids` does not name changes nothing
/// in what `ids` resolve to.
pub proof fn lemma_resolved_ignores_other_id(
    ids: Seq<EmailID>,
    emails: Map<EmailID, UpgradeableEmail>,
    id: EmailID,
    record: UpgradeableEmail,
)
    requires
        !ids.contains(id),
    ensures
        resolved(ids, emails.insert(id, record)) == resolved(ids, emails),
    decreases ids.len(),
{
    if ids.len() > 0 {
        lemma_resolved_ignores_other_id(ids.drop_last(), emails, id, record);
    }
}

/// A finite set of ids below `bound` has at most `bound` members.
pub proof fn lemma_ids_below_bound(ids: Set<EmailID>, bound: u128)
    requires
        ids.finite(),
        forall|id: EmailID| ids.contains(id) ==> id < bound,
    ensures
        ids.len() <= bound,
    decreases bound,
{
    if bound == 0 {
        assert(ids =~= Set::<EmailID>::empty());
    } else {
        let top: u128 = (bound - 1) as u128;
        lemma_ids_below_bound(ids.remove(top), top);
    }
}

/// In a well-formed store no more records are left than ids were given out.
pub proof fn lemma_live_within_count(store: StoreModel)
    requires
        store.wf(),
    ensures
        store.emails.len() <= store.email_count,
        store.deleted() >= 0,
{
    lemma_ids_below_bound(store.emails.dom(), store.email_count);
}

/// How many messages were deleted when `live` are left of the
/// `email_count` that were ever stored.
pub fn deleted_of(email_count: u128, live: u64) -> (deleted: u128)
    requires
        live <= email_count,
    ensures
        deleted == email_count - live,
{
    email_count - (live as u128)
}

/// The stored messages and the id counter.
pub struct MailStore {
    pub emails: HashMap<EmailID, UpgradeableEmail>,
    /// The next id to give out. It only ever grows.
    pub email_count: u128,
}

impl View for MailStore {
    type V = StoreModel;

    open spec fn view(&self) -> StoreModel {
        StoreModel { emails: self.emails@, email_count: self.email_count }
    }
}

impl MailStore {
    /// The store's invariant.
    pub open spec fn wf(&self) -> bool {
        self@.wf()
    }

    /// An empty store whose first id is zero.
    pub fn new() -> (store: MailStore)
        ensures
            store.wf(),
            store@.emails == Map::<EmailID, UpgradeableEmail>::empty(),
            store@.email_count == 0,
    {
        MailStore { emails: HashMap::new(), email_count: 0 }
    }

    /// Stores a new message in the current shape under the next id, and
    /// returns that id.
    pub fn create(&mut self, title: String, content: String, fee: u128, timestamp: u64) -> (id:
        EmailID)
        requires
            old(self).wf(),
            old(self).email_count < u128::MAX,
        ensures
            final(self).wf(),
            id == old(self).email_count,
            final(self)@ == old(self)@.after_create(Email { title, content, timestamp, fee }),
    {
        let id: EmailID = self.email_count;
        self.email_count = self.email_count + 1;
        let record = UpgradeableEmail::Current(Email { title, content, timestamp, fee });
        self.emails.insert(id, record);
        id
    }

    /// The message under `id` in the current shape. The stored record is
    /// left as it is, whatever its version.
    pub fn read(&self, id: EmailID) -> (result: Result<Email, MailError>)
        ensures
            match result {
                Ok(email) => self@.emails.contains_key(id) && email == self@.emails[id].upgraded(),
                Err(e) => e == MailError::NotFound && !self@.emails.contains_key(id),
            },
    {
        match self.emails.get(&id) {
            Some(record) => Ok(record.to_current()),
            None => Err(MailError::NotFound),
        }
    }

    /// The messages that `ids` name, in that order; ids of deleted
    /// messages are passed over.
    pub fn read_all(&self, ids: &Vec<EmailID>) -> (mails: Vec<Email>)
        ensures
            mails@ == resolved(ids@, self@.emails),
    {
        let mut mails: Vec<Email> = Vec::new();
        let mut i: usize = 0;
        while i < ids.len()
            invariant
                i <= ids.len(),
                mails@ == resolved(ids@.take(i as int), self@.emails),
            decreases ids.len() - i,
        {
            assert(ids@.take(i + 1).drop_last() =~= ids@.take(i as int));
            match self.emails.get(&ids[i]) {
                Some(record) => {
                    mails.push(record.to_current());
                },
                None => {},
            }
            i += 1;
        }
        assert(ids@.take(ids.len() as int) =~= ids@);
        mails
    }

    /// Whether a message is stored under `id`.
    pub fn contains(&self, id: EmailID) -> (stored: bool)
        ensures
            stored == self@.emails.contains_key(id),
    {
        self.emails.contains_key(&id)
    }

    /// Deletes the record under `id`.
    pub fn delete(&mut self, id: EmailID) -> (result: Result<(), MailError>)
        requires
            old(self).wf(),
        ensures
            final(self).wf(),
            final(self)@ == old(self)@.after_delete(id),
            match result {
                Ok(_) => old(self)@.emails.contains_key(id),
                Err(e) => e == MailError::NotFound && !old(self)@.emails.contains_key(id),
            },
    {
        match self.emails.remove(&id) {
            Some(_) => Ok(()),
            None => {
                Err(MailError::NotFound)
            },
        }
    }

    /// How many messages are stored.
    pub fn live_count(&self) -> (count: u64)
        ensures
            count == self@.emails.len(),
    {
        self.emails.len() as u64
    }

    /// How many messages were deleted since the store was made.
    pub fn deleted_count(&self) -> (count: u128)
        requires
            self.wf(),
        ensures
            count == self@.deleted(),
    {
        proof {
            lemma_live_within_count(self@);
        }
        deleted_of(self.email_count, self.live_count())
    }
}

} // verus!

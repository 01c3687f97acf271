//! The mail index: for every account the ids of the messages it sent and
//! of those it received. The index knows ids only, never what a message
//! holds.
use vstd::prelude::*;
use vstd::hash_map::StringHashMap;
use crate::EmailID;

verus! {

/// One side of the index as mathematics: the ids per account, in the order
/// in which they were recorded.
pub type IdTable = Map<Seq<char>, Seq<EmailID>>;

/// The ids recorded for `account`; none if it has no entry.
pub open spec fn ids_of(table: IdTable, account: Seq<char>) -> Seq<EmailID> {
    if table.contains_key(account) {
        table[account]
    } else {
        Seq::empty()
    }
}

/// `ids` with `id` among them: added at the end unless it is there already.
pub open spec fn with_id(ids: Seq<EmailID>, id: EmailID) -> Seq<EmailID> {
    if ids.contains(id) {
        ids
    } else {
        ids.push(id)
    }
}

/// `table` after `id` was recorded for `account`.
pub open spec fn table_with_id(table: IdTable, account: Seq<char>, id: EmailID) -> IdTable {
    table.insert(account, with_id(ids_of(table, account), id))
}

/// Every entry lists each of its ids once.
pub open spec fn table_wf(table: IdTable) -> bool {
    forall|account: Seq<char>|
        table.contains_key(account) ==> (#[trigger] table[account]).no_duplicates()
}

/// Every recorded id is below `bound`.
pub open spec fn table_below(table: IdTable, bound: u128) -> bool {
    forall|account: Seq<char>, i: int|
        table.contains_key(account) && 0 <= i < table[account].len() ==> (
        #[trigger] table[account][i]) < bound
}

/// Both sides of the index as mathematics.
pub struct IndexModel {
    pub sent: IdTable,
    pub received: IdTable,
}

impl IndexModel {
    pub open spec fn wf(self) -> bool {
        table_wf(self.sent) && table_wf(self.received)
    }

    /// Every recorded id is below `bound`.
    pub open spec fn below(self, bound: u128) -> bool {
        table_below(self.sent, bound) && table_below(self.received, bound)
    }

    /// The index after message `id` from `sender` to `receiver` was
    /// recorded.
    pub open spec fn after_record(self, sender: Seq<char>, receiver: Seq<char>, id: EmailID)
        -> IndexModel {
        IndexModel {
            sent: table_with_id(self.sent, sender, id),
            received: table_with_id(self.received, receiver, id),
        }
    }

    /// The set of ids recorded as sent by `account`.
    pub open spec fn sent_by(self, account: Seq<char>) -> Set<EmailID> {
        ids_of(self.sent, account).to_set()
    }

    /// The set of ids recorded as received by `account`.
    pub open spec fn received_by(self, account: Seq<char>) -> Set<EmailID> {
        ids_of(self.received, account).to_set()
    }
}

/// The mathematical table that a stored one stands for.
pub open spec fn table_view(table: StringHashMap<Vec<EmailID>>) -> IdTable {
    table@.map_values(|ids: Vec<EmailID>| ids@)
}

/// Whether `id` is among `ids`.
pub fn contains_id(ids: &Vec<EmailID>, id: EmailID) -> (found: bool)
    ensures
        found == ids@.contains(id),
{
    let mut i: usize = 0;
    while i < ids.len()
        invariant
            i <= ids.len(),
            forall|j: int| 0 <= j < i ==> ids@[j] != id,
        decreases ids.len() - i,
    {
        if ids[i] == id {
            return true;
        }
        i += 1;
    }
    false
}

/// A copy of `ids`.
pub fn copy_ids(ids: &Vec<EmailID>) -> (copy: Vec<EmailID>)
    ensures
        copy@ == ids@,
{
    let mut copy: Vec<EmailID> = Vec::new();
    let mut i: usize = 0;
    while i < ids.len()
        invariant
            i <= ids.len(),
            copy@ == ids@.take(i as int),
        decreases ids.len() - i,
    {
        copy.push(ids[i]);
        i += 1;
    }
    copy
}

/// Records `id` for `account` in one side of the index, making the entry
/// if the account has none.
fn add_id(table: &mut StringHashMap<Vec<EmailID>>, account: &str, id: EmailID)
    ensures
        table_view(*final(table)) == table_with_id(table_view(*old(table)), account@, id),
{
    let mut ids: Vec<EmailID> = match table.get(account) {
        Some(present) => copy_ids(present),
        None => Vec::new(),
    };
    if !contains_id(&ids, id) {
        ids.push(id);
    }
    table.insert(account.to_owned(), ids);
}

/// The sender index and the receiver index.
pub struct MailIndex {
    pub senders: StringHashMap<Vec<EmailID>>,
    pub receivers: StringHashMap<Vec<EmailID>>,
}

impl View for MailIndex {
    type V = IndexModel;

    open spec fn view(&self) -> IndexModel {
        IndexModel { sent: table_view(self.senders), received: table_view(self.receivers) }
    }
}

impl MailIndex {
    /// The index's invariant.
    pub open spec fn wf(&self) -> bool {
        self@.wf()
    }

    /// An index without entries.
    pub fn new() -> (index: MailIndex)
        ensures
            index.wf(),
            index@.sent == Map::<Seq<char>, Seq<EmailID>>::empty(),
            index@.received == Map::<Seq<char>, Seq<EmailID>>::empty(),
    {
        let index = MailIndex { senders: StringHashMap::new(), receivers: StringHashMap::new() };
        index
    }

    /// Records message `id` under its sender and under its receiver.
    /// Recording an id twice for one account changes nothing.
    pub fn record(&mut self, sender: &str, receiver: &str, id: EmailID)
        requires
            old(self).wf(),
        ensures
            final(self).wf(),
            final(self)@ == old(self)@.after_record(sender@, receiver@, id),
    {
        add_id(&mut self.senders, sender, id);
        add_id(&mut self.receivers, receiver, id);
    }

    /// The ids recorded as sent by `account`, none if it has no entry.
    pub fn sent_ids(&self, account: &str) -> (ids: Vec<EmailID>)
        ensures
            ids@ == ids_of(self@.sent, account@),
    {
        match self.senders.get(account) {
            Some(present) => copy_ids(present),
            None => Vec::new(),
        }
    }

    /// The ids recorded as received by `account`, none if it has no entry.
    pub fn received_ids(&self, account: &str) -> (ids: Vec<EmailID>)
        ensures
            ids@ == ids_of(self@.received, account@),
    {
        match self.receivers.get(account) {
            Some(present) => copy_ids(present),
            None => Vec::new(),
        }
    }

    /// How many ids are recorded as sent by `account`.
    pub fn count_sent(&self, account: &str) -> (count: u64)
        ensures
            count == ids_of(self@.sent, account@).len(),
    {
        match self.senders.get(account) {
            Some(present) => present.len() as u64,
            None => 0,
        }
    }

    /// How many ids are recorded as received by `account`.
    pub fn count_received(&self, account: &str) -> (count: u64)
        ensures
            count == ids_of(self@.received, account@).len(),
    {
        match self.receivers.get(account) {
            Some(present) => present.len() as u64,
            None => 0,
        }
    }

    /// Whether `id` is recorded as sent by `account`.
    pub fn is_sender_of(&self, account: &str, id: EmailID) -> (sent: bool)
        ensures
            sent == self@.sent_by(account@).contains(id),
    {
        match self.senders.get(account) {
            Some(present) => contains_id(present, id),
            None => false,
        }
    }
}

} // verus!

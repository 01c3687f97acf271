//! The previous schema: the record shape and the state layout that were in
//! use before messages carried a fee.
use vstd::prelude::*;
use crate::email::Email;
use crate::index::{IndexModel, MailIndex};
use crate::ledger::{AccountLedger, Balances};
use crate::store::{MailStore, StoreModel};

verus! {

/// A message as it was stored before the fee was added.
#[derive(Clone, Debug, Default, PartialEq, Eq)]
pub struct EmailV1 {
    pub title: String,
    pub content: String,
    pub timestamp: u64,
}

impl EmailV1 {
    /// This record in the current shape: title, content and timestamp as
    /// they are, and no fee.
    pub open spec fn upgraded(self) -> Email {
        Email { title: self.title, content: self.content, timestamp: self.timestamp, fee: 0 }
    }

    pub fn into_current(&self) -> (email: Email)
        ensures
            email == self.upgraded(),
    {
        Email {
            title: self.title.clone(),
            content: self.content.clone(),
            timestamp: self.timestamp,
            fee: 0,
        }
    }
}

/// The state as it was laid out before donations were added: the two
/// indices, the store and the ledger, and nothing else.
pub struct ContractV1 {
    pub index: MailIndex,
    pub store: MailStore,
    pub ledger: AccountLedger,
}

/// The previous layout as mathematics.
pub struct ContractV1Model {
    pub accounts: Balances,
    pub index: IndexModel,
    pub store: StoreModel,
}

impl View for ContractV1 {
    type V = ContractV1Model;

    open spec fn view(&self) -> ContractV1Model {
        ContractV1Model { accounts: self.ledger@, index: self.index@, store: self.store@ }
    }
}

} // verus!

//! Message records, and the wrapper under which records of every schema
//! version are stored side by side.
use vstd::prelude::*;
use crate::legacy::EmailV1;

verus! {

/// A message in the current record shape.
#[derive(Clone, Debug, PartialEq, Eq)]
pub struct Email {
    pub title: String,
    pub content: String,
    /// Host time at which the message was sent.
    pub timestamp: u64,
    /// Amount forwarded to the receiver when the message was sent.
    pub fee: u128,
}

/// A stored record: a message tagged with the schema version it was written
/// under. Records are never rewritten; reading resolves them to the current
/// shape.
#[derive(Clone, Debug, PartialEq, Eq)]
pub enum UpgradeableEmail {
    V1(EmailV1),
    Current(Email),
}

impl Email {
    /// A copy of this message.
    pub fn duplicate(&self) -> (copy: Email)
        ensures
            copy == *self,
    {
        Email {
            title: self.title.clone(),
            content: self.content.clone(),
            timestamp: self.timestamp,
            fee: self.fee,
        }
    }
}

impl UpgradeableEmail {
    /// The message this record stands for, in the current shape: a current
    /// record is itself, an older one keeps the fields it has and takes the
    /// defaults for those it lacks.
    pub open spec fn upgraded(self) -> Email {
        match self {
            UpgradeableEmail::Current(email) => email,
            UpgradeableEmail::V1(email) => email.upgraded(),
        }
    }

    /// Upgrades from other versions to the currently used version.
    pub fn into_current(self) -> (email: Email)
        ensures
            email == self.upgraded(),
    {
        match self {
            UpgradeableEmail::Current(email) => email,
            UpgradeableEmail::V1(email) => email.into_current(),
        }
    }

    /// The upgrade of a record that stays where it is.
    pub fn to_current(&self) -> (email: Email)
        ensures
            email == self.upgraded(),
    {
        match self {
            UpgradeableEmail::Current(email) => email.duplicate(),
            UpgradeableEmail::V1(email) => email.into_current(),
        }
    }
}

impl From<Email> for UpgradeableEmail {
    fn from(email: Email) -> (record: Self) {
        UpgradeableEmail::Current(email)
    }
}

impl vstd::std_specs::convert::FromSpecImpl<Email> for UpgradeableEmail {
    open spec fn obeys_from_spec() -> bool {
        true
    }

    open spec fn from_spec(email: Email) -> Self {
        UpgradeableEmail::Current(email)
    }
}

} // verus!

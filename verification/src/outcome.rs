//! What a call hands back besides the new state: the transfer the host is
//! to make, or the reason nothing was done.
use vstd::prelude::*;

verus! {

/// A balance transfer for the host to make once the state change of the
/// call that returned it is committed. Whether the host then succeeds has
/// no bearing on that state change.
#[derive(Clone, Debug, PartialEq, Eq)]
pub struct Transfer {
    pub receiver: String,
    pub amount: u128,
}

/// A [`Transfer`] with the receiver as text.
pub struct TransferView {
    pub receiver: Seq<char>,
    pub amount: u128,
}

impl View for Transfer {
    type V = TransferView;

    open spec fn view(&self) -> TransferView {
        TransferView { receiver: self.receiver@, amount: self.amount }
    }
}

/// Why a call was refused. A refused call leaves the state as it was.
#[derive(Clone, Copy, Debug, PartialEq, Eq)]
pub enum MailError {
    /// The account has no staking balance.
    NotRegistered,
    /// A first deposit that does not exceed the minimum.
    InsufficientDeposit,
    /// A withdrawal of more than is available.
    InsufficientAvailable,
    /// What is available does not pay for one more message.
    InsufficientStorageBalance,
    /// No message is stored under the id.
    NotFound,
    /// The deletion policy in force does not let the requester delete the
    /// message.
    NotAuthorized,
}

} // verus!

//! Sequences of successful operations, and what they make of a state.

use vstd::prelude::*;
use crate::identity::Identity;
use crate::model::ContractState;

verus! {

/// An operation that changed the state.
pub enum Operation {
    /// A session was booked and paid.
    Book { client: Identity, coach: Identity, amount: i128, scheduled_time: u64 },
    /// Attendance of a session was marked.
    Mark { session_id: u64, attended: bool },
    /// The payment of a session was released.
    Complete { session_id: u64 },
}

impl ContractState {
    /// Whether `operation` can succeed in this state for a caller with the
    /// right authorisation, within the limits of the counters.
    pub open spec fn admits(self, operation: Operation) -> bool {
        match operation {
            Operation::Book { .. } => self.payment_asset is Some && self.session_counter
                < u64::MAX,
            Operation::Mark { session_id, attended } => self.sessions.contains_key(session_id)
                && self.can_mark(session_id, attended),
            Operation::Complete { session_id } => self.sessions.contains_key(session_id)
                && self.sessions[session_id].attended && !self.sessions[session_id].completed
                && self.payment_asset is Some,
        }
    }

    /// The state after `operation` succeeded.
    pub open spec fn after(self, operation: Operation) -> ContractState {
        match operation {
            Operation::Book { client, coach, amount, scheduled_time } => self.booked(
                client,
                coach,
                amount,
                scheduled_time,
            ),
            Operation::Mark { session_id, attended } => self.marked(session_id, attended),
            Operation::Complete { session_id } => self.released(session_id),
        }
    }

    /// The state after all of `history` succeeded, one after the other.
    pub open spec fn after_all(self, history: Seq<Operation>) -> ContractState
        decreases history.len(),
    {
        if history.len() == 0 {
            self
        } else {
            self.after_all(history.drop_last()).after(history.last())
        }
    }

    /// Whether each operation of `history` can succeed in the state that the
    /// operations before it leave.
    pub open spec fn admits_all(self, history: Seq<Operation>) -> bool
        decreases history.len(),
    {
        history.len() > 0 ==> self.admits_all(history.drop_last()) && self.after_all(
            history.drop_last(),
        ).admits(history.last())
    }

    /// Whether every id up to the counter has a session: none was skipped.
    pub open spec fn gapless(self) -> bool {
        forall|id: u64|
            1 <= id <= self.session_counter ==> #[trigger] self.sessions.contains_key(id)
    }
}

/// How many sessions `client` booked in `history`.
pub open spec fn bookings_by(history: Seq<Operation>, client: Identity) -> nat
    decreases history.len(),
{
    if history.len() == 0 {
        0
    } else {
        bookings_by(history.drop_last(), client) + match history.last() {
            Operation::Book { client: who, .. } => if who == client {
                1nat
            } else {
                0nat
            },
            _ => 0nat,
        }
    }
}

/// How many sessions were booked in `history`.
pub open spec fn bookings(history: Seq<Operation>) -> nat
    decreases history.len(),
{
    if history.len() == 0 {
        0
    } else {
        bookings(history.drop_last()) + match history.last() {
            Operation::Book { .. } => 1nat,
            _ => 0nat,
        }
    }
}

/// How many marks with the value `attended` the sessions of `client` got in
/// `history`, which starts in the state `start`.
pub open spec fn marks_for(
    start: ContractState,
    history: Seq<Operation>,
    client: Identity,
    attended: bool,
) -> nat
    decreases history.len(),
{
    if history.len() == 0 {
        0
    } else {
        marks_for(start, history.drop_last(), client, attended) + match history.last() {
            Operation::Mark { session_id, attended: mark } => if mark == attended
                && start.after_all(history.drop_last()).sessions[session_id].client == client {
                1nat
            } else {
                0nat
            },
            _ => 0nat,
        }
    }
}

/// The ids of the sessions that got a mark in `history`.
pub open spec fn marked(history: Seq<Operation>) -> Set<u64>
    decreases history.len(),
{
    if history.len() == 0 {
        Set::empty()
    } else {
        match history.last() {
            Operation::Mark { session_id, .. } => marked(history.drop_last()).insert(session_id),
            _ => marked(history.drop_last()),
        }
    }
}

/// Whether no session got more than one mark in `history`.
pub open spec fn marks_each_session_once(history: Seq<Operation>) -> bool
    decreases history.len(),
{
    history.len() > 0 ==> marks_each_session_once(history.drop_last()) && match history.last() {
        Operation::Mark { session_id, .. } => !marked(history.drop_last()).contains(session_id),
        _ => true,
    }
}

} // verus!

//! The record of one paid coaching session.

use vstd::prelude::*;
use crate::identity::Identity;

verus! {

/// One coaching session with its escrowed payment.
#[derive(Clone, Copy, Debug, PartialEq, Eq)]
pub struct CoachingSession {
    /// The id under which the session is kept; never changes.
    pub session_id: u64,
    /// Who booked and paid.
    pub client: Identity,
    /// Who attests attendance and receives the payment.
    pub coach: Identity,
    /// The quantity held in custody for this session.
    pub amount: i128,
    /// When the session is to take place; informational only.
    pub scheduled_time: u64,
    /// The last attendance mark; false until the coach marks the session.
    pub attended: bool,
    /// Whether the payment has been released to the coach.
    pub completed: bool,
}

impl CoachingSession {
    /// The session as it stands right after booking: neither attended nor
    /// completed.
    pub open spec fn booked(
        session_id: u64,
        client: Identity,
        coach: Identity,
        amount: i128,
        scheduled_time: u64,
    ) -> CoachingSession {
        CoachingSession {
            session_id,
            client,
            coach,
            amount,
            scheduled_time,
            attended: false,
            completed: false,
        }
    }

    /// A freshly booked session.
    pub fn new(
        session_id: u64,
        client: Identity,
        coach: Identity,
        amount: i128,
        scheduled_time: u64,
    ) -> (session: CoachingSession)
        ensures
            session == CoachingSession::booked(session_id, client, coach, amount, scheduled_time),
    {
        CoachingSession {
            session_id,
            client,
            coach,
            amount,
            scheduled_time,
            attended: false,
            completed: false,
        }
    }
}

} // verus!

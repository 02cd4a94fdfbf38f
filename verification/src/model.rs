//! The state of the escrow as a mathematical value, and what each operation
//! makes of it.

use vstd::prelude::*;
use crate::custody::Transfer;
use crate::error::Error;
use crate::identity::AuthContext;
use crate::identity::Identity;
use crate::session::CoachingSession;
use crate::stats::ClientStats;

verus! {

/// Everything the escrow keeps between calls.
pub struct ContractState {
    /// The identity under which the escrow itself holds funds.
    pub custodian: Identity,
    /// The asset in which all sessions are paid; set once.
    pub payment_asset: Option<Identity>,
    /// The highest session id issued so far.
    pub session_counter: u64,
    /// The sessions, by id.
    pub sessions: Map<u64, CoachingSession>,
    /// The statistics of the clients that have a history.
    pub stats: Map<Identity, ClientStats>,
}

impl ContractState {
    /// The state before initialisation.
    pub open spec fn fresh(custodian: Identity) -> ContractState {
        ContractState {
            custodian,
            payment_asset: None,
            session_counter: 0,
            sessions: Map::empty(),
            stats: Map::empty(),
        }
    }

    /// The statistics of `client`; those of a client without history are zero.
    pub open spec fn stats_of(self, client: Identity) -> ClientStats {
        if self.stats.contains_key(client) {
            self.stats[client]
        } else {
            ClientStats::zero()
        }
    }

    /// What holds of every state that the operations can reach: session ids
    /// lie between 1 and the counter, each session is kept under its own id,
    /// no client has booked more sessions than were issued, and nothing has
    /// been issued before initialisation.
    pub open spec fn consistent(self) -> bool {
        &&& forall|id: u64| #[trigger]
            self.sessions.contains_key(id) ==> 1 <= id <= self.session_counter
                && self.sessions[id].session_id == id
        &&& forall|client: Identity| #[trigger]
            self.stats.contains_key(client) ==> self.stats[client].total_sessions
                <= self.session_counter
        &&& self.payment_asset is None ==> self.session_counter == 0
    }

    /// The state after a successful `initialize`.
    pub open spec fn initialized(self, payment_asset: Identity) -> ContractState {
        ContractState { payment_asset: Some(payment_asset), session_counter: 0, ..self }
    }

    /// What booking a session asks of the ledger, or why the booking is
    /// refused beforehand: the caller must be the client, and the payment
    /// asset must be set. The payment goes from the client into custody.
    pub open spec fn escrow(self, auth: AuthContext, client: Identity, amount: i128) -> Result<
        Transfer,
        Error,
    > {
        if !auth.authorizes(client) {
            Err(Error::Unauthorized)
        } else {
            match self.payment_asset {
                None => Err(Error::NotInitialized),
                Some(asset) => Ok(Transfer { asset, from: client, to: self.custodian, amount }),
            }
        }
    }

    /// The id that the next booking gets.
    pub open spec fn next_id(self) -> u64 {
        (self.session_counter + 1) as u64
    }

    /// The state after a booking whose payment went into custody: the session
    /// is kept under the next id, the counter advances by one, and the
    /// client's statistics count one more booking.
    pub open spec fn booked(
        self,
        client: Identity,
        coach: Identity,
        amount: i128,
        scheduled_time: u64,
    ) -> ContractState {
        ContractState {
            session_counter: self.next_id(),
            sessions: self.sessions.insert(
                self.next_id(),
                CoachingSession::booked(self.next_id(), client, coach, amount, scheduled_time),
            ),
            stats: self.stats.insert(client, self.stats_of(client).updated(true, false)),
            ..self
        }
    }

    /// Whether the caller may mark attendance of the session: it must exist,
    /// and the caller must be its coach.
    pub open spec fn attendance(self, auth: AuthContext, session_id: u64) -> Result<(), Error> {
        if !self.sessions.contains_key(session_id) {
            Err(Error::NotFound)
        } else if !auth.authorizes(self.sessions[session_id].coach) {
            Err(Error::Unauthorized)
        } else {
            Ok(())
        }
    }

    /// Whether the counter that marking the session increments can still
    /// grow.
    pub open spec fn can_mark(self, session_id: u64, attended: bool) -> bool {
        self.sessions.contains_key(session_id) ==> self.stats_of(
            self.sessions[session_id].client,
        ).has_room(false, attended)
    }

    /// The state after attendance of an existing session was marked: the
    /// session holds the new mark, and the client's statistics count it.
    pub open spec fn marked(self, session_id: u64, attended: bool) -> ContractState {
        let session = self.sessions[session_id];
        ContractState {
            sessions: self.sessions.insert(session_id, CoachingSession { attended, ..session }),
            stats: self.stats.insert(
                session.client,
                self.stats_of(session.client).updated(false, attended),
            ),
            ..self
        }
    }

    /// What completing a session asks of the ledger, or why completion is
    /// refused beforehand. The session must exist, the caller must be its
    /// coach, it must be marked as attended and not be completed yet. The
    /// whole escrowed amount goes from custody to the coach.
    pub open spec fn release(self, auth: AuthContext, session_id: u64) -> Result<Transfer, Error> {
        if !self.sessions.contains_key(session_id) {
            Err(Error::NotFound)
        } else {
            let session = self.sessions[session_id];
            if !auth.authorizes(session.coach) {
                Err(Error::Unauthorized)
            } else if !session.attended {
                Err(Error::NotAttended)
            } else if session.completed {
                Err(Error::AlreadyCompleted)
            } else {
                match self.payment_asset {
                    None => Err(Error::NotInitialized),
                    Some(asset) => Ok(
                        Transfer {
                            asset,
                            from: self.custodian,
                            to: session.coach,
                            amount: session.amount,
                        },
                    ),
                }
            }
        }
    }

    /// The state after the payment of an existing session was released: the
    /// session is completed, and nothing else changes.
    pub open spec fn released(self, session_id: u64) -> ContractState {
        let session = self.sessions[session_id];
        ContractState {
            sessions: self.sessions.insert(
                session_id,
                CoachingSession { completed: true, ..session },
            ),
            ..self
        }
    }
}

} // verus!

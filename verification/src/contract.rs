//! The escrow itself: sessions from booking to release, and the statistics
//! that booking and attendance feed.

use vstd::prelude::*;
use std::collections::HashMap;
use soroban_sdk::Env;
use crate::custody::submit;
use crate::custody::Transfer;
use crate::custody::TransferFault;
use crate::error::Error;
use crate::identity::AuthContext;
use crate::identity::Identity;
use crate::identity::IdentityKind;
use crate::model::ContractState;
use crate::roster::Roster;
use crate::session::CoachingSession;
use crate::stats::ClientStats;

verus! {

broadcast use vstd::std_specs::hash::group_hash_axioms;

/// The escrow of one deployment: its configuration, its sessions and the
/// statistics of its clients.
pub struct CoachingContract {
    custodian: Identity,
    payment_asset: Option<Identity>,
    session_counter: u64,
    sessions: HashMap<u64, CoachingSession>,
    stats: Roster,
}

impl View for CoachingContract {
    type V = ContractState;

    closed spec fn view(&self) -> ContractState {
        ContractState {
            custodian: self.custodian,
            payment_asset: self.payment_asset,
            session_counter: self.session_counter,
            sessions: self.sessions@,
            stats: self.stats@,
        }
    }
}

impl CoachingContract {
    /// Whether the escrow is in a state that its operations can reach.
    pub open spec fn wf(&self) -> bool {
        self@.consistent()
    }

    /// An escrow that holds funds as `custodian` and awaits initialisation.
    pub fn new(custodian: Identity) -> (contract: CoachingContract)
        ensures
            contract.wf(),
            contract@ == ContractState::fresh(custodian),
    {
        CoachingContract {
            custodian,
            payment_asset: None,
            session_counter: 0,
            sessions: HashMap::new(),
            stats: Roster::new(),
        }
    }

    /// An initialised escrow as it was left: the payment asset is set and
    /// `session_counter` ids have been issued. Sessions and statistics are
    /// brought back one by one with `restore_session` and `restore_stats`.
    pub fn resume(custodian: Identity, payment_asset: Identity, session_counter: u64) -> (contract:
        CoachingContract)
        ensures
            contract.wf(),
            contract@ == (ContractState {
                payment_asset: Some(payment_asset),
                session_counter,
                ..ContractState::fresh(custodian)
            }),
    {
        CoachingContract {
            custodian,
            payment_asset: Some(payment_asset),
            session_counter,
            sessions: HashMap::new(),
            stats: Roster::new(),
        }
    }

    /// Brings back a stored session. It is taken if its id has been issued
    /// and no session is held under that id yet.
    pub fn restore_session(&mut self, session: CoachingSession) -> (taken: bool)
        requires
            old(self).wf(),
        ensures
            final(self).wf(),
            taken == (1 <= session.session_id <= old(self)@.session_counter && !old(
                self,
            )@.sessions.contains_key(session.session_id)),
            taken ==> final(self)@ == (ContractState {
                sessions: old(self)@.sessions.insert(session.session_id, session),
                ..old(self)@
            }),
            !taken ==> final(self)@ == old(self)@,
    {
        if session.session_id < 1 || session.session_id > self.session_counter {
            return false;
        }
        if self.sessions.contains_key(&session.session_id) {
            return false;
        }
        self.sessions.insert(session.session_id, session);
        true
    }

    /// Brings back the stored statistics of a client. They are taken if they
    /// count no more bookings than ids have been issued and the client has no
    /// statistics yet.
    pub fn restore_stats(&mut self, client: Identity, stats: ClientStats) -> (taken: bool)
        requires
            old(self).wf(),
        ensures
            final(self).wf(),
            taken == (stats.total_sessions <= old(self)@.session_counter && !old(
                self,
            )@.stats.contains_key(client)),
            taken ==> final(self)@ == (ContractState {
                stats: old(self)@.stats.insert(client, stats),
                ..old(self)@
            }),
            !taken ==> final(self)@ == old(self)@,
    {
        if stats.total_sessions > self.session_counter {
            return false;
        }
        if self.stats.get(&client).is_some() {
            return false;
        }
        self.stats.set(client, stats);
        true
    }

    /// The identity under which the escrow holds funds.
    pub fn custodian(&self) -> (custodian: Identity)
        ensures
            custodian == self@.custodian,
    {
        self.custodian
    }

    /// The payment asset, once it is set.
    pub fn payment_asset(&self) -> (asset: Option<Identity>)
        ensures
            asset == self@.payment_asset,
    {
        self.payment_asset
    }

    /// The highest session id issued so far; 0 before the first booking.
    pub fn session_counter(&self) -> (counter: u64)
        ensures
            counter == self@.session_counter,
    {
        self.session_counter
    }

    /// Sets the payment asset and the session counter to 0. Works once.
    pub fn initialize(&mut self, payment_asset: Identity) -> (done: Result<(), Error>)
        requires
            old(self).wf(),
        ensures
            final(self).wf(),
            old(self)@.payment_asset is Some ==> done == Err::<(), Error>(Error::AlreadyInitialized)
                && final(self)@ == old(self)@,
            old(self)@.payment_asset is None ==> done == Ok::<(), Error>(()) && final(self)@ == old(
                self,
            )@.initialized(payment_asset),
    {
        if self.payment_asset.is_some() {
            return Err(Error::AlreadyInitialized);
        }
        self.payment_asset = Some(payment_asset);
        self.session_counter = 0;
        Ok(())
    }

    /// The session kept under `session_id`.
    pub fn get_session(&self, session_id: u64) -> (found: Result<CoachingSession, Error>)
        ensures
            found == (if self@.sessions.contains_key(session_id) {
                Ok::<CoachingSession, Error>(self@.sessions[session_id])
            } else {
                Err::<CoachingSession, Error>(Error::NotFound)
            }),
    {
        match self.sessions.get(&session_id) {
            Some(session) => Ok(*session),
            None => Err(Error::NotFound),
        }
    }

    /// The statistics of `client`; zero and not at risk for a client without
    /// history.
    pub fn get_client_stats(&self, client: Identity) -> (stats: ClientStats)
        ensures
            stats == self@.stats_of(client),
    {
        match self.stats.get(&client) {
            Some(stats) => stats,
            None => ClientStats::new(),
        }
    }

    /// Counts one event for `client` and recomputes the client's risk flag.
    fn update_client_stats(&mut self, client: &Identity, new_session: bool, attended: bool)
        requires
            old(self)@.stats_of(*client).has_room(new_session, attended),
        ensures
            final(self)@ == (ContractState {
                stats: old(self)@.stats.insert(
                    *client,
                    old(self)@.stats_of(*client).updated(new_session, attended),
                ),
                ..old(self)@
            }),
    {
        let mut stats = self.get_client_stats(*client);
        stats.update(new_session, attended);
        self.stats.set(*client, stats);
    }

    /// What booking a session for `client` asks of the ledger, or why the
    /// booking is refused before anything moves.
    pub fn escrow_request(&self, auth: &AuthContext, client: &Identity, amount: i128) -> (request:
        Result<Transfer, Error>)
        ensures
            request == self@.escrow(*auth, *client, amount),
    {
        if !auth.is_authorized_as(client) {
            return Err(Error::Unauthorized);
        }
        match self.payment_asset {
            None => Err(Error::NotInitialized),
            Some(asset) => Ok(Transfer { asset, from: *client, to: self.custodian, amount }),
        }
    }

    /// Finishes a booking, given what the ledger made of its escrow request.
    ///
    /// If the payment went into custody, the session is stored under the next
    /// id, the counter advances, and the client's statistics count the
    /// booking. If it did not, nothing is stored.
    pub fn record_booking(
        &mut self,
        client: Identity,
        coach: Identity,
        amount: i128,
        scheduled_time: u64,
        outcome: Result<(), TransferFault>,
    ) -> (issued: Result<u64, Error>)
        requires
            old(self).wf(),
            old(self)@.session_counter < u64::MAX,
        ensures
            final(self).wf(),
            match outcome {
                Err(fault) => issued == Err::<u64, Error>(fault.as_error()) && final(self)@ == old(
                    self,
                )@,
                Ok(_) => if old(self)@.payment_asset is None {
                    issued == Err::<u64, Error>(Error::NotInitialized) && final(self)@ == old(self)@
                } else {
                    issued == Ok::<u64, Error>(old(self)@.next_id()) && final(self)@ == old(
                        self,
                    )@.booked(client, coach, amount, scheduled_time)
                },
            },
    {
        if let Err(fault) = outcome {
            return Err(fault.to_error());
        }
        if self.payment_asset.is_none() {
            return Err(Error::NotInitialized);
        }
        let session_id: u64 = self.session_counter + 1;
        let session = CoachingSession::new(session_id, client, coach, amount, scheduled_time);
        self.sessions.insert(session_id, session);
        self.session_counter = session_id;
        self.update_client_stats(&client, true, false);
        Ok(session_id)
    }

    /// Books a session: the client pays `amount` into custody, and the session
    /// is stored under a new id, which is returned.
    ///
    /// The caller must be the client, and the payment asset must be set. The
    /// payment is moved before anything is stored: if the ledger refuses it,
    /// the booking fails and leaves no trace.
    pub fn create_session(
        &mut self,
        env: &mut Env,
        auth: &AuthContext,
        client: Identity,
        coach: Identity,
        amount: i128,
        scheduled_time: u64,
    ) -> (issued: Result<u64, Error>)
        requires
            old(self).wf(),
            old(self)@.session_counter < u64::MAX,
        ensures
            final(self).wf(),
            match old(self)@.escrow(*auth, client, amount) {
                Err(refusal) => issued == Err::<u64, Error>(refusal) && final(self)@ == old(self)@
                    && *final(env) == *old(env),
                Ok(request) => match issued {
                    Ok(session_id) => session_id == old(self)@.next_id() && final(self)@ == old(
                        self,
                    )@.booked(client, coach, amount, scheduled_time),
                    Err(failure) => (failure == Error::TransferFailed || failure
                        == Error::InsufficientFunds) && final(self)@ == old(self)@,
                },
            },
            old(self)@.escrow(*auth, client, amount) matches Ok(request) && request.asset.kind
                != IdentityKind::Contract ==> issued == Err::<u64, Error>(Error::TransferFailed)
                && *final(env) == *old(env),
    {
        match self.escrow_request(auth, &client, amount) {
            Err(refusal) => Err(refusal),
            Ok(request) => {
                let outcome = submit(env, &request);
                self.record_booking(client, coach, amount, scheduled_time, outcome)
            },
        }
    }

    /// Records whether the client attended the session, and counts the mark
    /// in the client's statistics. Only the session's coach may do so.
    ///
    /// Every call counts: marking a session twice counts two marks.
    pub fn mark_attendance(&mut self, auth: &AuthContext, session_id: u64, attended: bool) -> (done:
        Result<(), Error>)
        requires
            old(self).wf(),
            old(self)@.can_mark(session_id, attended),
        ensures
            final(self).wf(),
            match old(self)@.attendance(*auth, session_id) {
                Err(refusal) => done == Err::<(), Error>(refusal) && final(self)@ == old(self)@,
                Ok(_) => done == Ok::<(), Error>(()) && final(self)@ == old(self)@.marked(
                    session_id,
                    attended,
                ),
            },
    {
        let mut session = match self.sessions.get(&session_id) {
            Some(session) => *session,
            None => {
                return Err(Error::NotFound);
            },
        };
        if !auth.is_authorized_as(&session.coach) {
            return Err(Error::Unauthorized);
        }
        session.attended = attended;
        self.sessions.insert(session_id, session);
        self.update_client_stats(&session.client, false, attended);
        Ok(())
    }

    /// What completing the session asks of the ledger, or why completion is
    /// refused before anything moves.
    pub fn release_request(&self, auth: &AuthContext, session_id: u64) -> (request: Result<
        Transfer,
        Error,
    >)
        ensures
            request == self@.release(*auth, session_id),
    {
        let session = match self.sessions.get(&session_id) {
            Some(session) => *session,
            None => {
                return Err(Error::NotFound);
            },
        };
        if !auth.is_authorized_as(&session.coach) {
            return Err(Error::Unauthorized);
        }
        if !session.attended {
            return Err(Error::NotAttended);
        }
        if session.completed {
            return Err(Error::AlreadyCompleted);
        }
        match self.payment_asset {
            None => Err(Error::NotInitialized),
            Some(asset) => Ok(
                Transfer { asset, from: self.custodian, to: session.coach, amount: session.amount },
            ),
        }
    }

    /// Finishes a completion, given what the ledger made of its release
    /// request.
    ///
    /// If the payment reached the coach, the session becomes completed. If it
    /// did not, the session stays as it was, so that completion can be tried
    /// again.
    pub fn record_release(&mut self, session_id: u64, outcome: Result<(), TransferFault>) -> (done:
        Result<(), Error>)
        requires
            old(self).wf(),
        ensures
            final(self).wf(),
            match outcome {
                Err(fault) => done == Err::<(), Error>(fault.as_error()) && final(self)@ == old(
                    self,
                )@,
                Ok(_) => if old(self)@.sessions.contains_key(session_id) {
                    done == Ok::<(), Error>(()) && final(self)@ == old(self)@.released(session_id)
                } else {
                    done == Err::<(), Error>(Error::NotFound) && final(self)@ == old(self)@
                },
            },
    {
        if let Err(fault) = outcome {
            return Err(fault.to_error());
        }
        let mut session = match self.sessions.get(&session_id) {
            Some(session) => *session,
            None => {
                return Err(Error::NotFound);
            },
        };
        session.completed = true;
        self.sessions.insert(session_id, session);
        Ok(())
    }

    /// Completes a session: the escrowed amount goes to the coach, and the
    /// session becomes completed.
    ///
    /// Only the session's coach may do so, only after the session was marked
    /// as attended, and only once. The payment is moved before the session
    /// is marked completed: if the ledger refuses it, the session stays open.
    pub fn complete_session(&mut self, env: &mut Env, auth: &AuthContext, session_id: u64) -> (done:
        Result<(), Error>)
        requires
            old(self).wf(),
        ensures
            final(self).wf(),
            match old(self)@.release(*auth, session_id) {
                Err(refusal) => done == Err::<(), Error>(refusal) && final(self)@ == old(self)@
                    && *final(env) == *old(env),
                Ok(request) => match done {
                    Ok(_) => final(self)@ == old(self)@.released(session_id),
                    Err(failure) => (failure == Error::TransferFailed || failure
                        == Error::InsufficientFunds) && final(self)@ == old(self)@,
                },
            },
            old(self)@.release(*auth, session_id) matches Ok(request) && request.asset.kind
                != IdentityKind::Contract ==> done == Err::<(), Error>(Error::TransferFailed)
                && *final(env) == *old(env),
    {
        match self.release_request(auth, session_id) {
            Err(refusal) => Err(refusal),
            Ok(request) => {
                let outcome = submit(env, &request);
                self.record_release(session_id, outcome)
            },
        }
    }
}

} // verus!

//! What holds of the escrow over whole histories of operations.

use vstd::prelude::*;
use crate::custody::Transfer;
use crate::error::Error;
use crate::history::bookings;
use crate::history::bookings_by;
use crate::history::marked;
use crate::history::marks_each_session_once;
use crate::history::marks_for;
use crate::history::Operation;
use crate::identity::AuthContext;
use crate::identity::Identity;
use crate::model::ContractState;
use crate::session::CoachingSession;
use crate::stats::ClientStats;

verus! {

/// A successful operation leaves a consistent state consistent.
pub proof fn law_operations_keep_consistency(state: ContractState, operation: Operation)
    requires
        state.consistent(),
        state.admits(operation),
    ensures
        state.after(operation).consistent(),
{
}

/// A history of successful operations leaves a consistent state consistent.
pub proof fn law_histories_keep_consistency(state: ContractState, history: Seq<Operation>)
    requires
        state.consistent(),
        state.admits_all(history),
    ensures
        state.after_all(history).consistent(),
    decreases history.len(),
{
    if history.len() > 0 {
        law_histories_keep_consistency(state, history.drop_last());
        law_operations_keep_consistency(state.after_all(history.drop_last()), history.last());
    }
}

/// Numbering starts at 1: the first session booked on a new escrow gets the
/// id 1, and a new escrow has skipped no id.
pub proof fn law_numbering_starts_at_one(custodian: Identity, payment_asset: Identity)
    ensures
        ContractState::fresh(custodian).consistent(),
        ContractState::fresh(custodian).gapless(),
        ContractState::fresh(custodian).initialized(payment_asset).consistent(),
        ContractState::fresh(custodian).initialized(payment_asset).gapless(),
        ContractState::fresh(custodian).initialized(payment_asset).next_id() == 1,
{
}

/// A booking stores an open session under an id that no session had before,
/// one above the counter, and leaves the other sessions alone.
pub proof fn law_booking_issues_a_new_id(
    state: ContractState,
    client: Identity,
    coach: Identity,
    amount: i128,
    scheduled_time: u64,
)
    requires
        state.consistent(),
        state.session_counter < u64::MAX,
    ensures
        state.next_id() == state.session_counter + 1,
        !state.sessions.contains_key(state.next_id()),
        state.booked(client, coach, amount, scheduled_time).session_counter == state.next_id(),
        state.booked(client, coach, amount, scheduled_time).sessions[state.next_id()].session_id
            == state.next_id(),
        !state.booked(client, coach, amount, scheduled_time).sessions[state.next_id()].attended,
        !state.booked(client, coach, amount, scheduled_time).sessions[state.next_id()].completed,
        forall|id: u64|
            state.sessions.contains_key(id) ==> #[trigger] state.booked(
                client,
                coach,
                amount,
                scheduled_time,
            ).sessions.contains_key(id) && state.booked(
                client,
                coach,
                amount,
                scheduled_time,
            ).sessions[id] == state.sessions[id],
{
}

/// Ids are issued in order and without gaps: over a history the counter
/// grows by the number of bookings, and if every id up to the counter had a
/// session before, every id up to the counter has one after.
pub proof fn law_ids_are_issued_without_gaps(state: ContractState, history: Seq<Operation>)
    requires
        state.consistent(),
        state.admits_all(history),
    ensures
        state.after_all(history).session_counter == state.session_counter + bookings(history),
        state.gapless() ==> state.after_all(history).gapless(),
    decreases history.len(),
{
    if history.len() > 0 {
        law_ids_are_issued_without_gaps(state, history.drop_last());
        law_histories_keep_consistency(state, history.drop_last());
    }
}

/// The statistics of a client count the history: bookings by the client, and
/// the marks that the client's sessions got, present and absent apart.
pub proof fn law_statistics_count_the_history(
    state: ContractState,
    history: Seq<Operation>,
    client: Identity,
)
    requires
        state.consistent(),
        state.admits_all(history),
    ensures
        state.after_all(history).stats_of(client).total_sessions == state.stats_of(
            client,
        ).total_sessions + bookings_by(history, client),
        state.after_all(history).stats_of(client).attended_sessions == state.stats_of(
            client,
        ).attended_sessions + marks_for(state, history, client, true),
        state.after_all(history).stats_of(client).missed_sessions == state.stats_of(
            client,
        ).missed_sessions + marks_for(state, history, client, false),
    decreases history.len(),
{
    if history.len() > 0 {
        law_statistics_count_the_history(state, history.drop_last(), client);
        law_histories_keep_consistency(state, history.drop_last());
    }
}

/// A session that was never marked as attended cannot be completed: as long
/// as the history holds no mark that says the client was present, the coach's
/// attempt fails with `NotAttended`.
pub proof fn law_completion_needs_attendance(
    state: ContractState,
    history: Seq<Operation>,
    session_id: u64,
    auth: AuthContext,
)
    requires
        state.consistent(),
        state.admits_all(history),
        state.sessions.contains_key(session_id),
        !state.sessions[session_id].attended,
        forall|i: int|
            0 <= i < history.len() ==> history[i] != (Operation::Mark {
                session_id,
                attended: true,
            }),
        auth.authorizes(state.sessions[session_id].coach),
    ensures
        state.after_all(history).release(auth, session_id) == Err::<Transfer, Error>(
            Error::NotAttended,
        ),
    decreases history.len(),
{
    law_sessions_keep_their_terms(state, history, session_id);
    lemma_unmarked_sessions_stay_unattended(state, history, session_id);
}

/// Over a history a session stays, under its id and with its client, coach,
/// amount and scheduled time; so do the custodian and the payment asset.
pub proof fn law_sessions_keep_their_terms(
    state: ContractState,
    history: Seq<Operation>,
    session_id: u64,
)
    requires
        state.consistent(),
        state.admits_all(history),
        state.sessions.contains_key(session_id),
    ensures
        state.after_all(history).sessions.contains_key(session_id),
        state.after_all(history).sessions[session_id].session_id == session_id,
        state.after_all(history).sessions[session_id].client == state.sessions[session_id].client,
        state.after_all(history).sessions[session_id].coach == state.sessions[session_id].coach,
        state.after_all(history).sessions[session_id].amount == state.sessions[session_id].amount,
        state.after_all(history).sessions[session_id].scheduled_time
            == state.sessions[session_id].scheduled_time,
        state.after_all(history).custodian == state.custodian,
        state.payment_asset is Some ==> state.after_all(history).payment_asset
            == state.payment_asset,
    decreases history.len(),
{
    if history.len() > 0 {
        law_sessions_keep_their_terms(state, history.drop_last(), session_id);
        law_histories_keep_consistency(state, history.drop_last());
    }
}

proof fn lemma_unmarked_sessions_stay_unattended(
    state: ContractState,
    history: Seq<Operation>,
    session_id: u64,
)
    requires
        state.consistent(),
        state.admits_all(history),
        state.sessions.contains_key(session_id),
        !state.sessions[session_id].attended,
        forall|i: int|
            0 <= i < history.len() ==> history[i] != (Operation::Mark {
                session_id,
                attended: true,
            }),
    ensures
        !state.after_all(history).sessions[session_id].attended,
    decreases history.len(),
{
    if history.len() > 0 {
        lemma_unmarked_sessions_stay_unattended(state, history.drop_last(), session_id);
        law_sessions_keep_their_terms(state, history.drop_last(), session_id);
        law_histories_keep_consistency(state, history.drop_last());
        assert(history.last() == history[history.len() - 1]);
    }
}

/// What a completion asks of the ledger is the session's whole amount, from
/// custody to the session's coach, in the payment asset.
pub proof fn law_release_pays_the_coach_in_full(
    state: ContractState,
    auth: AuthContext,
    session_id: u64,
)
    requires
        state.release(auth, session_id) is Ok,
    ensures
        state.sessions.contains_key(session_id),
        state.sessions[session_id].attended,
        !state.sessions[session_id].completed,
        auth.authorizes(state.sessions[session_id].coach),
        state.payment_asset is Some,
        state.release(auth, session_id) == Ok::<Transfer, Error>(
            Transfer {
                asset: state.payment_asset->Some_0,
                from: state.custodian,
                to: state.sessions[session_id].coach,
                amount: state.sessions[session_id].amount,
            },
        ),
{
}

/// A second completion right after the first fails with `AlreadyCompleted`.
pub proof fn law_second_completion_fails(state: ContractState, auth: AuthContext, session_id: u64)
    requires
        state.release(auth, session_id) is Ok,
    ensures
        state.released(session_id).release(auth, session_id) == Err::<Transfer, Error>(
            Error::AlreadyCompleted,
        ),
{
}

/// Completion happens once: a completed session stays completed, and no
/// caller's attempt to complete it again gets as far as the ledger.
pub proof fn law_completion_happens_once(
    state: ContractState,
    history: Seq<Operation>,
    session_id: u64,
    auth: AuthContext,
)
    requires
        state.consistent(),
        state.admits_all(history),
        state.sessions.contains_key(session_id),
        state.sessions[session_id].completed,
    ensures
        state.after_all(history).sessions.contains_key(session_id),
        state.after_all(history).sessions[session_id].completed,
        state.after_all(history).release(auth, session_id) is Err,
    decreases history.len(),
{
    if history.len() > 0 {
        law_completion_happens_once(state, history.drop_last(), session_id, auth);
        law_histories_keep_consistency(state, history.drop_last());
    }
}

/// Over a history no counter of a client goes down, and a client with two
/// misses on record is at risk: once the second miss is counted, the flag is
/// set for good.
pub proof fn law_two_misses_mark_the_client_for_good(
    state: ContractState,
    history: Seq<Operation>,
    client: Identity,
)
    requires
        state.consistent(),
        state.admits_all(history),
        state.stats_of(client).coherent(),
    ensures
        state.after_all(history).stats_of(client).coherent(),
        state.after_all(history).stats_of(client).total_sessions >= state.stats_of(
            client,
        ).total_sessions,
        state.after_all(history).stats_of(client).attended_sessions >= state.stats_of(
            client,
        ).attended_sessions,
        state.after_all(history).stats_of(client).missed_sessions >= state.stats_of(
            client,
        ).missed_sessions,
    decreases history.len(),
{
    if history.len() > 0 {
        law_two_misses_mark_the_client_for_good(state, history.drop_last(), client);
        law_histories_keep_consistency(state, history.drop_last());
    }
}

/// The ids of the sessions of `client`.
spec fn owned(state: ContractState, client: Identity) -> Set<u64> {
    Set::new(|id: u64| state.sessions.contains_key(id) && state.sessions[id].client == client)
}

/// On an escrow that starts without sessions and statistics, the bookings of
/// a client are the client's sessions, and the marks of a client are the
/// client's marked sessions, as long as no session is marked twice.
proof fn lemma_counters_count_sessions(
    state: ContractState,
    history: Seq<Operation>,
    client: Identity,
)
    requires
        state.consistent(),
        state.sessions == Map::<u64, CoachingSession>::empty(),
        state.stats == Map::<Identity, ClientStats>::empty(),
        state.admits_all(history),
        marks_each_session_once(history),
    ensures
        state.after_all(history).consistent(),
        state.after_all(history).sessions.dom().finite(),
        marked(history).subset_of(state.after_all(history).sessions.dom()),
        state.after_all(history).stats_of(client).total_sessions == owned(
            state.after_all(history),
            client,
        ).len(),
        state.after_all(history).stats_of(client).attended_sessions + state.after_all(
            history,
        ).stats_of(client).missed_sessions == owned(state.after_all(history), client).intersect(
            marked(history),
        ).len(),
    decreases history.len(),
{
    if history.len() == 0 {
        assert(owned(state, client) =~= Set::<u64>::empty());
        assert(owned(state, client).intersect(marked(history)) =~= Set::<u64>::empty());
    } else {
        let earlier = history.drop_last();
        let before = state.after_all(earlier);
        let after = state.after_all(history);
        lemma_counters_count_sessions(state, earlier, client);
        let own_before = owned(before, client);
        let own_after = owned(after, client);
        vstd::set_lib::lemma_len_subset(own_before, before.sessions.dom());
        match history.last() {
            Operation::Book { client: who, .. } => {
                let id = before.next_id();
                assert(!before.sessions.contains_key(id));
                assert(after.sessions.dom() =~= before.sessions.dom().insert(id));
                if who == client {
                    assert(own_after =~= own_before.insert(id));
                } else {
                    assert(own_after =~= own_before);
                }
                assert(own_after.intersect(marked(history)) =~= own_before.intersect(
                    marked(earlier),
                ));
            },
            Operation::Mark { session_id, attended } => {
                assert(after.sessions.dom() =~= before.sessions.dom());
                assert(own_after =~= own_before);
                if before.sessions[session_id].client == client {
                    assert(own_after.intersect(marked(history)) =~= own_before.intersect(
                        marked(earlier),
                    ).insert(session_id));
                } else {
                    assert(own_after.intersect(marked(history)) =~= own_before.intersect(
                        marked(earlier),
                    ));
                }
            },
            Operation::Complete { session_id } => {
                assert(after.sessions.dom() =~= before.sessions.dom());
                assert(own_after =~= own_before);
                assert(own_after.intersect(marked(history)) =~= own_before.intersect(
                    marked(earlier),
                ));
            },
        }
    }
}

/// On an escrow that starts without sessions and statistics, and as long as
/// no session is marked twice, a client has no more marks on record than
/// bookings.
pub proof fn law_single_marks_stay_within_bookings(
    state: ContractState,
    history: Seq<Operation>,
    client: Identity,
)
    requires
        state.consistent(),
        state.sessions == Map::<u64, CoachingSession>::empty(),
        state.stats == Map::<Identity, ClientStats>::empty(),
        state.admits_all(history),
        marks_each_session_once(history),
    ensures
        state.after_all(history).stats_of(client).attended_sessions + state.after_all(
            history,
        ).stats_of(client).missed_sessions <= state.after_all(history).stats_of(
            client,
        ).total_sessions,
{
    lemma_counters_count_sessions(state, history, client);
    let after = state.after_all(history);
    vstd::set_lib::lemma_len_subset(owned(after, client), after.sessions.dom());
    vstd::set_lib::lemma_len_subset(
        owned(after, client).intersect(marked(history)),
        owned(after, client),
    );
}

} // verus!

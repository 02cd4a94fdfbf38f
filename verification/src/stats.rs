//! Per-client attendance statistics and the churn-risk rule.

use vstd::prelude::*;

verus! {

/// Attendance history of one client, with the churn-risk flag derived from it.
#[derive(Clone, Copy, Debug, PartialEq, Eq, Structural)]
pub struct ClientStats {
    /// Sessions the client has booked.
    pub total_sessions: u64,
    /// Attendance marks that said the client was present.
    pub attended_sessions: u64,
    /// Attendance marks that said the client was absent.
    pub missed_sessions: u64,
    /// Whether the history suggests that the client is about to give up.
    pub at_risk: bool,
}

impl ClientStats {
    /// The record of a client without history.
    pub open spec fn zero() -> ClientStats {
        ClientStats { total_sessions: 0, attended_sessions: 0, missed_sessions: 0, at_risk: false }
    }

    /// The risk rule, evaluated on the counters as they stand after an update;
    /// `prior` is the flag before it.
    ///
    /// Two misses mean risk. Otherwise, from three booked sessions on, risk is
    /// an attendance rate under 50 percent. Otherwise the flag stays.
    pub open spec fn assess(total: int, attended: int, missed: int, prior: bool) -> bool {
        if missed >= 2 {
            true
        } else if total >= 3 {
            attended * 100 / total < 50
        } else {
            prior
        }
    }

    /// Whether the counter that an update with these flags increments can
    /// still grow.
    pub open spec fn has_room(self, new_session: bool, attended: bool) -> bool {
        if new_session {
            self.total_sessions < u64::MAX
        } else if attended {
            self.attended_sessions < u64::MAX
        } else {
            self.missed_sessions < u64::MAX
        }
    }

    /// The record after one update: a new booking if `new_session`, else an
    /// attendance mark with the value of `attended`.
    pub open spec fn updated(self, new_session: bool, attended: bool) -> ClientStats {
        let total = self.total_sessions + if new_session { 1int } else { 0 };
        let present = self.attended_sessions + if !new_session && attended { 1int } else { 0 };
        let missed = self.missed_sessions + if !new_session && !attended { 1int } else { 0 };
        ClientStats {
            total_sessions: total as u64,
            attended_sessions: present as u64,
            missed_sessions: missed as u64,
            at_risk: Self::assess(total, present, missed, self.at_risk),
        }
    }

    /// Whether the flag agrees with the first branch of the risk rule. Every
    /// record that updates have produced does.
    pub open spec fn coherent(self) -> bool {
        self.missed_sessions >= 2 ==> self.at_risk
    }

    /// The record of a client without history.
    pub fn new() -> (stats: ClientStats)
        ensures
            stats == ClientStats::zero(),
    {
        ClientStats { total_sessions: 0, attended_sessions: 0, missed_sessions: 0, at_risk: false }
    }

    /// Counts one event and recomputes the risk flag from the new counters.
    pub fn update(&mut self, new_session: bool, attended: bool)
        requires
            old(self).has_room(new_session, attended),
        ensures
            *final(self) == old(self).updated(new_session, attended),
    {
        if new_session {
            self.total_sessions = self.total_sessions + 1;
        } else if attended {
            self.attended_sessions = self.attended_sessions + 1;
        } else {
            self.missed_sessions = self.missed_sessions + 1;
        }
        if self.missed_sessions >= 2 {
            self.at_risk = true;
        } else if self.total_sessions >= 3 {
            let rate: u128 = (self.attended_sessions as u128 * 100) / (self.total_sessions as u128);
            self.at_risk = rate < 50;
        }
    }
}

impl ClientStats {
    /// The record after the updates of `events`, in their order. Each event
    /// is a pair of `new_session` and `attended`.
    pub open spec fn updated_by(self, events: Seq<(bool, bool)>) -> ClientStats
        decreases events.len(),
    {
        if events.len() == 0 {
            self
        } else {
            self.updated_by(events.drop_last()).updated(events.last().0, events.last().1)
        }
    }

    /// Whether no counter reaches its limit before the last of `events`.
    pub open spec fn has_room_for(self, events: Seq<(bool, bool)>) -> bool
        decreases events.len(),
    {
        events.len() > 0 ==> self.has_room_for(events.drop_last()) && self.updated_by(
            events.drop_last(),
        ).has_room(events.last().0, events.last().1)
    }
}

/// An update increments exactly one counter, by one, and lowers none.
pub proof fn law_update_counts_one_event(stats: ClientStats, new_session: bool, attended: bool)
    requires
        stats.has_room(new_session, attended),
    ensures
        stats.updated(new_session, attended).total_sessions == stats.total_sessions
            + if new_session {
            1int
        } else {
            0
        },
        stats.updated(new_session, attended).attended_sessions == stats.attended_sessions
            + if !new_session && attended {
            1int
        } else {
            0
        },
        stats.updated(new_session, attended).missed_sessions == stats.missed_sessions
            + if !new_session && !attended {
            1int
        } else {
            0
        },
{
}

/// A client is at risk as soon as an update leaves two misses on record.
pub proof fn law_two_misses_mean_risk(stats: ClientStats, new_session: bool, attended: bool)
    requires
        stats.has_room(new_session, attended),
        stats.updated(new_session, attended).missed_sessions >= 2,
    ensures
        stats.updated(new_session, attended).at_risk,
{
}

/// A client is at risk as soon as an update leaves three or more bookings on
/// record with an attendance rate under 50 percent, whatever the misses.
pub proof fn law_low_attendance_means_risk(stats: ClientStats, new_session: bool, attended: bool)
    requires
        stats.has_room(new_session, attended),
        stats.updated(new_session, attended).total_sessions >= 3,
        stats.updated(new_session, attended).attended_sessions * 100 / (stats.updated(
            new_session,
            attended,
        ).total_sessions as int) < 50,
    ensures
        stats.updated(new_session, attended).at_risk,
{
}

/// With fewer than two misses and fewer than three bookings on record, an
/// update leaves the risk flag as it was.
pub proof fn law_short_histories_keep_the_flag(
    stats: ClientStats,
    new_session: bool,
    attended: bool,
)
    requires
        stats.has_room(new_session, attended),
        stats.updated(new_session, attended).missed_sessions < 2,
        stats.updated(new_session, attended).total_sessions < 3,
    ensures
        stats.updated(new_session, attended).at_risk == stats.at_risk,
{
}

/// A client at risk stays at risk through an update, unless the update
/// leaves fewer than two misses and an attendance rate of 50 percent or more
/// over three or more bookings.
pub proof fn law_risk_stays_unless_attendance_recovers(
    stats: ClientStats,
    new_session: bool,
    attended: bool,
)
    requires
        stats.has_room(new_session, attended),
        stats.at_risk,
        !(stats.updated(new_session, attended).missed_sessions < 2 && stats.updated(
            new_session,
            attended,
        ).total_sessions >= 3 && stats.updated(new_session, attended).attended_sessions * 100 / (
        stats.updated(new_session, attended).total_sessions as int) >= 50),
    ensures
        stats.updated(new_session, attended).at_risk,
{
}

/// Every record that updates have made of the empty record is coherent.
pub proof fn law_updates_keep_coherence(events: Seq<(bool, bool)>)
    requires
        ClientStats::zero().has_room_for(events),
    ensures
        ClientStats::zero().updated_by(events).coherent(),
    decreases events.len(),
{
    if events.len() > 0 {
        law_updates_keep_coherence(events.drop_last());
    }
}

/// Once two misses are on record, the client is at risk for good: no later
/// update takes the flag away.
pub proof fn law_risk_after_two_misses_is_permanent(stats: ClientStats, events: Seq<(bool, bool)>)
    requires
        stats.coherent(),
        stats.missed_sessions >= 2,
        stats.has_room_for(events),
    ensures
        stats.updated_by(events).missed_sessions >= 2,
        stats.updated_by(events).at_risk,
    decreases events.len(),
{
    if events.len() > 0 {
        law_risk_after_two_misses_is_permanent(stats, events.drop_last());
    }
}

} // verus!

//! The statistics of all clients, keyed by client identity.

use vstd::prelude::*;
use crate::identity::Identity;
use crate::stats::ClientStats;

verus! {

/// The statistics kept for one client.
struct ClientRecord {
    client: Identity,
    stats: ClientStats,
}

/// The index of the first record for `client` at or after `from`, or the
/// length of `records` if there is none.
spec fn position_from(records: Seq<ClientRecord>, client: Identity, from: int) -> int
    decreases records.len() - from,
{
    if from < 0 || from >= records.len() {
        records.len() as int
    } else if records[from].client == client {
        from
    } else {
        position_from(records, client, from + 1)
    }
}

/// What `position_from` returns: no record before it names the client, and the
/// record at it does, if it is an index at all.
proof fn lemma_position_found(records: Seq<ClientRecord>, client: Identity, from: int)
    requires
        0 <= from <= records.len(),
    ensures
        from <= position_from(records, client, from) <= records.len(),
        forall|j: int|
            from <= j < position_from(records, client, from) ==> records[j].client != client,
        position_from(records, client, from) < records.len() ==> records[position_from(
            records,
            client,
            from,
        )].client == client,
    decreases records.len() - from,
{
    if from < records.len() && records[from].client != client {
        lemma_position_found(records, client, from + 1);
    }
}

/// An index that no record for the client precedes, and that holds one if
/// it is an index at all, is what `position_from` returns.
proof fn lemma_position_is(records: Seq<ClientRecord>, client: Identity, from: int, at: int)
    requires
        0 <= from <= at <= records.len(),
        forall|j: int| from <= j < at ==> records[j].client != client,
        at < records.len() ==> records[at].client == client,
    ensures
        position_from(records, client, from) == at,
    decreases records.len() - from,
{
    if from < at {
        lemma_position_is(records, client, from + 1, at);
    }
}

/// A map from client to statistics. A client without an entry has no history.
pub struct Roster {
    records: Vec<ClientRecord>,
}

impl View for Roster {
    type V = Map<Identity, ClientStats>;

    closed spec fn view(&self) -> Map<Identity, ClientStats> {
        Map::new(
            |client: Identity| position_from(self.records@, client, 0) < self.records@.len(),
            |client: Identity| self.records@[position_from(self.records@, client, 0)].stats,
        )
    }
}

impl Roster {
    /// A roster without entries.
    pub fn new() -> (roster: Roster)
        ensures
            roster@ == Map::<Identity, ClientStats>::empty(),
    {
        let roster = Roster { records: Vec::new() };
        assert(roster@ =~= Map::<Identity, ClientStats>::empty());
        roster
    }

    /// The index of the client's record, or the number of records.
    fn locate(&self, client: &Identity) -> (at: usize)
        ensures
            at == position_from(self.records@, *client, 0),
            at <= self.records@.len(),
    {
        let mut i: usize = 0;
        while i < self.records.len()
            invariant
                i <= self.records@.len(),
                forall|j: int| 0 <= j < i ==> self.records@[j].client != *client,
            decreases self.records@.len() - i,
        {
            if self.records[i].client == *client {
                proof {
                    lemma_position_is(self.records@, *client, 0, i as int);
                }
                return i;
            }
            i += 1;
        }
        proof {
            lemma_position_is(self.records@, *client, 0, i as int);
        }
        i
    }

    /// The client's statistics, if the client has an entry.
    pub fn get(&self, client: &Identity) -> (found: Option<ClientStats>)
        ensures
            found == (if self@.contains_key(*client) {
                Some(self@[*client])
            } else {
                None::<ClientStats>
            }),
    {
        let at: usize = self.locate(client);
        if at < self.records.len() {
            Some(self.records[at].stats)
        } else {
            None
        }
    }

    /// Sets the client's statistics, adding an entry if there is none.
    pub fn set(&mut self, client: Identity, stats: ClientStats)
        ensures
            final(self)@ == old(self)@.insert(client, stats),
    {
        let at: usize = self.locate(&client);
        let record = ClientRecord { client, stats };
        if at < self.records.len() {
            self.records.set(at, record);
        } else {
            self.records.push(record);
        }
        proof {
            let before = old(self).records@;
            let after = self.records@;
            lemma_position_found(before, client, 0);
            lemma_position_is(after, client, 0, at as int);
            assert forall|other: Identity| other != client implies ((#[trigger] position_from(
                after,
                other,
                0,
            )) < after.len()) == (position_from(before, other, 0) < before.len()) && (position_from(
                before,
                other,
                0,
            ) < before.len() ==> after[position_from(after, other, 0)].stats
                == before[position_from(before, other, 0)].stats) by {
                lemma_position_found(before, other, 0);
                let p: int = position_from(before, other, 0);
                if p < before.len() {
                    lemma_position_is(after, other, 0, p);
                } else {
                    lemma_position_is(after, other, 0, after.len() as int);
                }
            }
            assert(self@ =~= old(self)@.insert(client, stats));
        }
    }
}

} // verus!

//! Recomputing each record's seeder and leecher counts from a snapshot of
//! the connected peers.
use vstd::prelude::*;

verus! {

/// What a connected peer is doing.
#[derive(Clone, Copy, Debug, PartialEq, Eq, Structural)]
pub enum PeerStatus {
    Seeding,
    Leeching,
    Other,
}

/// One connected peer of a record.
#[derive(Clone, Copy, Debug, PartialEq, Eq, Structural)]
pub struct PeerState {
    pub record_id: i64,
    pub status: PeerStatus,
}

/// The counts to store for one record.
#[derive(Clone, Copy, Debug, PartialEq, Eq, Structural)]
pub struct PeerCounts {
    pub record_id: i64,
    pub seeders: u64,
    pub leechers: u64,
}

/// The number of peers of `record` with `status`.
pub open spec fn count_peers(peers: Seq<PeerState>, record: i64, status: PeerStatus) -> nat
    decreases peers.len(),
{
    if peers.len() == 0 {
        0
    } else {
        count_peers(peers.drop_last(), record, status) + if peers.last().record_id == record
            && peers.last().status == status {
            1nat
        } else {
            0nat
        }
    }
}

proof fn lemma_count_peers_bounded(peers: Seq<PeerState>, record: i64, status: PeerStatus)
    ensures
        count_peers(peers, record, status) <= peers.len(),
    decreases peers.len(),
{
    if peers.len() > 0 {
        lemma_count_peers_bounded(peers.drop_last(), record, status);
    }
}

/// The seeders and leechers of one record among `peers`.
pub fn counts_for(record_id: i64, peers: &Vec<PeerState>) -> (r: PeerCounts)
    ensures
        r.record_id == record_id,
        r.seeders == count_peers(peers@, record_id, PeerStatus::Seeding),
        r.leechers == count_peers(peers@, record_id, PeerStatus::Leeching),
{
    let mut seeders: u64 = 0;
    let mut leechers: u64 = 0;
    let mut i: usize = 0;
    while i < peers.len()
        invariant
            i <= peers@.len(),
            seeders == count_peers(peers@.subrange(0, i as int), record_id, PeerStatus::Seeding),
            leechers == count_peers(peers@.subrange(0, i as int), record_id, PeerStatus::Leeching),
        decreases peers@.len() - i,
    {
        let ghost pre = peers@.subrange(0, i as int);
        assert(peers@.subrange(0, i + 1).drop_last() =~= pre);
        proof {
            lemma_count_peers_bounded(pre, record_id, PeerStatus::Seeding);
            lemma_count_peers_bounded(pre, record_id, PeerStatus::Leeching);
        }
        let p = peers[i];
        if p.record_id == record_id {
            match p.status {
                PeerStatus::Seeding => {
                    seeders = seeders + 1;
                },
                PeerStatus::Leeching => {
                    leechers = leechers + 1;
                },
                PeerStatus::Other => {},
            }
        }
        i = i + 1;
    }
    assert(peers@.subrange(0, peers@.len() as int) =~= peers@);
    PeerCounts { record_id, seeders, leechers }
}

/// The counts to store for every record, in the order of `record_ids`: the
/// number of its connected peers that seed and that leech, zero for a
/// record with no peers. The result replaces the stored counts whole, so
/// recomputing from the same snapshot gives the same counts.
pub fn recompute_peer_counts(record_ids: &Vec<i64>, peers: &Vec<PeerState>) -> (r: Vec<PeerCounts>)
    ensures
        r@.len() == record_ids@.len(),
        forall|i: int|
            0 <= i < r@.len() ==> {
                &&& #[trigger] r@[i].record_id == record_ids@[i]
                &&& r@[i].seeders == count_peers(peers@, record_ids@[i], PeerStatus::Seeding)
                &&& r@[i].leechers == count_peers(peers@, record_ids@[i], PeerStatus::Leeching)
            },
{
    let mut out: Vec<PeerCounts> = Vec::new();
    let mut i: usize = 0;
    while i < record_ids.len()
        invariant
            i <= record_ids@.len(),
            out@.len() == i,
            forall|k: int|
                0 <= k < i ==> {
                    &&& #[trigger] out@[k].record_id == record_ids@[k]
                    &&& out@[k].seeders == count_peers(peers@, record_ids@[k], PeerStatus::Seeding)
                    &&& out@[k].leechers == count_peers(
                        peers@,
                        record_ids@[k],
                        PeerStatus::Leeching,
                    )
                },
        decreases record_ids@.len() - i,
    {
        out.push(counts_for(record_ids[i], peers));
        i = i + 1;
    }
    out
}

} // verus!

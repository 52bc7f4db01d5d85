//! The activity ledger: per-record fetch counters and at most one activity
//! row per (record, user) pair. This is the storage contract of the fetch
//! workflow written as a value: the database keeps the ledger, and the
//! laws below state what its increment and duplicate-ignoring insert
//! guarantee across many fetches.
use vstd::prelude::*;

verus! {

/// How many times one record has been fetched.
pub struct SnatchCounter {
    pub record_id: i64,
    pub snatched: u64,
}

/// That a user has fetched a record at least once.
#[derive(Clone, Copy, Debug, PartialEq, Eq, Structural)]
pub struct ActivityRow {
    pub record_id: i64,
    pub user_id: i64,
}

/// The ledger's contents: counters, one per record, and activity rows, one
/// per (record, user) pair.
pub struct ActivityLedger {
    pub counters: Vec<SnatchCounter>,
    pub rows: Vec<ActivityRow>,
}

/// The counter of `record` among `counters` (0 when it has none).
pub open spec fn count_of(counters: Seq<SnatchCounter>, record: i64) -> nat
    decreases counters.len(),
{
    if counters.len() == 0 {
        0
    } else if counters.last().record_id == record {
        counters.last().snatched as nat
    } else {
        count_of(counters.drop_last(), record)
    }
}

/// The ledger as a set of (record, user) rows and a counter for every record.
pub struct LedgerView {
    pub rows: Set<(i64, i64)>,
    pub snatched: Map<i64, nat>,
}

/// What one fetch of `record` by `user` does to the ledger: the record's
/// counter goes up by one, and the pair's row is added unless present.
pub open spec fn after_fetch(v: LedgerView, record: i64, user: i64) -> LedgerView {
    LedgerView {
        rows: v.rows.insert((record, user)),
        snatched: v.snatched.insert(record, v.snatched[record] + 1),
    }
}

/// The ledger after one fetch of `record` by each user of `users`, in turn.
pub open spec fn after_fetches(v: LedgerView, record: i64, users: Seq<i64>) -> LedgerView
    decreases users.len(),
{
    if users.len() == 0 {
        v
    } else {
        after_fetch(after_fetches(v, record, users.drop_last()), record, users.last())
    }
}

/// The rows of `record`.
pub open spec fn rows_of(rows: Set<(i64, i64)>, record: i64) -> Set<(i64, i64)> {
    rows.filter(|p: (i64, i64)| p.0 == record)
}

impl ActivityLedger {
    pub open spec fn view(&self) -> LedgerView {
        LedgerView {
            rows: self.rows@.map_values(|r: ActivityRow| (r.record_id, r.user_id)).to_set(),
            snatched: Map::new(|r: i64| true, |r: i64| count_of(self.counters@, r)),
        }
    }

    /// Each record has one counter and each pair one row.
    pub open spec fn wf(&self) -> bool {
        &&& forall|i: int, j: int|
            0 <= i < j < self.counters@.len() ==> self.counters@[i].record_id
                != self.counters@[j].record_id
        &&& forall|i: int, j: int|
            0 <= i < j < self.rows@.len() ==> self.rows@[i] != self.rows@[j]
    }

    /// An empty ledger.
    pub fn new() -> (r: ActivityLedger)
        ensures
            r.wf(),
            r.view().rows == Set::<(i64, i64)>::empty(),
            forall|rec: i64| r.view().snatched[rec] == 0,
    {
        let r = ActivityLedger { counters: Vec::new(), rows: Vec::new() };
        assert(r.view().rows =~= Set::<(i64, i64)>::empty());
        r
    }

    /// The number of fetches of `record`.
    pub fn snatched(&self, record: i64) -> (r: u64)
        requires
            self.wf(),
        ensures
            r == self.view().snatched[record],
    {
        let mut i: usize = self.counters.len();
        assert(self.counters@.subrange(0, i as int) =~= self.counters@);
        while i > 0
            invariant
                i <= self.counters@.len(),
                count_of(self.counters@.subrange(0, i as int), record) == count_of(
                    self.counters@,
                    record,
                ),
            decreases i,
        {
            let ghost pre = self.counters@.subrange(0, i as int);
            assert(pre.drop_last() =~= self.counters@.subrange(0, i - 1));
            if self.counters[i - 1].record_id == record {
                return self.counters[i - 1].snatched;
            }
            i = i - 1;
        }
        0
    }

    /// Whether `user` has a row for `record`.
    pub fn has_row(&self, record: i64, user: i64) -> (r: bool)
        ensures
            r == self.view().rows.contains((record, user)),
    {
        let mut i: usize = 0;
        while i < self.rows.len()
            invariant
                i <= self.rows@.len(),
                forall|j: int| 0 <= j < i ==> self.rows@[j] != (ActivityRow { record_id: record, user_id: user }),
            decreases self.rows@.len() - i,
        {
            if self.rows[i].record_id == record && self.rows[i].user_id == user {
                proof {
                    let s = self.rows@.map_values(|r: ActivityRow| (r.record_id, r.user_id));
                    assert(s[i as int] == (record, user));
                }
                return true;
            }
            i = i + 1;
        }
        proof {
            let s = self.rows@.map_values(|r: ActivityRow| (r.record_id, r.user_id));
            if s.contains((record, user)) {
                let k = choose|k: int| 0 <= k < s.len() && s[k] == (record, user);
                assert(self.rows@[k] == (ActivityRow { record_id: record, user_id: user }));
            }
        }
        false
    }

    /// Records one fetch of `record` by `user`: the counter goes up by one,
    /// and the pair's row is added unless it is already there (then the
    /// result is `false`).
    pub fn record_fetch(&mut self, record: i64, user: i64) -> (inserted: bool)
        requires
            old(self).wf(),
            old(self).view().snatched[record] < u64::MAX,
        ensures
            final(self).wf(),
            final(self).view() == after_fetch(old(self).view(), record, user),
            inserted == !old(self).view().rows.contains((record, user)),
    {
        self.bump_counter(record);
        let present = self.has_row(record, user);
        let ghost before = self.rows@;
        if !present {
            self.rows.push(ActivityRow { record_id: record, user_id: user });
            proof {
                let s0 = before.map_values(|r: ActivityRow| (r.record_id, r.user_id));
                let s1 = self.rows@.map_values(|r: ActivityRow| (r.record_id, r.user_id));
                assert(s1 =~= s0.push((record, user)));
                assert(s1.to_set() =~= s0.to_set().insert((record, user))) by {
                    assert forall|p: (i64, i64)| s1.to_set().contains(p) == s0.to_set().insert((record, user)).contains(p) by {
                        if s0.contains(p) {
                            let k = choose|k: int| 0 <= k < s0.len() && s0[k] == p;
                            assert(s1[k] == p);
                        }
                        if s1.contains(p) && p != (record, user) {
                            let k = choose|k: int| 0 <= k < s1.len() && s1[k] == p;
                            assert(s0[k] == p);
                        }
                        if p == (record, user) {
                            assert(s1[s0.len() as int] == p);
                        }
                    }
                }
                assert forall|i: int, j: int| 0 <= i < j < self.rows@.len() implies self.rows@[i]
                    != self.rows@[j] by {
                    if j == before.len() {
                        assert(s0[i] == (before[i].record_id, before[i].user_id));
                    }
                }
            }
        } else {
            proof {
                assert(self.view().rows =~= self.view().rows.insert((record, user)));
            }
        }
        assert(self.view().snatched =~= after_fetch(old(self).view(), record, user).snatched);
        assert(self.view().rows =~= after_fetch(old(self).view(), record, user).rows);
        !present
    }

    fn bump_counter(&mut self, record: i64)
        requires
            old(self).wf(),
            count_of(old(self).counters@, record) < u64::MAX,
        ensures
            final(self).wf(),
            final(self).rows@ == old(self).rows@,
            forall|r: i64|
                count_of(final(self).counters@, r) == if r == record {
                    count_of(old(self).counters@, r) + 1
                } else {
                    count_of(old(self).counters@, r)
                },
    {
        let n = self.counters.len();
        let mut i: usize = 0;
        while i < n
            invariant
                n == self.counters@.len() == old(self).counters@.len(),
                *self == *old(self),
                i <= n,
                forall|j: int| 0 <= j < i ==> self.counters@[j].record_id != record,
            ensures
                n == self.counters@.len(),
                *self == *old(self),
                i <= n,
                forall|j: int| 0 <= j < i ==> self.counters@[j].record_id != record,
                i < n ==> self.counters@[i as int].record_id == record,
            decreases n - i,
        {
            if self.counters[i].record_id == record {
                break;
            }
            i = i + 1;
        }
        let ghost before = self.counters@;
        proof {
            lemma_count_of_index(before, record, i as int);
        }
        if i < n {
            let c = self.counters[i].snatched + 1;
            self.counters.set(i, SnatchCounter { record_id: record, snatched: c });
            proof {
                assert forall|r: i64| #[trigger] count_of(self.counters@, r) == if r == record {
                    count_of(before, r) + 1
                } else {
                    count_of(before, r)
                } by {
                    lemma_count_of_update(before, i as int, c, r);
                }
            }
        } else {
            self.counters.push(SnatchCounter { record_id: record, snatched: 1 });
            proof {
                assert(self.counters@.drop_last() =~= before);
                lemma_count_absent(before, record);
            }
        }
    }
}

proof fn lemma_count_absent(counters: Seq<SnatchCounter>, record: i64)
    requires
        forall|j: int| 0 <= j < counters.len() ==> counters[j].record_id != record,
    ensures
        count_of(counters, record) == 0,
    decreases counters.len(),
{
    if counters.len() > 0 {
        lemma_count_absent(counters.drop_last(), record);
    }
}

proof fn lemma_count_of_index(counters: Seq<SnatchCounter>, record: i64, i: int)
    requires
        0 <= i <= counters.len(),
        forall|j: int| 0 <= j < i ==> counters[j].record_id != record,
        i < counters.len() ==> counters[i].record_id == record,
        forall|a: int, b: int|
            0 <= a < b < counters.len() ==> counters[a].record_id != counters[b].record_id,
    ensures
        i < counters.len() ==> count_of(counters, record) == counters[i].snatched,
        i == counters.len() ==> forall|j: int|
            0 <= j < counters.len() ==> counters[j].record_id != record,
    decreases counters.len(),
{
    if i < counters.len() && i < counters.len() - 1 {
        lemma_count_of_index(counters.drop_last(), record, i);
    }
}

proof fn lemma_count_of_update(counters: Seq<SnatchCounter>, i: int, c: u64, r: i64)
    requires
        0 <= i < counters.len(),
        forall|a: int, b: int|
            0 <= a < b < counters.len() ==> counters[a].record_id != counters[b].record_id,
    ensures
        count_of(
            counters.update(i, SnatchCounter { record_id: counters[i].record_id, snatched: c }),
            r,
        ) == if r == counters[i].record_id {
            c as nat
        } else {
            count_of(counters, r)
        },
    decreases counters.len(),
{
    let u = counters.update(i, SnatchCounter { record_id: counters[i].record_id, snatched: c });
    if i < counters.len() - 1 {
        assert(u.drop_last() =~= counters.drop_last().update(
            i,
            SnatchCounter { record_id: counters[i].record_id, snatched: c },
        ));
        lemma_count_of_update(counters.drop_last(), i, c, r);
    } else {
        assert(u.drop_last() =~= counters.drop_last());
    }
}

/// However many times one user fetches a record, the ledger holds one row
/// for the pair, and the record's counter goes up by the number of fetches.
pub proof fn lemma_same_user_fetches(v: LedgerView, record: i64, user: i64, users: Seq<i64>)
    requires
        users.len() > 0,
        forall|i: int| 0 <= i < users.len() ==> users[i] == user,
        v.snatched.dom().contains(record),
    ensures
        after_fetches(v, record, users).rows == v.rows.insert((record, user)),
        after_fetches(v, record, users).snatched.dom().contains(record),
        after_fetches(v, record, users).snatched[record] == v.snatched[record] + users.len(),
    decreases users.len(),
{
    let prev = users.drop_last();
    if users.len() > 1 {
        lemma_same_user_fetches(v, record, user, prev);
        assert(v.rows.insert((record, user)).insert((record, user)) =~= v.rows.insert(
            (record, user),
        ));
    } else {
        assert(prev =~= Seq::<i64>::empty());
        assert(after_fetches(v, record, prev) == v);
    }
}

/// Fetches of a record by users who had no row for it, each user once, add
/// one row per user, and raise the record's counter by the number of fetches.
pub proof fn lemma_distinct_user_fetches(v: LedgerView, record: i64, users: Seq<i64>)
    requires
        v.rows.finite(),
        v.snatched.dom().contains(record),
        users.no_duplicates(),
        forall|i: int| 0 <= i < users.len() ==> !v.rows.contains((record, #[trigger] users[i])),
    ensures
        after_fetches(v, record, users).rows.finite(),
        after_fetches(v, record, users).snatched.dom().contains(record),
        after_fetches(v, record, users).rows.len() == v.rows.len() + users.len(),
        rows_of(after_fetches(v, record, users).rows, record).len() == rows_of(v.rows, record).len()
            + users.len(),
        after_fetches(v, record, users).snatched[record] == v.snatched[record] + users.len(),
    decreases users.len(),
{
    if users.len() > 0 {
        let prev = users.drop_last();
        lemma_distinct_user_fetches(v, record, prev);
        let before = after_fetches(v, record, prev);
        let u = users.last();
        lemma_rows_of_fetches(v, record, prev);
        assert(!before.rows.contains((record, u))) by {
            if before.rows.contains((record, u)) {
                let k = choose|k: int| 0 <= k < prev.len() && prev[k] == u;
                assert(users[k] == users[users.len() - 1]);
            }
        }
        assert(rows_of(before.rows.insert((record, u)), record) =~= rows_of(before.rows, record).insert((record, u)));
    }
}

proof fn lemma_rows_of_fetches(v: LedgerView, record: i64, users: Seq<i64>)
    ensures
        forall|p: (i64, i64)|
            after_fetches(v, record, users).rows.contains(p) ==> v.rows.contains(p) || (p.0
                == record && exists|k: int| 0 <= k < users.len() && users[k] == p.1),
    decreases users.len(),
{
    if users.len() > 0 {
        lemma_rows_of_fetches(v, record, users.drop_last());
        assert forall|p: (i64, i64)|
            after_fetches(v, record, users).rows.contains(p) implies v.rows.contains(p) || (p.0
                == record && exists|k: int| 0 <= k < users.len() && users[k] == p.1) by {
            if p == (record, users.last()) {
                assert(users[users.len() - 1] == p.1);
            } else if !v.rows.contains(p) {
                let k = choose|k: int|
                    0 <= k < users.drop_last().len() && users.drop_last()[k] == p.1;
                assert(users[k] == p.1);
            }
        }
    }
}

} // verus!

use vstd::prelude::*;
use crate::metric::{MetricName, QueryError};
use crate::snapshot::{Snapshot, metric_value};

verus! {

/// The most entries a historical series is served with.
pub const MAX_HISTORY: usize = 100;

/// A committed snapshot with its surrogate key and commit time.
#[derive(Clone, Copy, Debug, PartialEq, Eq, Structural)]
pub struct Record {
    pub id: u64,
    /// Seconds since the epoch, assigned at commit.
    pub timestamp: i64,
    pub snapshot: Snapshot,
}

/// One point of a historical series.
#[derive(Clone, Copy, Debug, PartialEq, Eq, Structural)]
pub struct HistoryPoint {
    pub timestamp: i64,
    pub value: i128,
}

#[derive(Clone, Copy, Debug, PartialEq, Eq, Structural)]
pub enum StorageError {
    /// Every surrogate key has been used.
    KeysExhausted,
}

/// Keys count up from one in insertion order, and commit times never go back.
pub open spec fn log_wf(log: Seq<Record>) -> bool {
    &&& forall|i: int| 0 <= i < log.len() ==> (#[trigger] log[i]).id == i + 1
    &&& forall|i: int, j: int|
        0 <= i <= j < log.len() ==> (#[trigger] log[i]).timestamp <= (#[trigger] log[j]).timestamp
}

/// The time a commit at clock reading `now` is recorded with: the clock,
/// held back from running below the last commit time.
pub open spec fn commit_time(log: Seq<Record>, now: i64) -> i64 {
    if log.len() > 0 && log.last().timestamp > now {
        log.last().timestamp
    } else {
        now
    }
}

/// The most recent snapshot, if any.
pub open spec fn latest_of(log: Seq<Record>) -> Option<Snapshot> {
    if log.len() == 0 {
        None
    } else {
        Some(log.last().snapshot)
    }
}

pub open spec fn point_of(r: Record, m: MetricName) -> HistoryPoint {
    HistoryPoint { timestamp: r.timestamp, value: metric_value(r.snapshot, m) }
}

/// Number of points in a series of at most `limit` points.
pub open spec fn history_len(log: Seq<Record>, limit: nat) -> nat {
    if limit < log.len() {
        limit
    } else {
        log.len()
    }
}

/// The `limit` most recent values of metric `m`, most recent first.
pub open spec fn history_of(log: Seq<Record>, m: MetricName, limit: nat) -> Seq<HistoryPoint> {
    Seq::new(history_len(log, limit), |i: int| point_of(log[log.len() - 1 - i], m))
}

/// A series is never longer than its limit and runs from the latest commit
/// time down.
pub proof fn lemma_history_bounded_and_descending(log: Seq<Record>, m: MetricName, limit: nat)
    requires
        log_wf(log),
    ensures
        history_of(log, m, limit).len() <= limit,
        forall|i: int, j: int|
            0 <= i <= j < history_of(log, m, limit).len() ==> (#[trigger] history_of(
                log,
                m,
                limit,
            )[i]).timestamp >= (#[trigger] history_of(log, m, limit)[j]).timestamp,
{
    let h = history_of(log, m, limit);
    assert forall|i: int, j: int| 0 <= i <= j < h.len() implies (#[trigger] h[i]).timestamp
        >= (#[trigger] h[j]).timestamp by {
        let a = log.len() - 1 - j;
        let b = log.len() - 1 - i;
        assert(log[a].timestamp <= log[b].timestamp);
    }
}

/// The append-only log of committed snapshots.
pub struct SnapshotLog {
    records: Vec<Record>,
}

impl View for SnapshotLog {
    type V = Seq<Record>;

    closed spec fn view(&self) -> Seq<Record> {
        self.records@
    }
}

impl SnapshotLog {
    pub open spec fn wf(&self) -> bool {
        log_wf(self@)
    }

    pub fn new() -> (r: SnapshotLog)
        ensures
            r.wf(),
            r@.len() == 0,
    {
        SnapshotLog { records: Vec::new() }
    }

    pub fn len(&self) -> (r: usize)
        ensures
            r == self@.len(),
    {
        self.records.len()
    }

    /// Appends a snapshot under the next key, stamped with `now` or, where the
    /// clock reads earlier, with the last commit time. Returns the new key.
    pub fn commit(&mut self, s: Snapshot, now: i64) -> (r: Result<u64, StorageError>)
        requires
            old(self).wf(),
        ensures
            final(self).wf(),
            old(self)@.len() >= u64::MAX ==> r == Err::<u64, StorageError>(
                StorageError::KeysExhausted,
            ) && final(self)@ == old(self)@,
            old(self)@.len() < u64::MAX ==> r == Ok::<u64, StorageError>(
                (old(self)@.len() + 1) as u64,
            ) && final(self)@ == old(self)@.push(
                (Record {
                    id: (old(self)@.len() + 1) as u64,
                    timestamp: commit_time(old(self)@, now),
                    snapshot: s,
                }),
            ),
    {
        let n = self.records.len() as u64;
        if n == u64::MAX {
            return Err(StorageError::KeysExhausted);
        }
        let mut ts = now;
        if n > 0 {
            let last = self.records[self.records.len() - 1].timestamp;
            if last > now {
                ts = last;
            }
        }
        let rec = Record { id: n + 1, timestamp: ts, snapshot: s };
        self.records.push(rec);
        proof {
            let l = self.records@;
            assert forall|i: int, j: int| 0 <= i <= j < l.len() implies (#[trigger] l[i]).timestamp
                <= (#[trigger] l[j]).timestamp by {
                if j == l.len() - 1 && i < j {
                    assert(l[i] == old(self).records@[i]);
                    assert(old(self).records@[i].timestamp <= old(
                        self,
                    ).records@.last().timestamp);
                }
            }
        }
        Ok(n + 1)
    }

    /// The most recently committed snapshot, or `None` while the log is empty.
    pub fn latest(&self) -> (r: Option<Snapshot>)
        ensures
            r == latest_of(self@),
    {
        let n = self.records.len();
        if n == 0 {
            None
        } else {
            Some(self.records[n - 1].snapshot)
        }
    }

    /// The `limit` most recent values of metric `m`, most recent first.
    pub fn series(&self, m: MetricName, limit: usize) -> (r: Vec<HistoryPoint>)
        requires
            self.wf(),
        ensures
            r@ == history_of(self@, m, limit as nat),
            r@.len() <= limit,
            forall|i: int, j: int|
                0 <= i <= j < r@.len() ==> (#[trigger] r@[i]).timestamp >= (#[trigger] r@[j]).timestamp,
    {
        let n = self.records.len();
        let count = if limit < n {
            limit
        } else {
            n
        };
        let mut out: Vec<HistoryPoint> = Vec::new();
        let mut i: usize = 0;
        while i < count
            invariant
                n == self@.len(),
                count == history_len(self@, limit as nat),
                i <= count,
                out@ =~= history_of(self@, m, limit as nat).take(i as int),
            decreases count - i,
        {
            let rec = self.records[n - 1 - i];
            let p = HistoryPoint { timestamp: rec.timestamp, value: rec.snapshot.value(m) };
            out.push(p);
            i = i + 1;
        }
        proof {
            assert(out@ =~= history_of(self@, m, limit as nat));
            lemma_history_bounded_and_descending(self@, m, limit as nat);
        }
        out
    }

    /// The series of the metric named `metric`; a name outside the known
    /// metric fields is refused before anything is read.
    pub fn historical(&self, metric: &str, limit: usize) -> (r: Result<Vec<HistoryPoint>, QueryError>)
        requires
            self.wf(),
        ensures
            crate::metric::metric_named(metric@).is_none() ==> r == Err::<Vec<HistoryPoint>, QueryError>(
                QueryError::UnknownMetric,
            ),
            crate::metric::metric_named(metric@) matches Some(m) ==> r matches Ok(v) && v@ == history_of(
                self@,
                m,
                limit as nat,
            ),
            r matches Ok(v) ==> v@.len() <= limit && forall|i: int, j: int|
                0 <= i <= j < v@.len() ==> (#[trigger] v@[i]).timestamp >= (#[trigger] v@[j]).timestamp,
    {
        match MetricName::parse(metric) {
            Ok(m) => Ok(self.series(m, limit)),
            Err(e) => Err(e),
        }
    }
}

} // verus!

//! The debounce aggregator: relevant paths pile up in a pending batch, which
//! is handed over once no further path has arrived for a quiet interval.
//!
//! Paths are classified when their event arrives. Duplicates are kept; a
//! consumer that needs each path once removes them itself. A writer that
//! never pauses for the quiet interval defers the delivery for as long as it
//! writes.

use crate::classify::texts;
use crate::clock::current_time_as_millis;
use vstd::prelude::*;

verus! {

/// The paths that wait for delivery, and when the last of them arrived.
#[derive(Debug, PartialEq, Eq)]
pub struct PendingBatch {
    paths: Vec<String>,
    last_update_ms: Option<u128>,
}

/// What a contract reads of a [`PendingBatch`].
pub struct BatchView {
    /// The pending paths in the order of their arrival; a path may occur more
    /// than once.
    pub paths: Seq<Seq<char>>,
    /// The time of the last recording, in milliseconds.
    pub last_update_ms: Option<int>,
}

/// The batch that holds nothing.
pub open spec fn empty_batch() -> BatchView {
    BatchView { paths: Seq::empty(), last_update_ms: None }
}

/// The batch after `paths` were recorded at the time `now`.
pub open spec fn recorded(batch: BatchView, paths: Seq<Seq<char>>, now: int) -> BatchView {
    BatchView { paths: batch.paths + paths, last_update_ms: Some(now) }
}

/// Whether the batch is due at the time `now`: something was recorded,
/// something is pending, and more than `min_interval_ms` has passed since the
/// last recording.
pub open spec fn flush_due(batch: BatchView, now: int, min_interval_ms: int) -> bool {
    &&& batch.last_update_ms is Some
    &&& batch.paths.len() > 0
    &&& now - batch.last_update_ms->0 > min_interval_ms
}

impl View for PendingBatch {
    type V = BatchView;

    closed spec fn view(&self) -> BatchView {
        BatchView {
            paths: texts(self.paths@),
            last_update_ms: match self.last_update_ms {
                Some(at) => Some(at as int),
                None => None,
            },
        }
    }
}

impl PendingBatch {
    /// A batch that holds nothing.
    pub fn new() -> (batch: PendingBatch)
        ensures
            batch@ == empty_batch(),
    {
        let batch = PendingBatch { paths: Vec::new(), last_update_ms: None };
        assert(batch@.paths =~= Seq::<Seq<char>>::empty());
        batch
    }

    /// Appends `paths` to the pending ones, keeping their order and every
    /// duplicate, and notes `now` as the time of the last update.
    pub fn record_at(&mut self, paths: Vec<String>, now: u128)
        ensures
            final(self)@ == recorded(old(self)@, texts(paths@), now as int),
    {
        let mut paths = paths;
        let ghost added = paths@;
        self.paths.append(&mut paths);
        self.last_update_ms = Some(now);
        assert(texts(self.paths@) =~= texts(old(self).paths@) + texts(added));
    }

    /// Appends `paths` to the pending ones and notes the current time as the
    /// time of the last update. Where the clock cannot be read, because it
    /// stands before the epoch, nothing is recorded and the result is `false`.
    pub fn record(&mut self, paths: Vec<String>) -> (noted: bool)
        ensures
            noted ==> final(self)@.paths == old(self)@.paths + texts(paths@),
            noted ==> final(self)@.last_update_ms is Some,
            !noted ==> final(self)@ == old(self)@,
    {
        match current_time_as_millis() {
            Some(now) => {
                self.record_at(paths, now);
                true
            },
            None => false,
        }
    }

    /// Whether the batch is due at the time `now`, for a quiet interval of
    /// `min_interval_ms`.
    pub fn should_flush(&self, now: u128, min_interval_ms: u128) -> (due: bool)
        ensures
            due == flush_due(self@, now as int, min_interval_ms as int),
    {
        match self.last_update_ms {
            Some(last) => self.paths.len() > 0 && now > last && now - last > min_interval_ms,
            None => false,
        }
    }

    /// Hands over the pending paths in the order of their arrival and leaves
    /// the batch empty, without a time of last update.
    pub fn flush(&mut self) -> (paths: Vec<String>)
        ensures
            texts(paths@) == old(self)@.paths,
            final(self)@ == empty_batch(),
    {
        let mut paths: Vec<String> = Vec::new();
        std::mem::swap(&mut self.paths, &mut paths);
        self.last_update_ms = None;
        assert(texts(self.paths@) =~= Seq::<Seq<char>>::empty());
        paths
    }

    /// The pending path, where exactly one is pending: the path that a driver
    /// looks up again before a batch of one path is delivered.
    pub fn lone_path(&self) -> (path: Option<&String>)
        ensures
            match path {
                Some(p) => self@.paths == seq![p@],
                None => self@.paths.len() != 1,
            },
    {
        if self.paths.len() == 1 {
            let path = &self.paths[0];
            assert(texts(self.paths@) =~= seq![path@]);
            Some(path)
        } else {
            None
        }
    }

    /// The number of pending paths.
    pub fn len(&self) -> (n: usize)
        ensures
            n == self@.paths.len(),
    {
        self.paths.len()
    }

    /// Whether nothing is pending.
    pub fn is_empty(&self) -> (empty: bool)
        ensures
            empty == (self@.paths.len() == 0),
    {
        self.paths.len() == 0
    }

    /// The time of the last update, if there was one since the last flush.
    pub fn last_update_ms(&self) -> (at: Option<u128>)
        ensures
            match at {
                Some(at) => self@.last_update_ms == Some(at as int),
                None => self@.last_update_ms is None,
            },
    {
        self.last_update_ms
    }
}

} // verus!

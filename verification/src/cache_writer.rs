use vstd::prelude::*;

verus! {

/// What a cache writer did: entries it saved and batches it could not.
#[derive(Clone, Copy, Debug, Default, PartialEq, Eq, Structural)]
pub struct ReplayCacheWriteResult {
    persisted_entries: usize,
    failed_batches: usize,
}

/// `a + b`, held at the largest `usize`.
pub open spec fn saturating_sum(a: usize, b: usize) -> usize {
    if a + b > usize::MAX {
        usize::MAX
    } else {
        (a + b) as usize
    }
}

impl ReplayCacheWriteResult {
    pub closed spec fn counts(self) -> (usize, usize) {
        (self.persisted_entries, self.failed_batches)
    }

    /// Nothing written, nothing failed.
    pub fn new() -> (r: Self)
        ensures
            r.counts() == (0usize, 0usize),
    {
        Self { persisted_entries: 0, failed_batches: 0 }
    }

    /// Counts `value` more saved entries.
    pub fn add_persisted_entries(&mut self, value: usize)
        ensures
            final(self).counts() == (saturating_sum(old(self).counts().0, value), old(self).counts().1),
    {
        self.persisted_entries = self.persisted_entries.saturating_add(value);
    }

    /// Counts one more failed batch.
    pub fn increment_failed_batches(&mut self)
        ensures
            final(self).counts() == (old(self).counts().0, saturating_sum(old(self).counts().1, 1)),
    {
        self.failed_batches = self.failed_batches.saturating_add(1);
    }

    /// Counts the outcome of one batch of `entry_count` entries: the entries saved, or (when
    /// the database could not take it) a failed batch; an empty batch that could not be
    /// written because the database never opened counts for nothing.
    pub fn record_batch(&mut self, entry_count: usize, outcome: Option<usize>, database_open: bool)
        ensures
            final(self).counts() == match outcome {
                Some(changed) => (saturating_sum(old(self).counts().0, changed), old(self).counts().1),
                None => if !database_open && entry_count == 0 {
                    old(self).counts()
                } else {
                    (old(self).counts().0, saturating_sum(old(self).counts().1, 1))
                },
            },
    {
        match outcome {
            Some(changed) => self.add_persisted_entries(changed),
            None => {
                if database_open || entry_count > 0 {
                    self.increment_failed_batches();
                }
            },
        }
    }

    pub fn persisted_entries(&self) -> (r: usize)
        ensures
            r == self.counts().0,
    {
        self.persisted_entries
    }

    pub fn failed_batches(&self) -> (r: usize)
        ensures
            r == self.counts().1,
    {
        self.failed_batches
    }
}

/// Why entries could not be handed to the cache writer.
#[derive(Clone, Debug, PartialEq, Eq)]
pub enum ReplayCacheWriteSendError {
    Closed,
    ResponseClosed,
    WriteFailed(String),
}

impl ReplayCacheWriteSendError {
    /// The message shown for this error.
    pub fn message(&self) -> (r: String)
        ensures
            r@ == match self {
                ReplayCacheWriteSendError::Closed => "cache writer queue is closed"@,
                ReplayCacheWriteSendError::ResponseClosed => "cache writer response channel is closed"@,
                ReplayCacheWriteSendError::WriteFailed(m) => m@,
            },
    {
        match self {
            ReplayCacheWriteSendError::Closed => String::from_str("cache writer queue is closed"),
            ReplayCacheWriteSendError::ResponseClosed => String::from_str("cache writer response channel is closed"),
            ReplayCacheWriteSendError::WriteFailed(m) => m.clone(),
        }
    }
}


/// Recording a batch never lowers either count.
pub proof fn law_record_batch_never_decreases(before: (usize, usize), entry_count: usize, outcome: Option<usize>, database_open: bool)
    ensures
        ({
            let after = match outcome {
                Some(changed) => (saturating_sum(before.0, changed), before.1),
                None => if !database_open && entry_count == 0 {
                    before
                } else {
                    (before.0, saturating_sum(before.1, 1))
                },
            };
            after.0 >= before.0 && after.1 >= before.1
        }),
{
}

} // verus!
